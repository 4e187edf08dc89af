use linkkivahti::checker::{CheckError, CheckResult};
use linkkivahti::cycle::{problems, summarize, CycleSummary};
use linkkivahti::notify::prepare_notification;

fn outcomes() -> Vec<CheckResult> {
    vec![
        CheckResult::success("https://a.test/0.js", 200, true),
        CheckResult::success("https://a.test/1.js", 200, false),
        CheckResult::failure("https://a.test/2.js", CheckError::HttpError(503)),
        CheckResult::success("https://a.test/3.js", 204, true),
        CheckResult::failure("https://a.test/4.js", CheckError::FetchFailed),
    ]
}

#[test]
fn problems_lists_each_problem_once_in_order() {
    assert_eq!(problems(&outcomes()), vec![1, 2, 4]);
    assert_eq!(problems(&vec![]), Vec::<usize>::new());
    assert_eq!(
        problems(&vec![CheckResult::success("https://a.test/0.js", 200, true)]),
        Vec::<usize>::new()
    );
    assert_eq!(
        problems(&vec![CheckResult::failure("https://a.test/0.js", CheckError::InvalidSri)]),
        vec![0]
    );
}

#[test]
fn summary_counts() {
    assert_eq!(
        summarize(&outcomes()),
        CycleSummary { total: 5, successful: 2, failed: 3 }
    );
    assert_eq!(
        summarize(&vec![]),
        CycleSummary { total: 0, successful: 0, failed: 0 }
    );
}

#[test]
fn summary_agrees_with_problems() {
    let results = outcomes();
    let summary = summarize(&results);
    let indices = problems(&results);
    assert_eq!(summary.failed, indices.len());
    assert_eq!(summary.successful + summary.failed, summary.total);
    for index in indices {
        assert!(results[index].has_problem());
    }
}

#[test]
fn cycle_with_a_webhook_notifies_once_per_problem() {
    let results = outcomes();
    let mut sent = Vec::new();
    for index in problems(&results) {
        let prepared = prepare_notification(
            Some("https://hooks.slack.com/services/T00/B00/xxx"),
            None,
            &results[index],
            "2025-11-12T10:00:00Z",
        )
        .unwrap();
        sent.push(prepared.unwrap().payload);
    }
    assert_eq!(sent.len(), 3);
    assert!(sent[0].contains("https://a.test/1.js"));
    assert!(sent[1].contains("https://a.test/2.js"));
    assert!(sent[2].contains("https://a.test/4.js"));
}

#[test]
fn cycle_without_a_webhook_notifies_nobody_and_still_summarizes() {
    let results = outcomes();
    let mut sent = 0;
    for index in problems(&results) {
        if prepare_notification(None, None, &results[index], "2025-11-12T10:00:00Z")
            .unwrap()
            .is_some()
        {
            sent += 1;
        }
    }
    assert_eq!(sent, 0);
    assert_eq!(
        summarize(&results),
        CycleSummary { total: 5, successful: 2, failed: 3 }
    );
}
