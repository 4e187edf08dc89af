use linkkivahti::checker::{CheckError, CheckResult};
use linkkivahti::json::{push_quoted, Json, JsonError};
use linkkivahti::notify::WebhookService;
use linkkivahti::surface::status_document;

#[test]
fn scalars_render() {
    assert_eq!(Json::Bool(true).render().unwrap(), "true");
    assert_eq!(Json::Bool(false).render().unwrap(), "false");
    assert_eq!(Json::Number(0).render().unwrap(), "0");
    assert_eq!(Json::Number(15158332).render().unwrap(), "15158332");
    assert_eq!(Json::Number(u32::MAX).render().unwrap(), "4294967295");
    assert_eq!(Json::text("plain").render().unwrap(), "\"plain\"");
    assert_eq!(Json::text("").render().unwrap(), "\"\"");
}

#[test]
fn strings_are_escaped() {
    assert_eq!(Json::text("a\"b").render().unwrap(), "\"a\\\"b\"");
    assert_eq!(Json::text("a\\b").render().unwrap(), "\"a\\\\b\"");
    assert_eq!(Json::text("a\nb\tc\r").render().unwrap(), "\"a\\nb\\tc\\r\"");
    assert_eq!(Json::text("\u{1}").render().unwrap(), "\"\\u0001\"");
    assert_eq!(Json::text("🔗 ä /").render().unwrap(), "\"🔗 ä /\"");
}

#[test]
fn arrays_and_objects_render_in_order() {
    assert_eq!(Json::array(vec![]).render().unwrap(), "[]");
    assert_eq!(Json::object(vec![]).render().unwrap(), "{}");
    assert_eq!(
        Json::array(vec![Json::Number(1)]).render().unwrap(),
        "[1]"
    );
    assert_eq!(
        Json::array(vec![Json::Number(1), Json::Bool(false), Json::text("x")])
            .render()
            .unwrap(),
        "[1,false,\"x\"]"
    );
    assert_eq!(
        Json::object(vec![
            Json::member("b", Json::Number(2)),
            Json::member("a", Json::Number(1)),
            Json::member("b", Json::Number(3)),
        ])
        .render()
        .unwrap(),
        "{\"b\":2,\"a\":1,\"b\":3}"
    );
}

#[test]
fn nested_documents_render() {
    let doc = Json::object(vec![
        Json::member(
            "list",
            Json::array(vec![
                Json::array(vec![]),
                Json::object(vec![Json::member("k\"", Json::array(vec![Json::Bool(true)]))]),
            ]),
        ),
        Json::member("n", Json::Number(7)),
    ]);
    assert_eq!(
        doc.render().unwrap(),
        "{\"list\":[[],{\"k\\\"\":[true]}],\"n\":7}"
    );
}

#[test]
fn write_appends_to_what_is_there() {
    let mut out = String::from("data: ");
    assert_eq!(Json::array(vec![Json::Number(4), Json::Number(2)]).write(&mut out), Ok(()));
    assert_eq!(out, "data: [4,2]");
    assert_eq!(Json::text("x").write(&mut out), Ok(()));
    assert_eq!(out, "data: [4,2]\"x\"");
}

#[test]
fn rendered_documents_parse_back() {
    let doc = Json::object(vec![
        Json::member("text", Json::text("line\nbreak \"quoted\" \\ \u{7f} \u{0}")),
        Json::member("items", Json::array(vec![Json::Number(1), Json::Number(2)])),
    ]);
    let value: serde_json::Value = serde_json::from_str(&doc.render().unwrap()).unwrap();
    assert_eq!(
        value["text"].as_str(),
        Some("line\nbreak \"quoted\" \\ \u{7f} \u{0}")
    );
    assert_eq!(value["items"][1].as_u64(), Some(2));
}

#[test]
fn push_quoted_appends_or_reports() {
    let mut out = String::from("x=");
    assert_eq!(push_quoted(&mut out, Ok("\"y\"".to_string())), Ok(()));
    assert_eq!(out, "x=\"y\"");

    let error = serde_json::from_str::<u32>("nonsense").unwrap_err();
    assert_eq!(push_quoted(&mut out, Err(error)), Err(JsonError::Serialization));
    assert_eq!(out, "x=\"y\"");
}

fn to_value(doc: &Json) -> serde_json::Value {
    match doc {
        Json::Bool(b) => serde_json::Value::Bool(*b),
        Json::Number(n) => serde_json::Value::from(*n),
        Json::Text(text) => serde_json::Value::String(text.clone()),
        Json::Array(items) => serde_json::Value::Array(items.iter().map(to_value).collect()),
        Json::Object(members) => {
            let mut map = serde_json::Map::new();
            for (name, value) in members {
                map.insert(name.clone(), to_value(value));
            }
            serde_json::Value::Object(map)
        }
    }
}

fn expected_literal(text: &str) -> String {
    let mut out = String::from("\"");
    for c in text.chars() {
        match c {
            '"' => out.push_str("\\\""),
            '\\' => out.push_str("\\\\"),
            '\u{8}' => out.push_str("\\b"),
            '\u{c}' => out.push_str("\\f"),
            '\n' => out.push_str("\\n"),
            '\r' => out.push_str("\\r"),
            '\t' => out.push_str("\\t"),
            c if (c as u32) < 0x20 => out.push_str(&format!("\\u00{:02x}", c as u32)),
            c => out.push(c),
        }
    }
    out.push('"');
    out
}

#[test]
fn every_character_is_escaped_as_the_serialiser_does() {
    for code in 0u32..0x3000 {
        if let Some(c) = char::from_u32(code) {
            let text = format!("a{}b", c);
            let rendered = Json::text(&text).render().unwrap();
            assert_eq!(rendered, serde_json::to_string(&text).unwrap(), "U+{:04X}", code);
            assert_eq!(rendered, expected_literal(&text), "U+{:04X}", code);
        }
    }
    for text in ["", "\u{7f}", "\u{80}", "\u{2028}\u{2029}", "\u{10ffff}", "\u{1f517}/\\\"\u{0}\u{1f}"] {
        let rendered = Json::text(text).render().unwrap();
        assert_eq!(rendered, serde_json::to_string(text).unwrap());
        assert_eq!(rendered, expected_literal(text));
    }
}

#[test]
fn escapes_exact_values() {
    assert_eq!(Json::text("\u{8}").render().unwrap(), "\"\\b\"");
    assert_eq!(Json::text("\u{c}").render().unwrap(), "\"\\f\"");
    assert_eq!(Json::text("\u{0}").render().unwrap(), "\"\\u0000\"");
    assert_eq!(Json::text("\u{b}").render().unwrap(), "\"\\u000b\"");
    assert_eq!(Json::text("\u{1f}").render().unwrap(), "\"\\u001f\"");
    assert_eq!(Json::text(" ").render().unwrap(), "\" \"");
    assert_eq!(Json::text("\u{7f}").render().unwrap(), "\"\u{7f}\"");
    assert_eq!(Json::text("/").render().unwrap(), "\"/\"");
}

#[test]
fn render_is_the_text_that_the_serialiser_writes() {
    // Members in the order of their names, in which the serialiser's own map
    // keeps them.
    let docs = vec![
        Json::Bool(true),
        Json::Number(0),
        Json::Number(u32::MAX),
        Json::text("a \"b\" \\ \n \u{1} \u{1f517}"),
        Json::array(vec![]),
        Json::object(vec![]),
        Json::array(vec![Json::array(vec![Json::Number(1)]), Json::Bool(false), Json::text("")]),
        Json::object(vec![
            Json::member("a", Json::Number(1)),
            Json::member("b", Json::array(vec![Json::Bool(true), Json::text("x\ty")])),
            Json::member(
                "c",
                Json::object(vec![
                    Json::member("d\"", Json::text("e\n")),
                    Json::member("e", Json::object(vec![])),
                ]),
            ),
        ]),
        status_document("1.0", &vec![]),
    ];
    for doc in &docs {
        let value = to_value(doc);
        let text = doc.render().unwrap();
        assert_eq!(serde_json::from_str::<serde_json::Value>(&text).unwrap(), value);
    }
    for doc in &docs[..8] {
        assert_eq!(doc.render().unwrap(), serde_json::to_string(&to_value(doc)).unwrap());
    }
}

#[test]
fn payloads_hold_what_their_documents_hold() {
    let results = [
        CheckResult::success("https://example.com/\"quoted\"\\path\n", 200, false),
        CheckResult::failure("https://example.com/test.js", CheckError::HttpError(503)),
        CheckResult::failure("https://example.com/\u{1f517}", CheckError::FetchFailed),
    ];
    for result in &results {
        for service in [
            WebhookService::Discord,
            WebhookService::Slack,
            WebhookService::Zulip,
            WebhookService::Generic,
        ] {
            let doc = service.payload_document(result, "2025-11-12T10:00:00Z");
            let payload = service.build_payload(result, "2025-11-12T10:00:00Z").unwrap();
            assert_eq!(
                serde_json::from_str::<serde_json::Value>(&payload).unwrap(),
                to_value(&doc)
            );
        }
    }
}
