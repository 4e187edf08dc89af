//! Webhook notifications: which service an endpoint belongs to, how severe a
//! problem is, and the payload that each service expects.

use crate::checker::{is_success_status, CheckError, CheckResult};
use crate::json::{
    item_values, member_values, rendered, Json, JsonError, JsonValue,
};
use crate::text::{
    contains_ignore_ascii_case, contains_ignoring_case, hex_padded,
    decimal, is_lower_hex, lemma_hex_padded_shape, push_decimal, push_hex_padded, str_eq,
};
use vstd::arithmetic::div_mod::{lemma_add_mod_noop, lemma_small_mod};
use vstd::prelude::*;
use vstd::string::StringSliceAdditionalSpecFns;
use vstd::utf8::is_ascii_chars;

verus! {

/// The services that a webhook endpoint can belong to.
#[derive(Debug, Clone, Copy, PartialEq, Eq)]
pub enum WebhookService {
    /// A Discord webhook.
    Discord,
    /// A Slack incoming webhook.
    Slack,
    /// A Zulip webhook, which takes Slack's format.
    Zulip,
    /// Any other endpoint: it gets an Alertmanager-style payload.
    Generic,
}

/// How severe a problem is, most severe first.
#[derive(Debug, Clone, Copy, PartialEq, Eq)]
pub enum Severity {
    /// The content was fetched and does not match its digest.
    Critical,
    /// The server answered with a 5xx status.
    ServerError,
    /// The server answered with a 4xx status.
    ClientError,
    /// The request did not get through.
    Network,
    /// Any other failure.
    Failure,
}

/// Why a notification could not be prepared or was not delivered.
#[derive(Debug, Clone, PartialEq, Eq)]
pub enum NotifyError {
    /// The serialiser reported an error for the payload.
    Serialization,
    /// The webhook answered with a status outside the 2xx range; holds the
    /// status and the text of the response, as far as it could be read.
    Rejected { status_code: u16, body: String },
}

/// What is to be sent for one problem: a POST of `payload` to `url`, with
/// the content type of [`content_type`].
#[derive(Debug, Clone, PartialEq, Eq)]
pub struct Notification {
    pub url: String,
    pub service: WebhookService,
    pub payload: String,
}

/// The lowercase form of a text, as the standard library defines it for
/// Unicode.
pub uninterp spec fn lowercase_of(text: Seq<char>) -> Seq<char>;

/// The ASCII lowercase form of a character: `A` to `Z` become `a` to `z`,
/// and every other character stays as it is.
pub open spec fn ascii_lowercase_char(c: char) -> char {
    if 'A' <= c && c <= 'Z' {
        seq![
            'a', 'b', 'c', 'd', 'e', 'f', 'g', 'h', 'i', 'j', 'k', 'l', 'm',
            'n', 'o', 'p', 'q', 'r', 's', 't', 'u', 'v', 'w', 'x', 'y', 'z',
        ][(c as u32 - 65) as int]
    } else {
        c
    }
}

/// The ASCII lowercase form of a text, character by character.
pub open spec fn ascii_lowercase(text: Seq<char>) -> Seq<char> {
    Seq::new(text.len(), |i: int| ascii_lowercase_char(text[i]))
}

/// The lowercase form of a text. For a text of ASCII characters alone it is
/// the ASCII lowercase form; for any other text it is what Unicode defines.
pub open spec fn lowercase(text: Seq<char>) -> Seq<char> {
    if is_ascii_chars(text) {
        ascii_lowercase(text)
    } else {
        lowercase_of(text)
    }
}

/// Calls `str::to_lowercase` of the standard library. Trusted: the string
/// returned is `lowercase_of` the text, and for a text of ASCII characters
/// alone that is its ASCII lowercase form, since Unicode maps `A` to `Z` to
/// `a` to `z` and no other ASCII character to anything but itself.
#[verifier::external_body]
fn to_lowercase(text: &str) -> (lower: String)
    ensures
        lower@ == lowercase_of(text@),
        is_ascii_chars(text@) ==> lower@ == ascii_lowercase(text@),
{
    text.to_lowercase()
}

/// The severity of an outcome. A digest mismatch is critical whatever else
/// the outcome holds; otherwise the failure reason decides.
pub open spec fn severity_of(result: CheckResult) -> Severity {
    if result.sri_valid == Some(false) {
        Severity::Critical
    } else {
        match result.error {
            Some(CheckError::HttpError(code)) => if 500 <= code < 600 {
                Severity::ServerError
            } else if 400 <= code < 500 {
                Severity::ClientError
            } else {
                Severity::Failure
            },
            Some(CheckError::FetchFailed) => Severity::Network,
            _ => Severity::Failure,
        }
    }
}

/// The service that a webhook URL points to, by the domains and paths that
/// occur in it, in whatever case they are written. Discord is looked for
/// first, then Slack, then Zulip.
pub open spec fn classify(url: Seq<u8>) -> WebhookService {
    if contains_ignoring_case(url, "discord.com".spec_bytes()) || contains_ignoring_case(
        url,
        "discordapp.com".spec_bytes(),
    ) {
        WebhookService::Discord
    } else if contains_ignoring_case(url, "hooks.slack.com".spec_bytes())
        || contains_ignoring_case(url, "slack.com/api/".spec_bytes()) {
        WebhookService::Slack
    } else if contains_ignoring_case(url, "zulipchat.com".spec_bytes())
        || contains_ignoring_case(url, "/external/slack_incoming".spec_bytes()) {
        WebhookService::Zulip
    } else {
        WebhookService::Generic
    }
}

/// The service that a lowercase name stands for.
pub open spec fn service_named(name: Seq<char>) -> Option<WebhookService> {
    if name == "discord"@ {
        Some(WebhookService::Discord)
    } else if name == "slack"@ {
        Some(WebhookService::Slack)
    } else if name == "zulip"@ {
        Some(WebhookService::Zulip)
    } else if name == "generic"@ {
        Some(WebhookService::Generic)
    } else {
        None
    }
}

/// The service to notify: the one that the override names, if there is an
/// override and its lowercase form is a service name; otherwise the one that
/// the URL points to.
pub open spec fn resolved_service(service_override: Option<Seq<char>>, url: Seq<u8>) -> WebhookService {
    match service_override {
        Some(name) => match service_named(lowercase(name)) {
            Some(service) => service,
            None => classify(url),
        },
        None => classify(url),
    }
}

/// The 64-bit rolling hash of a byte sequence: starting from 0, each byte
/// multiplies the hash by 31 and is added to it, modulo 2^64.
pub open spec fn rolling_hash(bytes: Seq<u8>) -> nat
    decreases bytes.len(),
{
    if bytes.len() == 0 {
        0
    } else {
        ((rolling_hash(bytes.drop_last()) * 31 + bytes.last()) % 0x1_0000_0000_0000_0000) as nat
    }
}

/// The fingerprint of a URL: its rolling hash as 16 lowercase hexadecimal
/// digits.
pub open spec fn fingerprint_of(url: Seq<u8>) -> Seq<char> {
    hex_padded(rolling_hash(url), 16)
}

/// A fingerprint is 16 characters long, each a lowercase hexadecimal digit.
pub proof fn lemma_fingerprint_shape(url: Seq<u8>)
    ensures
        fingerprint_of(url).len() == 16,
        forall|i: int| 0 <= i < 16 ==> is_lower_hex(#[trigger] fingerprint_of(url)[i]),
{
    lemma_hex_padded_shape(rolling_hash(url), 16);
}

/// A URL that names a Discord domain is a Discord webhook, whatever else
/// occurs in it; one that names a Slack domain and no Discord domain is a
/// Slack webhook; one that names the Zulip domain or holds the path of
/// Zulip's Slack-compatible hook, in whatever case, and names neither a
/// Discord nor a Slack domain is a Zulip webhook.
pub proof fn lemma_classify_precedence(url: Seq<u8>)
    ensures
        contains_ignoring_case(url, "discord.com".spec_bytes()) ==> classify(url)
            == WebhookService::Discord,
        contains_ignoring_case(url, "discordapp.com".spec_bytes()) ==> classify(url)
            == WebhookService::Discord,
        classify(url) != WebhookService::Discord && contains_ignoring_case(
            url,
            "hooks.slack.com".spec_bytes(),
        ) ==> classify(url) == WebhookService::Slack,
        classify(url) != WebhookService::Discord && contains_ignoring_case(
            url,
            "slack.com/api/".spec_bytes(),
        ) ==> classify(url) == WebhookService::Slack,
        classify(url) != WebhookService::Discord && classify(url) != WebhookService::Slack
            && contains_ignoring_case(url, "zulipchat.com".spec_bytes()) ==> classify(url)
            == WebhookService::Zulip,
        classify(url) != WebhookService::Discord && classify(url) != WebhookService::Slack
            && contains_ignoring_case(url, "/external/slack_incoming".spec_bytes())
            ==> classify(url) == WebhookService::Zulip,
{
}

/// An override whose lowercase form names a service decides the service,
/// whatever the URL.
pub proof fn lemma_override_decides(name: Seq<char>, url: Seq<u8>)
    requires
        service_named(lowercase(name)) is Some,
    ensures
        Some(resolved_service(Some(name), url)) == service_named(lowercase(name)),
{
}

/// The four service names name their services, and so do the names as
/// `to_string` writes them, with a capital; as an override each of them
/// decides the service, whatever the URL.
pub proof fn lemma_service_names(service: WebhookService, url: Seq<u8>)
    ensures
        service_named(lowercase(service.lowercase_name_of())) == Some(service),
        service_named(lowercase(service.name_of())) == Some(service),
        resolved_service(Some(service.lowercase_name_of()), url) == service,
        resolved_service(Some(service.name_of()), url) == service,
{
    reveal_strlit("discord");
    reveal_strlit("slack");
    reveal_strlit("zulip");
    reveal_strlit("generic");
    reveal_strlit("Discord");
    reveal_strlit("Slack");
    reveal_strlit("Zulip");
    reveal_strlit("Generic");
    let lower = service.lowercase_name_of();
    let capital = service.name_of();
    assert(is_ascii_chars(lower));
    assert(is_ascii_chars(capital));
    assert(ascii_lowercase(lower) =~= lower);
    assert(ascii_lowercase(capital) =~= lower);
    assert("discord"@.len() == 7 && "slack"@.len() == 5 && "zulip"@.len() == 5
        && "generic"@.len() == 7);
    assert("discord"@[0] == 'd' && "generic"@[0] == 'g');
    assert("slack"@[0] == 's' && "zulip"@[0] == 'z');
}

/// A digest mismatch is critical, whatever status or error the outcome holds.
pub proof fn lemma_mismatch_is_critical(result: CheckResult)
    requires
        result.sri_valid == Some(false),
    ensures
        severity_of(result) == Severity::Critical,
{
}

impl Severity {
    /// The colour that marks the severity in a Discord embed.
    pub open spec fn color_of(self) -> u32 {
        match self {
            Severity::Critical => 10038562,
            Severity::ServerError => 15548997,
            Severity::ClientError => 15105570,
            Severity::Network => 15158332,
            Severity::Failure => 15548997,
        }
    }

    /// The severity label of an Alertmanager alert: `critical` for a digest
    /// mismatch, `warning` for every failure.
    pub open spec fn label_of(self) -> Seq<char> {
        match self {
            Severity::Critical => "critical"@,
            _ => "warning"@,
        }
    }

    /// The severity of an outcome.
    pub fn of(result: &CheckResult) -> (severity: Severity)
        ensures
            severity == severity_of(*result),
    {
        if result.is_mismatch() {
            return Severity::Critical;
        }
        match result.error {
            Some(CheckError::HttpError(code)) => {
                if 500 <= code && code < 600 {
                    Severity::ServerError
                } else if 400 <= code && code < 500 {
                    Severity::ClientError
                } else {
                    Severity::Failure
                }
            },
            Some(CheckError::FetchFailed) => Severity::Network,
            _ => Severity::Failure,
        }
    }

    /// The colour that marks the severity in a Discord embed.
    pub fn color(&self) -> (color: u32)
        ensures
            color == self.color_of(),
    {
        match self {
            Severity::Critical => 10038562,
            Severity::ServerError => 15548997,
            Severity::ClientError => 15105570,
            Severity::Network => 15158332,
            Severity::Failure => 15548997,
        }
    }

    /// The severity label of an Alertmanager alert.
    pub fn label(&self) -> (label: &'static str)
        ensures
            label@ == self.label_of(),
    {
        match self {
            Severity::Critical => "critical",
            _ => "warning",
        }
    }
}

impl WebhookService {
    /// The name of the service in lower case, as an override names it.
    pub open spec fn lowercase_name_of(self) -> Seq<char> {
        match self {
            WebhookService::Discord => "discord"@,
            WebhookService::Slack => "slack"@,
            WebhookService::Zulip => "zulip"@,
            WebhookService::Generic => "generic"@,
        }
    }

    /// The name of the service.
    pub open spec fn name_of(self) -> Seq<char> {
        match self {
            WebhookService::Discord => "Discord"@,
            WebhookService::Slack => "Slack"@,
            WebhookService::Zulip => "Zulip"@,
            WebhookService::Generic => "Generic"@,
        }
    }

    /// Detects the service from a webhook URL.
    pub fn from_url(url: &str) -> (service: WebhookService)
        ensures
            service == classify(url.spec_bytes()),
    {
        let bytes = url.as_bytes();
        if contains_ignore_ascii_case(bytes, "discord.com".as_bytes())
            || contains_ignore_ascii_case(bytes, "discordapp.com".as_bytes()) {
            WebhookService::Discord
        } else if contains_ignore_ascii_case(bytes, "hooks.slack.com".as_bytes())
            || contains_ignore_ascii_case(bytes, "slack.com/api/".as_bytes()) {
            WebhookService::Slack
        } else if contains_ignore_ascii_case(bytes, "zulipchat.com".as_bytes())
            || contains_ignore_ascii_case(bytes, "/external/slack_incoming".as_bytes()) {
            WebhookService::Zulip
        } else {
            WebhookService::Generic
        }
    }

    /// The service that a name in lower case stands for.
    pub fn from_lowercase_name(name: &str) -> (service: Option<WebhookService>)
        ensures
            service == service_named(name@),
    {
        if str_eq(name, "discord") {
            Some(WebhookService::Discord)
        } else if str_eq(name, "slack") {
            Some(WebhookService::Slack)
        } else if str_eq(name, "zulip") {
            Some(WebhookService::Zulip)
        } else if str_eq(name, "generic") {
            Some(WebhookService::Generic)
        } else {
            None
        }
    }

    /// The service that a name stands for, in whatever case it is written.
    pub fn from_str(s: &str) -> (service: Result<WebhookService, ()>)
        ensures
            match service {
                Ok(found) => service_named(lowercase(s@)) == Some(found),
                Err(_) => service_named(lowercase(s@)) is None,
            },
    {
        let lower = to_lowercase(s);
        assert(lower@ == lowercase(s@));
        match WebhookService::from_lowercase_name(lower.as_str()) {
            Some(found) => Ok(found),
            None => Err(()),
        }
    }

    /// The name of the service.
    pub fn to_string(&self) -> (name: String)
        ensures
            name@ == self.name_of(),
    {
        match self {
            WebhookService::Discord => String::from_str("Discord"),
            WebhookService::Slack => String::from_str("Slack"),
            WebhookService::Zulip => String::from_str("Zulip"),
            WebhookService::Generic => String::from_str("Generic"),
        }
    }

    /// The Discord colour for an outcome, by its severity.
    pub fn severity_color(result: &CheckResult) -> (color: u32)
        ensures
            color == severity_of(*result).color_of(),
    {
        Severity::of(result).color()
    }

    /// The fingerprint of a URL, by which alerts for one resource are
    /// grouped: a function of the URL's bytes alone, 16 lowercase
    /// hexadecimal digits long.
    pub fn compute_fingerprint(url: &str) -> (fingerprint: String)
        ensures
            fingerprint@ == fingerprint_of(url.spec_bytes()),
            fingerprint@.len() == 16,
            forall|i: int| 0 <= i < 16 ==> is_lower_hex(#[trigger] fingerprint@[i]),
    {
        let bytes = url.as_bytes();
        let mut hash: u64 = 0;
        let mut i: usize = 0;
        while i < bytes.len()
            invariant
                i <= bytes@.len(),
                hash == rolling_hash(bytes@.take(i as int)),
            decreases bytes@.len() - i,
        {
            let byte = bytes[i];
            let ghost before = hash;
            hash = hash.wrapping_mul(31).wrapping_add(byte as u64);
            proof {
                let prefix = bytes@.take(i + 1);
                assert(prefix.drop_last() =~= bytes@.take(i as int));
                assert(prefix.last() == byte);
                let range: int = 0x1_0000_0000_0000_0000;
                lemma_add_mod_noop(before * 31, byte as int, range);
                lemma_small_mod(byte as nat, range as nat);
            }
            i += 1;
        }
        assert(bytes@.take(i as int) =~= bytes@);
        let mut fingerprint = String::new();
        push_hex_padded(&mut fingerprint, hash, 16);
        assert(fingerprint@ =~= fingerprint_of(url.spec_bytes()));
        proof {
            lemma_fingerprint_shape(url.spec_bytes());
        }
        fingerprint
    }
}

/// Picks the service to notify: an override that names a service decides;
/// without one, or with one that names none, the URL decides.
pub fn detect_webhook_service(service_override: Option<&str>, webhook_url: &str) -> (service:
    WebhookService)
    ensures
        service == resolved_service(
            match service_override {
                Some(name) => Some(name@),
                None => None,
            },
            webhook_url.spec_bytes(),
        ),
{
    if let Some(name) = service_override {
        if let Ok(service) = WebhookService::from_str(name) {
            return service;
        }
    }
    WebhookService::from_url(webhook_url)
}

/// The title of every alert.
pub open spec fn alert_title() -> Seq<char> {
    "\u{1f517} Link Check Failed"@
}

/// The one field of a Discord embed: the status, shown inline.
pub open spec fn discord_field_value(result: CheckResult) -> JsonValue {
    JsonValue::Object(
        seq![
            ("name"@, JsonValue::Text("Status"@)),
            ("value"@, JsonValue::Text(result.description_text())),
            ("inline"@, JsonValue::Bool(true)),
        ],
    )
}

/// A Discord embed: coloured by severity, with the URL in bold as its
/// description.
pub open spec fn discord_embed_value(result: CheckResult, timestamp: Seq<char>) -> JsonValue {
    JsonValue::Object(
        seq![
            ("title"@, JsonValue::Text(alert_title())),
            ("description"@, JsonValue::Text("**"@ + result.url@ + "**"@)),
            ("color"@, JsonValue::Number(severity_of(result).color_of() as nat)),
            ("fields"@, JsonValue::Array(seq![discord_field_value(result)])),
            ("timestamp"@, JsonValue::Text(timestamp)),
        ],
    )
}

/// A Discord payload: one embed.
pub open spec fn discord_value(result: CheckResult, timestamp: Seq<char>) -> JsonValue {
    JsonValue::Object(
        seq![("embeds"@, JsonValue::Array(seq![discord_embed_value(result, timestamp)]))],
    )
}

/// A Slack text object of the given kind.
pub open spec fn slack_text_value(kind: Seq<char>, text: Seq<char>) -> JsonValue {
    JsonValue::Object(seq![("type"@, JsonValue::Text(kind)), ("text"@, JsonValue::Text(text))])
}

/// The header block of a Slack payload.
pub open spec fn slack_header_value() -> JsonValue {
    JsonValue::Object(
        seq![
            ("type"@, JsonValue::Text("header"@)),
            ("text"@, slack_text_value("plain_text"@, alert_title())),
        ],
    )
}

/// A divider block of a Slack payload.
pub open spec fn slack_divider_value() -> JsonValue {
    JsonValue::Object(seq![("type"@, JsonValue::Text("divider"@))])
}

/// The section block of a Slack payload: the URL and the status, side by side.
pub open spec fn slack_section_value(result: CheckResult) -> JsonValue {
    JsonValue::Object(
        seq![
            ("type"@, JsonValue::Text("section"@)),
            (
                "fields"@,
                JsonValue::Array(
                    seq![
                        slack_text_value("mrkdwn"@, "*URL:*\n"@ + result.url@),
                        slack_text_value("mrkdwn"@, "*Status:*\n"@ + result.description_text()),
                    ],
                ),
            ),
        ],
    )
}

/// The context block of a Slack payload: the time and the sender.
pub open spec fn slack_context_value(timestamp: Seq<char>) -> JsonValue {
    JsonValue::Object(
        seq![
            ("type"@, JsonValue::Text("context"@)),
            (
                "elements"@,
                JsonValue::Array(
                    seq![
                        slack_text_value(
                            "mrkdwn"@,
                            "Time: "@ + timestamp + " | Worker: linkkivahti"@,
                        ),
                    ],
                ),
            ),
        ],
    )
}

/// A Slack payload: a fallback text, then header, divider, section, divider
/// and context blocks.
pub open spec fn slack_value(result: CheckResult, timestamp: Seq<char>) -> JsonValue {
    JsonValue::Object(
        seq![
            (
                "text"@,
                JsonValue::Text(
                    "Link Check Failed: "@ + result.url@ + " - "@ + result.description_text(),
                ),
            ),
            (
                "blocks"@,
                JsonValue::Array(
                    seq![
                        slack_header_value(),
                        slack_divider_value(),
                        slack_section_value(result),
                        slack_divider_value(),
                        slack_context_value(timestamp),
                    ],
                ),
            ),
        ],
    )
}

/// The labels by which Alertmanager groups alerts: the alert name alone.
pub open spec fn group_labels_value() -> JsonValue {
    JsonValue::Object(seq![("alertname"@, JsonValue::Text("LinkCheckFailed"@))])
}

/// The labels that all alerts of a payload share.
pub open spec fn common_labels_value(severity: Severity) -> JsonValue {
    JsonValue::Object(
        seq![
            ("alertname"@, JsonValue::Text("LinkCheckFailed"@)),
            ("severity"@, JsonValue::Text(severity.label_of())),
            ("service"@, JsonValue::Text("linkkivahti"@)),
        ],
    )
}

/// The labels of the alert for one resource.
pub open spec fn alert_labels_value(severity: Severity, url: Seq<char>) -> JsonValue {
    JsonValue::Object(
        seq![
            ("alertname"@, JsonValue::Text("LinkCheckFailed"@)),
            ("severity"@, JsonValue::Text(severity.label_of())),
            ("service"@, JsonValue::Text("linkkivahti"@)),
            ("instance"@, JsonValue::Text(url)),
            ("job"@, JsonValue::Text("link-checker"@)),
        ],
    )
}

/// Alertmanager annotations: a summary and a description.
pub open spec fn annotations_value(summary: Seq<char>, description: Seq<char>) -> JsonValue {
    JsonValue::Object(
        seq![
            ("summary"@, JsonValue::Text(summary)),
            ("description"@, JsonValue::Text(description)),
        ],
    )
}

/// The alert for one resource. The end time is the zero time, which marks
/// the alert as going on.
pub open spec fn alert_value(result: CheckResult, timestamp: Seq<char>) -> JsonValue {
    JsonValue::Object(
        seq![
            ("status"@, JsonValue::Text("firing"@)),
            ("labels"@, alert_labels_value(severity_of(result), result.url@)),
            (
                "annotations"@,
                annotations_value(
                    "Link check failed for "@ + result.url@,
                    result.description_text(),
                ),
            ),
            ("startsAt"@, JsonValue::Text(timestamp)),
            ("endsAt"@, JsonValue::Text("0001-01-01T00:00:00Z"@)),
            ("generatorURL"@, JsonValue::Text("https://linkkivahti.workers.dev/"@)),
            ("fingerprint"@, JsonValue::Text(fingerprint_of(result.url.spec_bytes()))),
        ],
    )
}

/// An Alertmanager payload: the envelope of version 4 with one firing alert,
/// grouped under the fingerprint of the URL.
pub open spec fn generic_value(result: CheckResult, timestamp: Seq<char>) -> JsonValue {
    JsonValue::Object(
        seq![
            ("version"@, JsonValue::Text("4"@)),
            (
                "groupKey"@,
                JsonValue::Text("linkkivahti/"@ + fingerprint_of(result.url.spec_bytes())),
            ),
            ("truncatedAlerts"@, JsonValue::Number(0)),
            ("status"@, JsonValue::Text("firing"@)),
            ("receiver"@, JsonValue::Text("webhook"@)),
            ("groupLabels"@, group_labels_value()),
            ("commonLabels"@, common_labels_value(severity_of(result))),
            (
                "commonAnnotations"@,
                annotations_value(
                    "Link availability check failed"@,
                    "External resource check detected a failure"@,
                ),
            ),
            ("externalURL"@, JsonValue::Text("https://linkkivahti.workers.dev"@)),
            ("alerts"@, JsonValue::Array(seq![alert_value(result, timestamp)])),
        ],
    )
}

/// The payload that a service expects for an outcome. Zulip takes Slack's.
pub open spec fn payload_value(
    service: WebhookService,
    result: CheckResult,
    timestamp: Seq<char>,
) -> JsonValue {
    match service {
        WebhookService::Discord => discord_value(result, timestamp),
        WebhookService::Slack => slack_value(result, timestamp),
        WebhookService::Zulip => slack_value(result, timestamp),
        WebhookService::Generic => generic_value(result, timestamp),
    }
}

/// The text `first` followed by `second`.
fn joined(first: &str, second: &str) -> (text: String)
    ensures
        text@ == first@ + second@,
{
    let mut text = String::from_str(first);
    text.append(second);
    text
}

/// A Slack text object of the given kind.
fn slack_text(kind: &str, text: String) -> (doc: Json)
    ensures
        doc@ == slack_text_value(kind@, text@),
{
    let mut members: Vec<(String, Json)> = Vec::new();
    members.push(Json::member("type", Json::text(kind)));
    members.push(Json::member("text", Json::Text(text)));
    assert(member_values(members@) =~= slack_text_value(kind@, text@)->Object_0);
    Json::object(members)
}

/// A block of a Slack payload: its type, and one more member if it has one.
fn slack_block(kind: &str, content: Option<(&str, Json)>) -> (doc: Json)
    ensures
        doc@ == JsonValue::Object(
            match content {
                Some((name, value)) => seq![
                    ("type"@, JsonValue::Text(kind@)),
                    (name@, value@),
                ],
                None => seq![("type"@, JsonValue::Text(kind@))],
            },
        ),
{
    let mut members: Vec<(String, Json)> = Vec::new();
    members.push(Json::member("type", Json::text(kind)));
    match content {
        Some((name, value)) => {
            members.push(Json::member(name, value));
            assert(member_values(members@) =~= seq![
                ("type"@, JsonValue::Text(kind@)),
                (name@, value@),
            ]);
        },
        None => {
            assert(member_values(members@) =~= seq![("type"@, JsonValue::Text(kind@))]);
        },
    }
    Json::object(members)
}

/// Alertmanager labels: the alert name, then severity and service if a
/// severity is given, then instance and job if an instance is given.
fn labels(severity: Option<Severity>, instance: Option<&str>) -> (doc: Json)
    ensures
        severity is None && instance is None ==> doc@ == group_labels_value(),
        severity is Some && instance is None ==> doc@ == common_labels_value(severity->0),
        severity is Some && instance is Some ==> doc@ == alert_labels_value(
            severity->0,
            instance->0@,
        ),
{
    let mut members: Vec<(String, Json)> = Vec::new();
    members.push(Json::member("alertname", Json::text("LinkCheckFailed")));
    if let Some(level) = severity {
        members.push(Json::member("severity", Json::text(level.label())));
        members.push(Json::member("service", Json::text("linkkivahti")));
        if let Some(url) = instance {
            members.push(Json::member("instance", Json::text(url)));
            members.push(Json::member("job", Json::text("link-checker")));
            assert(member_values(members@) =~= alert_labels_value(level, url@)->Object_0);
        } else {
            assert(member_values(members@) =~= common_labels_value(level)->Object_0);
        }
    } else {
        assert(member_values(members@) =~= group_labels_value()->Object_0);
    }
    Json::object(members)
}

/// Alertmanager annotations: a summary and a description.
fn annotations(summary: String, description: String) -> (doc: Json)
    ensures
        doc@ == annotations_value(summary@, description@),
{
    let mut members: Vec<(String, Json)> = Vec::new();
    members.push(Json::member("summary", Json::Text(summary)));
    members.push(Json::member("description", Json::Text(description)));
    assert(member_values(members@) =~= annotations_value(summary@, description@)->Object_0);
    Json::object(members)
}

/// An array of one item.
fn single(item: Json) -> (doc: Json)
    ensures
        doc@ == JsonValue::Array(seq![item@]),
{
    let mut items: Vec<Json> = Vec::new();
    items.push(item);
    assert(item_values(items@) =~= seq![item@]);
    Json::array(items)
}

/// The text of a rendered document.
fn payload_text(doc: &Json) -> (payload: Result<String, NotifyError>)
    ensures
        payload is Ok,
        payload matches Ok(text) ==> text@ == rendered(doc@),
{
    match doc.render() {
        Ok(text) => Ok(text),
        Err(JsonError::Serialization) => Err(NotifyError::Serialization),
    }
}

impl WebhookService {
    /// The Discord payload for an outcome, as a document.
    pub fn discord_document(result: &CheckResult, timestamp: &str) -> (doc: Json)
        ensures
            doc@ == discord_value(*result, timestamp@),
    {
        let mut description = joined("**", result.url);
        description.append("**");

        let mut field: Vec<(String, Json)> = Vec::new();
        field.push(Json::member("name", Json::text("Status")));
        field.push(Json::member("value", Json::Text(result.description())));
        field.push(Json::member("inline", Json::Bool(true)));
        assert(member_values(field@) =~= discord_field_value(*result)->Object_0);

        let mut embed: Vec<(String, Json)> = Vec::new();
        embed.push(Json::member("title", Json::text("\u{1f517} Link Check Failed")));
        embed.push(Json::member("description", Json::Text(description)));
        embed.push(Json::member("color", Json::Number(WebhookService::severity_color(result))));
        embed.push(Json::member("fields", single(Json::object(field))));
        embed.push(Json::member("timestamp", Json::text(timestamp)));
        assert(member_values(embed@) =~= discord_embed_value(*result, timestamp@)->Object_0);

        let mut payload: Vec<(String, Json)> = Vec::new();
        payload.push(Json::member("embeds", single(Json::object(embed))));
        assert(member_values(payload@) =~= discord_value(*result, timestamp@)->Object_0);
        Json::object(payload)
    }

    /// The Slack payload for an outcome, as a document. Zulip takes the same.
    pub fn slack_document(result: &CheckResult, timestamp: &str) -> (doc: Json)
        ensures
            doc@ == slack_value(*result, timestamp@),
    {
        let status = result.description();
        let mut fallback = joined("Link Check Failed: ", result.url);
        fallback.append(" - ");
        fallback.append(status.as_str());
        let mut time = joined("Time: ", timestamp);
        time.append(" | Worker: linkkivahti");

        let header = slack_block(
            "header",
            Some(("text", slack_text("plain_text", String::from_str("\u{1f517} Link Check Failed")))),
        );
        assert(header@ == slack_header_value());

        let mut fields: Vec<Json> = Vec::new();
        fields.push(slack_text("mrkdwn", joined("*URL:*\n", result.url)));
        fields.push(slack_text("mrkdwn", joined("*Status:*\n", status.as_str())));
        assert(item_values(fields@) =~= slack_section_value(*result)->Object_0[1].1->Array_0);
        let section = slack_block("section", Some(("fields", Json::array(fields))));
        assert(section@ == slack_section_value(*result));

        let context = slack_block("context", Some(("elements", single(slack_text("mrkdwn", time)))));
        assert(context@ == slack_context_value(timestamp@));

        let mut blocks: Vec<Json> = Vec::new();
        blocks.push(header);
        blocks.push(slack_block("divider", None));
        blocks.push(section);
        blocks.push(slack_block("divider", None));
        blocks.push(context);
        assert(item_values(blocks@) =~= slack_value(*result, timestamp@)->Object_0[1].1->Array_0);

        let mut payload: Vec<(String, Json)> = Vec::new();
        payload.push(Json::member("text", Json::Text(fallback)));
        payload.push(Json::member("blocks", Json::array(blocks)));
        assert(member_values(payload@) =~= slack_value(*result, timestamp@)->Object_0);
        Json::object(payload)
    }

    /// The Alertmanager payload for an outcome, as a document.
    pub fn generic_document(result: &CheckResult, timestamp: &str) -> (doc: Json)
        ensures
            doc@ == generic_value(*result, timestamp@),
    {
        let severity = Severity::of(result);
        let fingerprint = WebhookService::compute_fingerprint(result.url);
        let group_key = joined("linkkivahti/", fingerprint.as_str());

        let mut alert: Vec<(String, Json)> = Vec::new();
        alert.push(Json::member("status", Json::text("firing")));
        alert.push(Json::member("labels", labels(Some(severity), Some(result.url))));
        alert.push(
            Json::member(
                "annotations",
                annotations(joined("Link check failed for ", result.url), result.description()),
            ),
        );
        alert.push(Json::member("startsAt", Json::text(timestamp)));
        alert.push(Json::member("endsAt", Json::text("0001-01-01T00:00:00Z")));
        alert.push(Json::member("generatorURL", Json::text("https://linkkivahti.workers.dev/")));
        alert.push(Json::member("fingerprint", Json::Text(fingerprint)));
        assert(member_values(alert@) =~= alert_value(*result, timestamp@)->Object_0);

        let mut payload: Vec<(String, Json)> = Vec::new();
        payload.push(Json::member("version", Json::text("4")));
        payload.push(Json::member("groupKey", Json::Text(group_key)));
        payload.push(Json::member("truncatedAlerts", Json::Number(0)));
        payload.push(Json::member("status", Json::text("firing")));
        payload.push(Json::member("receiver", Json::text("webhook")));
        payload.push(Json::member("groupLabels", labels(None, None)));
        payload.push(Json::member("commonLabels", labels(Some(severity), None)));
        payload.push(
            Json::member(
                "commonAnnotations",
                annotations(
                    String::from_str("Link availability check failed"),
                    String::from_str("External resource check detected a failure"),
                ),
            ),
        );
        payload.push(Json::member("externalURL", Json::text("https://linkkivahti.workers.dev")));
        payload.push(Json::member("alerts", single(Json::object(alert))));
        assert(member_values(payload@) =~= generic_value(*result, timestamp@)->Object_0);
        Json::object(payload)
    }

    /// The payload that the service expects for an outcome, as a document.
    pub fn payload_document(&self, result: &CheckResult, timestamp: &str) -> (doc: Json)
        ensures
            doc@ == payload_value(*self, *result, timestamp@),
    {
        match self {
            WebhookService::Discord => WebhookService::discord_document(result, timestamp),
            WebhookService::Slack => WebhookService::slack_document(result, timestamp),
            WebhookService::Zulip => WebhookService::slack_document(result, timestamp),
            WebhookService::Generic => WebhookService::generic_document(result, timestamp),
        }
    }

    /// The Discord payload for an outcome, as JSON text.
    pub fn build_discord_payload(result: &CheckResult, timestamp: &str) -> (payload: Result<
        String,
        NotifyError,
    >)
        ensures
            payload is Ok,
            payload matches Ok(text) ==> text@ == rendered(discord_value(*result, timestamp@)),
    {
        payload_text(&WebhookService::discord_document(result, timestamp))
    }

    /// The Slack payload for an outcome, as JSON text.
    pub fn build_slack_payload(result: &CheckResult, timestamp: &str) -> (payload: Result<
        String,
        NotifyError,
    >)
        ensures
            payload is Ok,
            payload matches Ok(text) ==> text@ == rendered(slack_value(*result, timestamp@)),
    {
        payload_text(&WebhookService::slack_document(result, timestamp))
    }

    /// The Alertmanager payload for an outcome, as JSON text.
    pub fn build_generic_payload(result: &CheckResult, timestamp: &str) -> (payload: Result<
        String,
        NotifyError,
    >)
        ensures
            payload is Ok,
            payload matches Ok(text) ==> text@ == rendered(generic_value(*result, timestamp@)),
    {
        payload_text(&WebhookService::generic_document(result, timestamp))
    }

    /// The payload that the service expects for an outcome, as JSON text.
    pub fn build_payload(&self, result: &CheckResult, timestamp: &str) -> (payload: Result<
        String,
        NotifyError,
    >)
        ensures
            payload is Ok,
            payload matches Ok(text) ==> text@ == rendered(payload_value(*self, *result, timestamp@)),
    {
        match self {
            WebhookService::Discord => WebhookService::build_discord_payload(result, timestamp),
            WebhookService::Slack => WebhookService::build_slack_payload(result, timestamp),
            WebhookService::Zulip => WebhookService::build_slack_payload(result, timestamp),
            WebhookService::Generic => WebhookService::build_generic_payload(result, timestamp),
        }
    }
}

/// What is put in place of a response text that could not be read.
pub open spec fn unreadable_body() -> Seq<char> {
    "<unable to read response>"@
}

/// Whether a webhook URL is configured: it is there and not empty.
pub open spec fn is_configured(webhook_url: Option<&str>) -> bool {
    webhook_url matches Some(url) && url@.len() > 0
}

/// The text of an optional string.
pub open spec fn optional_text(text: Option<&str>) -> Option<Seq<char>> {
    match text {
        Some(t) => Some(t@),
        None => None,
    }
}

impl NotifyError {
    /// The text that `description` returns.
    pub open spec fn description_text(self) -> Seq<char> {
        match self {
            NotifyError::Serialization => "Failed to serialize payload"@,
            NotifyError::Rejected { status_code, body } => "Webhook returned HTTP "@ + decimal(
                status_code as nat,
            ) + ": "@ + body@,
        }
    }

    /// A human-readable description of the error.
    pub fn description(&self) -> (text: String)
        ensures
            text@ == self.description_text(),
    {
        match self {
            NotifyError::Serialization => String::from_str("Failed to serialize payload"),
            NotifyError::Rejected { status_code, body } => {
                let mut text = String::from_str("Webhook returned HTTP ");
                push_decimal(&mut text, *status_code as u32);
                text.append(": ");
                text.append(body.as_str());
                text
            },
        }
    }
}

/// The content type of every notification.
pub fn content_type() -> (value: &'static str)
    ensures
        value@ == "application/json"@,
{
    "application/json"
}

/// Prepares the notification for one outcome. Without a webhook URL, or with
/// an empty one, there is nothing to send. Otherwise the service is resolved
/// from the override and the URL, and the payload is built for it.
pub fn prepare_notification(
    webhook_url: Option<&str>,
    service_override: Option<&str>,
    result: &CheckResult,
    timestamp: &str,
) -> (prepared: Result<Option<Notification>, NotifyError>)
    ensures
        !is_configured(webhook_url) ==> prepared == Ok::<_, NotifyError>(None::<Notification>),
        is_configured(webhook_url) ==> prepared matches Ok(Some(_)),
        prepared matches Ok(Some(notification)) ==> {
            &&& notification.url@ == webhook_url->0@
            &&& notification.service == resolved_service(
                optional_text(service_override),
                webhook_url->0.spec_bytes(),
            )
            &&& notification.payload@ == rendered(
                payload_value(notification.service, *result, timestamp@),
            )
        },
{
    let url = match webhook_url {
        Some(url) => url,
        None => {
            return Ok(None);
        },
    };
    if url.is_empty() {
        return Ok(None);
    }
    let service = detect_webhook_service(service_override, url);
    match service.build_payload(result, timestamp) {
        Ok(payload) => Ok(Some(Notification { url: String::from_str(url), service, payload })),
        Err(error) => Err(error),
    }
}

/// Whether a webhook accepted a notification: its status is in the 2xx range.
pub fn response_accepted(status_code: u16) -> (accepted: bool)
    ensures
        accepted == is_success_status(status_code),
{
    200 <= status_code && status_code < 300
}

/// The error for a notification that the webhook answered with
/// `status_code`, and with `body` if the response text could be read.
pub fn rejection(status_code: u16, body: Option<String>) -> (error: NotifyError)
    ensures
        error matches NotifyError::Rejected { status_code: code, body: text } && code
            == status_code && text@ == match body {
            Some(b) => b@,
            None => unreadable_body(),
        },
{
    match body {
        Some(text) => NotifyError::Rejected { status_code, body: text },
        None => NotifyError::Rejected {
            status_code,
            body: String::from_str("<unable to read response>"),
        },
    }
}

} // verus!
