//! The HTTP surface: routing of requests, authorisation of the
//! administrative endpoints, and the status document.

use crate::config::Resource;
use crate::json::{item_values, member_values, Json, JsonValue};
use crate::text::str_eq;
use vstd::prelude::*;

verus! {

/// The method of a request, as far as routing tells methods apart.
#[derive(Debug, Clone, Copy, PartialEq, Eq)]
pub enum Method {
    Get,
    Post,
    Other,
}

/// What a request asks for.
#[derive(Debug, Clone, Copy, PartialEq, Eq)]
pub enum Route {
    /// `GET /`: health and configuration.
    Status,
    /// `POST /check`: run a check cycle now. Needs authorisation.
    Check,
    /// `POST /notify`: send a test notification. Needs authorisation.
    Notify,
    /// Anything else.
    NotFound,
}

/// Why a request to an administrative endpoint was refused.
#[derive(Debug, Clone, Copy, PartialEq, Eq)]
pub enum AuthError {
    /// No access token is configured.
    NotConfigured,
    /// The request has no `Authorization` header.
    MissingHeader,
    /// The header is not `Bearer` followed by the access token.
    Unauthorized,
}

/// What a request with `method` and `path` asks for.
pub open spec fn route_of(method: Method, path: Seq<char>) -> Route {
    if method == Method::Get && path == "/"@ {
        Route::Status
    } else if method == Method::Post && path == "/check"@ {
        Route::Check
    } else if method == Method::Post && path == "/notify"@ {
        Route::Notify
    } else {
        Route::NotFound
    }
}

/// Whether a request may use an administrative endpoint: a token must be
/// configured, and the request must carry it as its bearer token.
pub open spec fn authorization(
    access_token: Option<Seq<char>>,
    header: Option<Seq<char>>,
) -> Result<(), AuthError> {
    match access_token {
        None => Err(AuthError::NotConfigured),
        Some(token) => match header {
            None => Err(AuthError::MissingHeader),
            Some(value) => if value == "Bearer "@ + token {
                Ok(())
            } else {
                Err(AuthError::Unauthorized)
            },
        },
    }
}

/// One resource in the status document.
pub open spec fn resource_value(resource: Resource) -> JsonValue {
    JsonValue::Object(
        seq![("url"@, JsonValue::Text(resource.url@)), ("sri"@, JsonValue::Text(resource.sri@))],
    )
}

/// The status document: health, the worker's name, the version of the
/// configuration, and the resources monitored.
pub open spec fn status_value(version: Seq<char>, resources: Seq<Resource>) -> JsonValue {
    JsonValue::Object(
        seq![
            ("status"@, JsonValue::Text("healthy"@)),
            ("worker"@, JsonValue::Text("linkkivahti"@)),
            ("version"@, JsonValue::Text(version)),
            (
                "resources"@,
                JsonValue::Array(Seq::new(resources.len(), |i: int| resource_value(resources[i]))),
            ),
        ],
    )
}

impl AuthError {
    /// The text that `description` returns.
    pub open spec fn description_text(self) -> Seq<char> {
        match self {
            AuthError::NotConfigured => "ACCESS_TOKEN not configured"@,
            AuthError::MissingHeader => "Missing Authorization header"@,
            AuthError::Unauthorized => "Unauthorized"@,
        }
    }

    /// A human-readable description of the error.
    pub fn description(&self) -> (text: &'static str)
        ensures
            text@ == self.description_text(),
    {
        match self {
            AuthError::NotConfigured => "ACCESS_TOKEN not configured",
            AuthError::MissingHeader => "Missing Authorization header",
            AuthError::Unauthorized => "Unauthorized",
        }
    }
}

/// Finds what a request asks for.
pub fn route(method: Method, path: &str) -> (route: Route)
    ensures
        route == route_of(method, path@),
{
    match method {
        Method::Get => {
            if str_eq(path, "/") {
                Route::Status
            } else {
                Route::NotFound
            }
        },
        Method::Post => {
            if str_eq(path, "/check") {
                Route::Check
            } else if str_eq(path, "/notify") {
                Route::Notify
            } else {
                Route::NotFound
            }
        },
        Method::Other => Route::NotFound,
    }
}

/// Checks the `Authorization` header of a request against the configured
/// access token.
pub fn check_auth(access_token: Option<&str>, header: Option<&str>) -> (checked: Result<
    (),
    AuthError,
>)
    ensures
        checked == authorization(
            match access_token {
                Some(token) => Some(token@),
                None => None,
            },
            match header {
                Some(value) => Some(value@),
                None => None,
            },
        ),
{
    match access_token {
        None => Err(AuthError::NotConfigured),
        Some(token) => match header {
            None => Err(AuthError::MissingHeader),
            Some(value) => {
                let mut expected = String::from_str("Bearer ");
                expected.append(token);
                if str_eq(value, expected.as_str()) {
                    Ok(())
                } else {
                    Err(AuthError::Unauthorized)
                }
            },
        },
    }
}

/// The status document for a configuration.
pub fn status_document(version: &str, resources: &Vec<Resource>) -> (doc: Json)
    ensures
        doc@ == status_value(version@, resources@),
{
    let mut entries: Vec<Json> = Vec::new();
    let mut i: usize = 0;
    while i < resources.len()
        invariant
            i <= resources@.len(),
            entries@.len() == i,
            forall|j: int| 0 <= j < i ==> (#[trigger] entries@[j])@ == resource_value(resources@[j]),
        decreases resources@.len() - i,
    {
        let mut entry: Vec<(String, Json)> = Vec::new();
        entry.push(Json::member("url", Json::text(resources[i].url)));
        entry.push(Json::member("sri", Json::text(resources[i].sri)));
        assert(member_values(entry@) =~= resource_value(resources@[i as int])->Object_0);
        entries.push(Json::object(entry));
        i += 1;
    }
    assert(item_values(entries@) =~= status_value(version@, resources@)->Object_0[3].1->Array_0);

    let mut status: Vec<(String, Json)> = Vec::new();
    status.push(Json::member("status", Json::text("healthy")));
    status.push(Json::member("worker", Json::text("linkkivahti")));
    status.push(Json::member("version", Json::text(version)));
    status.push(Json::member("resources", Json::array(entries)));
    assert(member_values(status@) =~= status_value(version@, resources@)->Object_0);
    Json::object(status)
}

} // verus!
