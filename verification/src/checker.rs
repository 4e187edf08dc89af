//! Checking one resource: the typed outcome of a check, and the decisions
//! taken between the steps of fetching it.

use crate::sri::{digest_of_text, SriHash};
use crate::text::{decimal, push_decimal};
use vstd::prelude::*;
use vstd::string::StringSliceAdditionalSpecFns;

verus! {

/// Why a check failed.
#[derive(Debug, Clone, Copy, PartialEq, Eq)]
pub enum CheckError {
    /// The configured digest string is not a valid digest.
    InvalidSri,
    /// The request failed before any response arrived.
    FetchFailed,
    /// The response had a status outside the 2xx range; holds the status.
    HttpError(u16),
    /// The response body could not be read.
    BodyReadFailed,
}

/// The outcome of checking one resource.
#[derive(Debug, Clone)]
pub struct CheckResult {
    pub url: &'static str,
    pub success: bool,
    pub status_code: Option<u16>,
    pub error: Option<CheckError>,
    pub sri_valid: Option<bool>,
}

impl CheckError {
    /// The text that `description` returns.
    pub open spec fn description_text(self) -> Seq<char> {
        match self {
            CheckError::InvalidSri => "Invalid SRI format"@,
            CheckError::FetchFailed => "Fetch failed"@,
            CheckError::HttpError(code) => "HTTP error: "@ + decimal(code as nat),
            CheckError::BodyReadFailed => "Failed to read response body"@,
        }
    }

    /// A human-readable description of the error.
    pub fn description(&self) -> (text: String)
        ensures
            text@ == self.description_text(),
    {
        match self {
            CheckError::InvalidSri => String::from_str("Invalid SRI format"),
            CheckError::FetchFailed => String::from_str("Fetch failed"),
            CheckError::HttpError(code) => {
                let mut text = String::from_str("HTTP error: ");
                push_decimal(&mut text, *code as u32);
                text
            },
            CheckError::BodyReadFailed => String::from_str("Failed to read response body"),
        }
    }
}

impl CheckResult {
    /// The outcome of a check whose fetch succeeded with `status_code` and
    /// whose content matched the digest or not.
    pub open spec fn succeeded(url: &'static str, status_code: u16, sri_valid: bool) -> CheckResult {
        CheckResult {
            url,
            success: true,
            status_code: Some(status_code),
            error: None,
            sri_valid: Some(sri_valid),
        }
    }

    /// The outcome of a check that failed with `error`.
    pub open spec fn failed(url: &'static str, error: CheckError) -> CheckResult {
        CheckResult { url, success: false, status_code: None, error: Some(error), sri_valid: None }
    }

    /// What holds of every outcome that `success` and `failure` build: a
    /// success has a status, a digest verdict and no error; a failure has an
    /// error and neither status nor verdict.
    pub open spec fn well_formed(self) -> bool {
        if self.success {
            self.error is None && self.sri_valid is Some && self.status_code is Some
        } else {
            self.error is Some && self.sri_valid is None && self.status_code is None
        }
    }

    /// Whether the outcome calls for a notification: the check failed, or
    /// the content did not match the digest.
    pub open spec fn is_problem(self) -> bool {
        !self.success || self.sri_valid == Some(false)
    }

    /// The text that `description` returns.
    pub open spec fn description_text(self) -> Seq<char> {
        if !self.success {
            match self.error {
                Some(error) => "Failed: "@ + error.description_text(),
                None => "Failed: Unknown error"@,
            }
        } else if self.sri_valid == Some(false) {
            match self.status_code {
                Some(code) => "SRI mismatch (HTTP "@ + decimal(code as nat) + ")"@,
                None => "SRI mismatch"@,
            }
        } else {
            match self.status_code {
                Some(code) => "OK (HTTP "@ + decimal(code as nat) + ")"@,
                None => "OK"@,
            }
        }
    }

    /// The outcome of a check whose fetch succeeded.
    pub fn success(url: &'static str, status_code: u16, sri_valid: bool) -> (result: CheckResult)
        ensures
            result == CheckResult::succeeded(url, status_code, sri_valid),
            result.well_formed(),
            result.is_problem() == !sri_valid,
    {
        CheckResult {
            url,
            success: true,
            status_code: Some(status_code),
            error: None,
            sri_valid: Some(sri_valid),
        }
    }

    /// The outcome of a check that failed.
    pub fn failure(url: &'static str, error: CheckError) -> (result: CheckResult)
        ensures
            result == CheckResult::failed(url, error),
            result.well_formed(),
            result.is_problem(),
    {
        CheckResult { url, success: false, status_code: None, error: Some(error), sri_valid: None }
    }

    /// Whether the outcome is a problem: a failure, or a digest mismatch.
    pub fn has_problem(&self) -> (problem: bool)
        ensures
            problem == self.is_problem(),
    {
        if !self.success {
            return true;
        }
        match self.sri_valid {
            Some(valid) => !valid,
            None => false,
        }
    }

    /// Whether the content was fetched and did not match the digest.
    pub fn is_mismatch(&self) -> (mismatch: bool)
        ensures
            mismatch == (self.sri_valid == Some(false)),
    {
        match self.sri_valid {
            Some(valid) => !valid,
            None => false,
        }
    }

    /// A human-readable description of the outcome.
    pub fn description(&self) -> (text: String)
        ensures
            text@ == self.description_text(),
    {
        if !self.success {
            match &self.error {
                Some(error) => {
                    let mut text = String::from_str("Failed: ");
                    let detail = error.description();
                    text.append(detail.as_str());
                    text
                },
                None => String::from_str("Failed: Unknown error"),
            }
        } else if self.is_mismatch() {
            match self.status_code {
                Some(code) => {
                    let mut text = String::from_str("SRI mismatch (HTTP ");
                    push_decimal(&mut text, code as u32);
                    text.append(")");
                    text
                },
                None => String::from_str("SRI mismatch"),
            }
        } else {
            match self.status_code {
                Some(code) => {
                    let mut text = String::from_str("OK (HTTP ");
                    push_decimal(&mut text, code as u32);
                    text.append(")");
                    text
                },
                None => String::from_str("OK"),
            }
        }
    }
}

/// Whether an HTTP status is in the 2xx range.
pub open spec fn is_success_status(status_code: u16) -> bool {
    200 <= status_code < 300
}

/// A check whose digest was accepted and whose request is under way.
pub struct PendingFetch {
    url: &'static str,
    digest: SriHash,
}

/// A check whose response had a 2xx status and whose body is being read.
pub struct PendingBody {
    url: &'static str,
    digest: SriHash,
    status_code: u16,
}

/// What to do after a check was started.
pub enum Started {
    /// The digest string was rejected: the check is over, and no request is
    /// to be made.
    Rejected(CheckResult),
    /// Issue one GET request to the URL, then call `on_response`, or
    /// `on_transport_error` if no response arrived.
    Fetch(PendingFetch),
}

/// What to do after a response arrived.
pub enum Responded {
    /// The check is over, and the body is not to be read.
    Finished(CheckResult),
    /// Read the whole body, then call `on_body`, or `on_read_error` if it
    /// could not be read.
    ReadBody(PendingBody),
}

impl PendingFetch {
    /// The URL to fetch.
    pub closed spec fn target(self) -> &'static str {
        self.url
    }

    /// The digest that the content will be held against.
    pub closed spec fn expected(self) -> SriHash {
        self.digest
    }

    /// The URL to fetch.
    pub fn url(&self) -> (url: &'static str)
        ensures
            url == self.target(),
    {
        self.url
    }

    /// Takes the status of the response. A status outside the 2xx range ends
    /// the check, and the body is not to be read; otherwise the body is
    /// wanted.
    pub fn on_response(self, status_code: u16) -> (next: Responded)
        ensures
            if is_success_status(status_code) {
                &&& next matches Responded::ReadBody(pending)
                &&& pending.target() == self.target()
                &&& pending.expected() == self.expected()
                &&& pending.status() == status_code
            } else {
                next == Responded::Finished(
                    CheckResult::failed(self.target(), CheckError::HttpError(status_code)),
                )
            },
    {
        if 200 <= status_code && status_code < 300 {
            Responded::ReadBody(PendingBody { url: self.url, digest: self.digest, status_code })
        } else {
            Responded::Finished(CheckResult::failure(self.url, CheckError::HttpError(status_code)))
        }
    }

    /// Ends a check whose request failed before any response arrived.
    pub fn on_transport_error(self) -> (result: CheckResult)
        ensures
            result == CheckResult::failed(self.target(), CheckError::FetchFailed),
    {
        CheckResult::failure(self.url, CheckError::FetchFailed)
    }

    /// Ends a check that is still waiting for its response when time is up:
    /// it counts as a failed fetch.
    pub fn expire(self) -> (result: CheckResult)
        ensures
            result == CheckResult::failed(self.target(), CheckError::FetchFailed),
    {
        CheckResult::failure(self.url, CheckError::FetchFailed)
    }
}

impl PendingBody {
    /// The URL that was fetched.
    pub closed spec fn target(self) -> &'static str {
        self.url
    }

    /// The digest that the content will be held against.
    pub closed spec fn expected(self) -> SriHash {
        self.digest
    }

    /// The status of the response.
    pub closed spec fn status(self) -> u16 {
        self.status_code
    }

    /// Takes the body of the response and ends the check. The check
    /// succeeded, whether or not the content matches the digest: the verdict
    /// is recorded in the outcome.
    pub fn on_body(self, content: &[u8]) -> (result: CheckResult)
        ensures
            result == CheckResult::succeeded(
                self.target(),
                self.status(),
                self.expected().matches_content(content@),
            ),
    {
        let sri_valid = self.digest.verify(content);
        CheckResult::success(self.url, self.status_code, sri_valid)
    }

    /// Ends a check whose body could not be read.
    pub fn on_read_error(self) -> (result: CheckResult)
        ensures
            result == CheckResult::failed(self.target(), CheckError::BodyReadFailed),
    {
        CheckResult::failure(self.url, CheckError::BodyReadFailed)
    }

    /// Ends a check that is still reading its body when time is up: it counts
    /// as a failed fetch.
    pub fn expire(self) -> (result: CheckResult)
        ensures
            result == CheckResult::failed(self.target(), CheckError::FetchFailed),
    {
        CheckResult::failure(self.url, CheckError::FetchFailed)
    }
}

/// Starts the check of one resource. The digest string is parsed first: if
/// it is rejected the check fails at once, and nothing is to be fetched.
pub fn start_check(url: &'static str, expected_sri: &str) -> (started: Started)
    ensures
        match digest_of_text(expected_sri.spec_bytes()) {
            Err(_) => started == Started::Rejected(
                CheckResult::failed(url, CheckError::InvalidSri),
            ),
            Ok((algorithm, hash)) => {
                &&& started matches Started::Fetch(pending)
                &&& pending.target() == url
                &&& pending.expected().algorithm_of() == algorithm
                &&& pending.expected().hash() == hash
            },
        },
{
    match SriHash::parse(expected_sri) {
        Err(_) => Started::Rejected(CheckResult::failure(url, CheckError::InvalidSri)),
        Ok(digest) => Started::Fetch(PendingFetch { url, digest }),
    }
}

/// What the transport delivered for one GET request.
#[derive(Debug, Clone, PartialEq, Eq)]
pub enum Fetched {
    /// The request failed before any response arrived.
    TransportError,
    /// A response arrived, with its status and, where it was read, its body;
    /// `None` for a body that could not be read.
    Response { status_code: u16, body: Option<Vec<u8>> },
}

/// The outcome of a check, from the digest string and what the transport
/// delivered. The reasons for failure are looked for in a fixed order: an
/// invalid digest string first, then a transport failure, then a status
/// outside the 2xx range, then an unreadable body.
pub open spec fn outcome_of(url: &'static str, expected: Seq<u8>, fetched: Fetched) -> CheckResult {
    match digest_of_text(expected) {
        Err(_) => CheckResult::failed(url, CheckError::InvalidSri),
        Ok((algorithm, hash)) => match fetched {
            Fetched::TransportError => CheckResult::failed(url, CheckError::FetchFailed),
            Fetched::Response { status_code, body } => if !is_success_status(status_code) {
                CheckResult::failed(url, CheckError::HttpError(status_code))
            } else {
                match body {
                    None => CheckResult::failed(url, CheckError::BodyReadFailed),
                    Some(content) => CheckResult::succeeded(
                        url,
                        status_code,
                        hash == algorithm.hash_of(content@),
                    ),
                }
            },
        },
    }
}

/// Every outcome of a check is well formed. It is a success exactly when
/// the digest string is valid and a readable body came with a 2xx status;
/// a success is a problem exactly when the body does not hash to the digest.
pub proof fn lemma_outcome_of(url: &'static str, expected: Seq<u8>, fetched: Fetched)
    ensures
        outcome_of(url, expected, fetched).well_formed(),
        outcome_of(url, expected, fetched).url == url,
        outcome_of(url, expected, fetched).success <==> {
            &&& digest_of_text(expected) is Ok
            &&& fetched matches Fetched::Response { status_code, body }
            &&& is_success_status(status_code)
            &&& body is Some
        },
        outcome_of(url, expected, fetched).success ==> {
            &&& digest_of_text(expected) matches Ok((algorithm, hash))
            &&& fetched matches Fetched::Response { status_code, body: Some(content) }
            &&& outcome_of(url, expected, fetched).status_code == Some(status_code)
            &&& outcome_of(url, expected, fetched).is_problem() <==> hash != algorithm.hash_of(
                content@,
            )
        },
        !outcome_of(url, expected, fetched).success ==> outcome_of(
            url,
            expected,
            fetched,
        ).is_problem(),
{
}

/// The outcome of a check, from the digest string and what the transport
/// delivered.
pub fn check_fetched(url: &'static str, expected_sri: &str, fetched: &Fetched) -> (result:
    CheckResult)
    ensures
        result == outcome_of(url, expected_sri.spec_bytes(), *fetched),
{
    let pending = match start_check(url, expected_sri) {
        Started::Rejected(result) => {
            return result;
        },
        Started::Fetch(pending) => pending,
    };
    match fetched {
        Fetched::TransportError => pending.on_transport_error(),
        Fetched::Response { status_code, body } => match pending.on_response(*status_code) {
            Responded::Finished(result) => result,
            Responded::ReadBody(reading) => match body {
                Some(content) => reading.on_body(content.as_slice()),
                None => reading.on_read_error(),
            },
        },
    }
}

} // verus!
