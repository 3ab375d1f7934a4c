use vstd::prelude::*;
use vstd::string::*;

verus! {

/// The reason phrase that `http` associates with a status code
/// (`StatusCode::canonical_reason`), `None` for codes without one.
pub uninterp spec fn http_reason_phrase(code: u16) -> Option<Seq<char>>;

/// The problem type used for every problem this service emits.
pub const ABOUT_BLANK: &'static str = "about:blank";

/// A status code that `http::StatusCode::from_u16` accepts: 100 through
/// 999.
pub open spec fn valid_status(code: u16) -> bool {
    100 <= code <= 999
}

/// The canonical reason phrase of a status code, from
/// `http::StatusCode::canonical_reason`.
///
/// Trusted: the result is the phrase of `http`'s table for `code`, named
/// `http_reason_phrase`; the table itself is not restated here.
#[verifier::external_body]
fn canonical_reason(code: u16) -> (reason: Option<&'static str>)
    requires
        valid_status(code),
    ensures
        match reason {
            Some(r) => http_reason_phrase(code) == Some(r@),
            None => http_reason_phrase(code) is None,
        },
{
    match axum::http::StatusCode::from_u16(code) {
        Ok(status) => status.canonical_reason(),
        Err(_) => None,
    }
}

/// The title used when a status code has no canonical reason phrase.
pub const FALLBACK_TITLE: &'static str = "Error";

/// The status used when a problem carries a status that is not a valid HTTP
/// status code.
pub const INTERNAL_SERVER_ERROR: u16 = 500;

/// The media type of a problem response body.
pub const PROBLEM_CONTENT_TYPE: &'static str = "application/problem+json";

/// The title a problem gets from the reason phrase of its status, if any.
pub open spec fn title_from_reason(reason: Option<Seq<char>>) -> Seq<char> {
    match reason {
        Some(r) => r,
        None => FALLBACK_TITLE@,
    }
}

/// RFC 7807 problem+json error shape.
#[derive(Debug)]
pub struct ApiProblem {
    /// The problem type URI (the JSON member `type`).
    pub problem_type: String,
    pub title: String,
    pub status: u16,
    pub detail: Option<String>,
    pub instance: Option<String>,
}

/// The problem type of every problem: `about:blank`.
pub fn default_problem_type() -> (t: String)
    ensures
        t@ == ABOUT_BLANK@,
{
    String::from_str(ABOUT_BLANK)
}

impl ApiProblem {
    /// A problem for `status`, titled by the given reason phrase, or by
    /// `Error` when there is none.
    pub fn with_reason(
        status: u16,
        reason: Option<&str>,
        detail: Option<String>,
        instance: Option<String>,
    ) -> (p: ApiProblem)
        ensures
            p.problem_type@ == ABOUT_BLANK@,
            p.title@ == (match reason {
                Some(r) => r@,
                None => FALLBACK_TITLE@,
            }),
            p.status == status,
            p.detail == detail,
            p.instance == instance,
    {
        let title = match reason {
            Some(r) => String::from_str(r),
            None => String::from_str(FALLBACK_TITLE),
        };
        ApiProblem { problem_type: default_problem_type(), title, status, detail, instance }
    }

    /// A problem for `status`, titled by its canonical reason phrase.
    pub fn new(status: u16, detail: Option<String>, instance: Option<String>) -> (p: ApiProblem)
        requires
            valid_status(status),
        ensures
            p.problem_type@ == ABOUT_BLANK@,
            p.title@ == title_from_reason(http_reason_phrase(status)),
            p.status == status,
            p.detail == detail,
            p.instance == instance,
    {
        let reason = canonical_reason(status);
        ApiProblem::with_reason(status, reason, detail, instance)
    }
}

/// A problem as it is sent: serialised with `application/problem+json`.
pub struct ProblemJson(pub ApiProblem);

/// The HTTP status a problem is sent with: its own status when that is a
/// valid status code, else 500.
pub open spec fn response_status_of(status: u16) -> u16 {
    if valid_status(status) {
        status
    } else {
        INTERNAL_SERVER_ERROR
    }
}

impl ProblemJson {
    pub fn from_status(status: u16, detail: Option<String>, instance: Option<String>) -> (r:
        ProblemJson)
        requires
            valid_status(status),
        ensures
            r.0.problem_type@ == ABOUT_BLANK@,
            r.0.title@ == title_from_reason(http_reason_phrase(status)),
            r.0.status == status,
            r.0.detail == detail,
            r.0.instance == instance,
    {
        ProblemJson(ApiProblem::new(status, detail, instance))
    }

    /// The status line of the response that carries this problem.
    pub fn response_status(&self) -> (code: u16)
        ensures
            code == response_status_of(self.0.status),
            valid_status(code),
    {
        if 100 <= self.0.status && self.0.status <= 999 {
            self.0.status
        } else {
            INTERNAL_SERVER_ERROR
        }
    }
}

/// A problem built for a status code is sent with that very status.
pub proof fn law_problem_keeps_its_status(status: u16)
    requires
        valid_status(status),
    ensures
        response_status_of(status) == status,
{
}

} // verus!
