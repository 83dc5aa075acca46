//! The health probe's answer, from what the probe of the database found.

use vstd::prelude::*;

verus! {

/// The body of the health probe's answer.
#[derive(Debug, Clone, PartialEq, Eq)]
pub struct HealthResponse {
    pub status: String,
    pub message: String,
}

pub open spec fn msg_unreachable() -> Seq<char> {
    "Database unreachable: "@
}

/// The status and the body that answer a probe: `failure` is the database's
/// error, where it gave one.
pub open spec fn health_answer(failure: Option<String>, code: u16, body: HealthResponse) -> bool {
    match failure {
        Some(reason) => {
            &&& code == 503
            &&& body.status@ == "error"@
            &&& body.message@ == msg_unreachable() + reason@
        },
        None => {
            &&& code == 200
            &&& body.status@ == "ok"@
            &&& body.message@ == "Service is healthy"@
        },
    }
}

/// Answers the health probe: 200 where the database replied, 503 with the
/// database's error where it did not.
pub fn health_report(failure: Option<String>) -> (answer: (u16, HealthResponse))
    ensures
        health_answer(failure, answer.0, answer.1),
{
    match failure {
        Some(reason) => {
            let message = "Database unreachable: ".to_owned().concat(reason.as_str());
            (503, HealthResponse { status: "error".to_owned(), message })
        },
        None => (
            200,
            HealthResponse {
                status: "ok".to_owned(),
                message: "Service is healthy".to_owned(),
            },
        ),
    }
}

} // verus!
