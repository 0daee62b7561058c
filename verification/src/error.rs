//! The failures of the two services and the statuses they map to.

use vstd::prelude::*;

verus! {

/// Why a request was not answered with a record.
#[derive(Clone, Copy, Debug, PartialEq, Eq, Structural)]
pub enum ServiceError {
    /// A required numeric parameter is missing or is no number.
    ClientInput,
    /// The store could not be opened, written or read.
    Storage,
    /// The relayed call failed, timed out, was answered with a non-success
    /// status, or its body was no record.
    Upstream,
}

/// The status of a reply that carries what was asked for.
pub const STATUS_OK: u16 = 200;

impl ServiceError {
    /// The HTTP status that the failure is reported with.
    pub open spec fn status_spec(self) -> u16 {
        match self {
            ServiceError::ClientInput => 400,
            ServiceError::Storage => 500,
            ServiceError::Upstream => 502,
        }
    }

    /// The short text that goes out as the body of the failure's reply.
    pub open spec fn diagnostic_spec(self) -> Seq<char> {
        match self {
            ServiceError::ClientInput => "num1 and num2 are required and must be numbers"@,
            ServiceError::Storage => "the calculation store is unavailable"@,
            ServiceError::Upstream => "the calculation service did not answer with a record"@,
        }
    }

    /// The HTTP status that the failure is reported with.
    #[verifier::when_used_as_spec(status_spec)]
    pub fn status(self) -> (code: u16)
        ensures
            code == self.status_spec(),
    {
        match self {
            ServiceError::ClientInput => 400,
            ServiceError::Storage => 500,
            ServiceError::Upstream => 502,
        }
    }

    /// The short text that goes out as the body of the failure's reply.
    pub fn diagnostic(self) -> (text: &'static str)
        ensures
            text@ == self.diagnostic_spec(),
    {
        match self {
            ServiceError::ClientInput => "num1 and num2 are required and must be numbers",
            ServiceError::Storage => "the calculation store is unavailable",
            ServiceError::Upstream => "the calculation service did not answer with a record",
        }
    }
}

/// The status that a reply goes out with: success for what was asked for,
/// the failure's own status otherwise.
pub open spec fn reply_status_spec<T>(reply: Result<T, ServiceError>) -> u16 {
    match reply {
        Ok(_) => STATUS_OK,
        Err(error) => error.status_spec(),
    }
}

/// The status that a reply goes out with.
pub fn reply_status<T>(reply: &Result<T, ServiceError>) -> (code: u16)
    ensures
        code == reply_status_spec(*reply),
        is_success(code) <==> reply is Ok,
{
    match reply {
        Ok(_) => STATUS_OK,
        Err(error) => error.status(),
    }
}

/// Whether a status is of the class that blames the request.
pub open spec fn is_client_error(status: u16) -> bool {
    400 <= status < 500
}

/// Whether a status is of the class that blames the service.
pub open spec fn is_server_error(status: u16) -> bool {
    500 <= status < 600
}

/// Whether a status reports success.
pub open spec fn is_success(status: u16) -> bool {
    200 <= status < 300
}

/// Distinct failures are reported with distinct statuses, so the status alone
/// tells a caller which failure occurred.
pub proof fn law_statuses_are_distinct(a: ServiceError, b: ServiceError)
    ensures
        a.status_spec() == b.status_spec() <==> a == b,
{
}

/// A rejected request is reported as a client error; a failing store or
/// upstream service is reported as a server error; no failure is reported as
/// success.
pub proof fn law_status_classes(error: ServiceError)
    ensures
        error == ServiceError::ClientInput <==> is_client_error(error.status_spec()),
        error != ServiceError::ClientInput <==> is_server_error(error.status_spec()),
        !is_success(error.status_spec()),
        error.status_spec() != STATUS_OK,
{
}

} // verus!
