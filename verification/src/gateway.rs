//! The gateway: where it sends a `calculate` request, and what it makes of
//! the answer.

use crate::error::{is_success, ServiceError, STATUS_OK};
use crate::record::Calculation;
use vstd::prelude::*;

verus! {

/// The address of the compute-and-store service's `calculate` endpoint.
pub const UPSTREAM_CALCULATE: &'static str = "http://127.0.0.1:8000/calculate";

/// How a relayed call ended.
#[derive(Clone, Debug, PartialEq, Eq)]
pub enum Upstream {
    /// No answer came: the call failed or timed out.
    Unreachable,
    /// An answer came, with this status; `body` is the record that its body
    /// held, `None` where the body was no record.
    Answered { status: u16, body: Option<Calculation> },
}

/// The address that a request with the given operands is relayed to. `num1`
/// and `num2` are the decimal renderings of the operands.
pub open spec fn upstream_url_spec(num1: Seq<char>, num2: Seq<char>) -> Seq<char> {
    UPSTREAM_CALCULATE@ + "?num1="@ + num1 + "&num2="@ + num2
}

/// What the gateway replies after a relayed call: the record that came back,
/// as it came, where the call was answered with a success status and a
/// record; an upstream failure in every other case.
pub open spec fn relay_spec(upstream: Upstream) -> Result<Calculation, ServiceError> {
    match upstream {
        Upstream::Answered { status, body: Some(record) } => if is_success(status) {
            Ok(record)
        } else {
            Err(ServiceError::Upstream)
        },
        _ => Err(ServiceError::Upstream),
    }
}

/// How a reply of the compute-and-store service reaches the gateway when the
/// call between the two goes through: a record under the success status, a
/// failure as its status with a body that is no record.
pub open spec fn carried(reply: Result<Calculation, ServiceError>) -> Upstream {
    match reply {
        Ok(record) => Upstream::Answered { status: STATUS_OK, body: Some(record) },
        Err(error) => Upstream::Answered { status: error.status_spec(), body: None },
    }
}

/// The address that a request with the given operands is relayed to. `num1`
/// and `num2` are the decimal renderings of the operands.
pub fn upstream_url(num1: &str, num2: &str) -> (url: String)
    ensures
        url@ == upstream_url_spec(num1@, num2@),
{
    let mut url = String::from_str(UPSTREAM_CALCULATE);
    url.append("?num1=");
    url.append(num1);
    url.append("&num2=");
    url.append(num2);
    url
}

/// What the gateway replies after a relayed call. Nothing is retried and
/// nothing is changed: a record is passed on as it came.
pub fn relay(upstream: Upstream) -> (reply: Result<Calculation, ServiceError>)
    ensures
        reply == relay_spec(upstream),
        reply is Ok <==> (upstream matches Upstream::Answered { status, body } && is_success(
            status,
        ) && body is Some),
        reply matches Ok(record) ==> upstream->body == Some(record),
        reply matches Err(error) ==> error == ServiceError::Upstream,
{
    match upstream {
        Upstream::Answered { status, body: Some(record) } => {
            if 200 <= status && status < 300 {
                Ok(record)
            } else {
                Err(ServiceError::Upstream)
            }
        },
        _ => Err(ServiceError::Upstream),
    }
}

/// Through a call that goes through, the gateway answers a request with the
/// very record that the compute-and-store service answered it with, and with
/// an upstream failure where that service failed.
pub proof fn law_relay_is_transparent(reply: Result<Calculation, ServiceError>)
    ensures
        relay_spec(carried(reply)) == match reply {
            Ok(record) => Ok::<Calculation, ServiceError>(record),
            Err(_) => Err::<Calculation, ServiceError>(ServiceError::Upstream),
        },
{
}

} // verus!
