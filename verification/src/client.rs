use vstd::prelude::*;

use crate::api::{DnsRecord, DnsRecordId};
use crate::decode::{decode_create_body, decode_list_body, envelope_message, spec_created_of,
    spec_envelope_message, spec_list_of};
use crate::json::json_of;

verus! {

/// The client's error taxonomy, by where the failure originates.
#[derive(Debug, PartialEq, Eq)]
pub enum SimplyClientError {
    /// The HTTP exchange did not complete (connectivity, timeout, protocol
    /// failure below the application layer); holds the executor's
    /// description, surfaced verbatim.
    Http(String),
    /// A response body was received but could not be decoded into the shape
    /// the operation expects: a contract mismatch with the remote service.
    Json,
    /// The remote service reported failure through a non-success HTTP status
    /// on an endpoint with a structured envelope: the numeric status and a
    /// best-effort message, empty when the service supplied none.
    Api(u32, String),
}

/// What one HTTP exchange came to, as the executor hands it back.
#[derive(Debug)]
pub enum HttpOutcome {
    /// The exchange completed: status code and raw body text.
    Response { status: u16, body: String },
    /// The exchange did not complete; holds the executor's description.
    TransportFailure { detail: String },
}

/// Whether an HTTP status code counts as success (the 2xx range).
pub open spec fn spec_is_success(status: u16) -> bool {
    200 <= status < 300
}

/// Executable check for the 2xx success range of an HTTP status code.
pub fn is_success_status(status: u16) -> (r: bool)
    ensures
        r == spec_is_success(status),
{
    200 <= status && status < 300
}

/// The fixed base endpoint of the remote service.
pub fn default_base_url() -> (r: String)
    ensures
        r@ == "https://api.simply.com/2/"@,
{
    String::from_str("https://api.simply.com/2/")
}

/// Turns a list exchange's outcome into the typed result.  A transport
/// failure yields `Http`, never `Json` or `Api`; a completed exchange is
/// judged by its body alone: the decoded records in service order, or `Json`
/// when the body is not of the documented shape.
pub fn list_dns_records_outcome(outcome: HttpOutcome) -> (r: Result<
    Vec<DnsRecord>,
    SimplyClientError,
>)
    ensures
        (outcome matches HttpOutcome::TransportFailure { detail } ==> (r matches Err(e)
            && e matches SimplyClientError::Http(m) && m@ == detail@)),
        (outcome matches HttpOutcome::Response { status, body } ==> (match spec_list_of(
            json_of(body@),
        ) {
            Some(models) => r matches Ok(v) && v.deep_view() == models,
            None => r matches Err(e) && e == SimplyClientError::Json,
        })),
{
    match outcome {
        HttpOutcome::TransportFailure { detail } => Err(SimplyClientError::Http(detail)),
        HttpOutcome::Response { status: _, body } => match decode_list_body(body.as_str()) {
            Some(v) => Ok(v),
            None => Err(SimplyClientError::Json),
        },
    }
}

/// Turns a create exchange's outcome into the typed result.  A transport
/// failure yields `Http`; a completed exchange is judged by its body alone:
/// the created identifiers, an absent or null list normalized to empty, or
/// `Json` when the body is not of the documented shape.
pub fn create_dns_record_outcome(outcome: HttpOutcome) -> (r: Result<
    Vec<DnsRecordId>,
    SimplyClientError,
>)
    ensures
        (outcome matches HttpOutcome::TransportFailure { detail } ==> (r matches Err(e)
            && e matches SimplyClientError::Http(m) && m@ == detail@)),
        (outcome matches HttpOutcome::Response { status, body } ==> (match spec_created_of(
            json_of(body@),
        ) {
            Some(ids) => r matches Ok(v) && v.deep_view() == ids,
            None => r matches Err(e) && e == SimplyClientError::Json,
        })),
{
    match outcome {
        HttpOutcome::TransportFailure { detail } => Err(SimplyClientError::Http(detail)),
        HttpOutcome::Response { status: _, body } => match decode_create_body(body.as_str()) {
            Some(v) => Ok(v),
            None => Err(SimplyClientError::Json),
        },
    }
}

/// Turns an update or delete exchange's outcome into the typed result; the
/// two endpoints share one classification policy.  A transport failure
/// yields `Http`; a success status yields success whatever the body holds;
/// a non-success status yields `Api` with that status and the envelope's
/// best-effort message.
pub fn write_dns_record_outcome(outcome: HttpOutcome) -> (r: Result<(), SimplyClientError>)
    ensures
        (outcome matches HttpOutcome::TransportFailure { detail } ==> (r matches Err(e)
            && e matches SimplyClientError::Http(m) && m@ == detail@)),
        (outcome matches HttpOutcome::Response { status, body } ==> ((spec_is_success(status)
            ==> r is Ok) && (!spec_is_success(status) ==> (r matches Err(e)
            && e matches SimplyClientError::Api(code, msg) && code == status as u32 && msg@
            == spec_envelope_message(json_of(body@)))))),
{
    match outcome {
        HttpOutcome::TransportFailure { detail } => Err(SimplyClientError::Http(detail)),
        HttpOutcome::Response { status, body } => {
            if is_success_status(status) {
                Ok(())
            } else {
                let msg = envelope_message(body.as_str());
                Err(SimplyClientError::Api(status as u32, msg))
            }
        },
    }
}

} // verus!
