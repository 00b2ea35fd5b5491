//! Mapping of aeron-rs results onto [`TransportError`].
use vstd::prelude::*;

use super::error::TransportError;

verus! {

/// aeron-rs's error enum, with its variants visible to the proofs; the
/// payloads of the variants that carry one of the types declared below stay
/// opaque.
#[verifier::external_type_specification]
pub struct ExAeronError(::aeron_rs::utils::errors::AeronError);

#[verifier::external_type_specification]
#[verifier::external_body]
pub struct ExGenericError(::aeron_rs::utils::errors::GenericError);

#[verifier::external_type_specification]
#[verifier::external_body]
pub struct ExIllegalArgumentError(::aeron_rs::utils::errors::IllegalArgumentError);

#[verifier::external_type_specification]
#[verifier::external_body]
pub struct ExIllegalStateError(::aeron_rs::utils::errors::IllegalStateError);

#[verifier::external_type_specification]
#[verifier::external_body]
pub struct ExDriverInteractionError(::aeron_rs::utils::errors::DriverInteractionError);

#[verifier::external_type_specification]
#[verifier::external_body]
pub struct ExBroadcastTransmitError(::aeron_rs::concurrent::broadcast::BroadcastTransmitError);

#[verifier::external_type_specification]
#[verifier::external_body]
pub struct ExRingBufferError(::aeron_rs::concurrent::ring_buffer::RingBufferError);

#[verifier::external_type_specification]
#[verifier::external_body]
pub struct ExIoError(::std::io::Error);

/// `e` is the transport error for the aeron-rs error `err`.
///
/// Back-pressure and administration actions (to be retried) become
/// back-pressure; not connected and publication closed become connection
/// errors; an exceeded maximum position is invalid; any other error is a
/// backend error whose message starts with `"aeron-rs error: "`, followed by
/// the error's debug rendering.
pub open spec fn is_aeron_transport_error(err: ::aeron_rs::utils::errors::AeronError, e: TransportError) -> bool {
    match err {
        ::aeron_rs::utils::errors::AeronError::BackPressured => e matches TransportError::BackPressure,
        ::aeron_rs::utils::errors::AeronError::AdminAction => e matches TransportError::BackPressure,
        ::aeron_rs::utils::errors::AeronError::NotConnected => e matches TransportError::Connection(msg) && msg@
            == "Not connected"@,
        ::aeron_rs::utils::errors::AeronError::PublicationClosed => e matches TransportError::Connection(msg) && msg@
            == "Publication closed"@,
        ::aeron_rs::utils::errors::AeronError::MaxPositionExceeded => e matches TransportError::Invalid(msg) && msg@
            == "Max position exceeded"@,
        _ => e matches TransportError::Backend(msg) && exists|text: Seq<char>| msg@
            == "aeron-rs error: "@ + text,
    }
}

/// Only the errors that say "try again" become back-pressure: a
/// back-pressured offer and an administration action. Not connected and
/// publication closed are the connection errors, an exceeded maximum
/// position the one invalid request, and every other aeron-rs error is a
/// backend error whose message starts with `"aeron-rs error: "`.
pub proof fn lemma_only_retryable_errors_back_pressure(err: ::aeron_rs::utils::errors::AeronError, e: TransportError)
    requires
        is_aeron_transport_error(err, e),
    ensures
        (e is BackPressure) == (err is BackPressured || err is AdminAction),
        (e is Connection) == (err is NotConnected || err is PublicationClosed),
        (e is Invalid) == (err is MaxPositionExceeded),
        (e is Backend) == !(err is BackPressured || err is AdminAction || err is NotConnected
            || err is PublicationClosed || err is MaxPositionExceeded),
        e matches TransportError::Backend(msg) ==> msg@.len() >= 16 && msg@.take(16)
            == "aeron-rs error: "@,
{
    if let TransportError::Backend(msg) = e {
        reveal_strlit("aeron-rs error: ");
        let text = choose|text: Seq<char>| msg@ == "aeron-rs error: "@ + text;
        assert(("aeron-rs error: "@ + text).take(16) =~= "aeron-rs error: "@);
    }
}

/// The debug rendering of an aeron-rs error (its derived `Debug`).
///
/// Trusted, with nothing claimed of the text: for variants that carry an
/// operating-system error it holds a message that depends on the platform
/// and the locale.
#[verifier::external_body]
fn aeron_error_debug_text(err: &::aeron_rs::utils::errors::AeronError) -> (text: String) {
    format!("{:?}", err)
}

/// Converts an aeron-rs error to a [`TransportError`], as
/// [`is_aeron_transport_error`] states.
pub fn aeron_error_to_transport_error(err: ::aeron_rs::utils::errors::AeronError) -> (e: TransportError)
    ensures
        is_aeron_transport_error(err, e),
{
    match err {
        ::aeron_rs::utils::errors::AeronError::BackPressured => TransportError::BackPressure,
        ::aeron_rs::utils::errors::AeronError::AdminAction => TransportError::BackPressure,
        ::aeron_rs::utils::errors::AeronError::NotConnected => TransportError::Connection(
            String::from_str("Not connected"),
        ),
        ::aeron_rs::utils::errors::AeronError::PublicationClosed => TransportError::Connection(
            String::from_str("Publication closed"),
        ),
        ::aeron_rs::utils::errors::AeronError::MaxPositionExceeded => TransportError::Invalid(
            String::from_str("Max position exceeded"),
        ),
        _ => {
            let text = aeron_error_debug_text(&err);
            let mut msg = String::from_str("aeron-rs error: ");
            msg.append(text.as_str());
            TransportError::Backend(msg)
        },
    }
}

/// Converts an aeron-rs result: a position becomes a signed stream position,
/// an error a [`TransportError`].
pub fn result_to_transport_error(result: Result<u64, ::aeron_rs::utils::errors::AeronError>) -> (r: Result<i64, TransportError>)
    ensures
        result matches Ok(pos) ==> r == Ok::<i64, TransportError>(pos as i64),
        result matches Err(err) ==> (r matches Err(e) && is_aeron_transport_error(err, e)),
{
    match result {
        Ok(pos) => Ok(pos as i64),
        Err(err) => Err(aeron_error_to_transport_error(err)),
    }
}

} // verus!
