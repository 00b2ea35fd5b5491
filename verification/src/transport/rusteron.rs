//! Mapping of Rusteron result codes onto [`TransportError`].
//!
//! Rusteron's `offer` returns an `i64`: a non-negative value is the stream
//! position, a negative value an error code (`-1` not connected, `-2`
//! back-pressure, `-4` publication closed).
use vstd::prelude::*;

use super::decimal::{append_decimal_i64, decimal_text, digits_value, lemma_decimal_text_read_back};
use super::error::TransportError;

verus! {

/// `r` is what the Rusteron result code `code` means.
pub open spec fn is_rusteron_result(code: i64, r: Result<i64, TransportError>) -> bool {
    if code >= 0 {
        r matches Ok(pos) && pos == code
    } else if code == -2 {
        r matches Err(TransportError::BackPressure)
    } else if code == -1 {
        r matches Err(TransportError::Connection(msg)) && msg@ == "Not connected"@
    } else if code == -4 {
        r matches Err(TransportError::Connection(msg)) && msg@ == "Publication closed"@
    } else {
        r matches Err(TransportError::Backend(msg)) && msg@ == "Rusteron error code: "@
            + decimal_text(code as int)
    }
}

/// Converts a Rusteron result code into a stream position or a
/// [`TransportError`].
///
/// - a non-negative code is the stream position;
/// - `-2` is back-pressure;
/// - `-1` is a connection error `Not connected`;
/// - `-4` is a connection error `Publication closed`;
/// - any other code is a backend error naming the code.
pub fn result_to_transport_error(result: i64) -> (r: Result<i64, TransportError>)
    ensures
        is_rusteron_result(result, r),
{
    if result >= 0 {
        Ok(result)
    } else if result == -2 {
        Err(TransportError::BackPressure)
    } else if result == -1 {
        Err(TransportError::Connection(String::from_str("Not connected")))
    } else if result == -4 {
        Err(TransportError::Connection(String::from_str("Publication closed")))
    } else {
        let mut msg = String::from_str("Rusteron error code: ");
        append_decimal_i64(&mut msg, result);
        Err(TransportError::Backend(msg))
    }
}

/// Only non-negative codes are positions, and they are taken as they are;
/// only `-2` is back-pressure; `-1` and `-4` are the connection errors; any
/// other negative code is a backend error whose message ends in the code,
/// written in decimal with its sign.
pub proof fn lemma_rusteron_codes(code: i64, r: Result<i64, TransportError>)
    requires
        is_rusteron_result(code, r),
    ensures
        (r is Ok) == (code >= 0),
        r matches Ok(pos) ==> pos == code,
        (r matches Err(TransportError::BackPressure)) == (code == -2),
        (r matches Err(TransportError::Connection(_))) == (code == -1 || code == -4),
        (r matches Err(TransportError::Backend(_))) == (code < 0 && code != -1 && code != -2 && code
            != -4),
        r matches Err(TransportError::Backend(msg)) ==> ({
            let prefix = "Rusteron error code: "@;
            &&& msg@.take(prefix.len() as int) == prefix
            &&& msg@[prefix.len() as int] == '-'
            &&& digits_value(msg@.skip(prefix.len() as int + 1)) == -code
        }),
{
    if let Err(TransportError::Backend(msg)) = r {
        reveal_strlit("Rusteron error code: ");
        let prefix = "Rusteron error code: "@;
        lemma_decimal_text_read_back(code as int);
        assert(msg@.take(prefix.len() as int) =~= prefix);
        assert(msg@.skip(prefix.len() as int + 1) =~= decimal_text(code as int).skip(1));
    }
}

/// `r` is the result of a poll in which the fragment handler failed with
/// `handler_error` (if it did) and the client reported `polled`: the
/// number of fragments read, or the debug text of its error.
pub open spec fn is_poll_result(
    handler_error: Option<TransportError>,
    polled: Result<i32, String>,
    r: Result<usize, TransportError>,
) -> bool {
    match handler_error {
        Some(e) => r == Err::<usize, TransportError>(e),
        None => match polled {
            Ok(count) => r == Ok::<usize, TransportError>(count as usize),
            Err(text) => r matches Err(TransportError::Backend(msg)) && msg@ == "Rusteron poll error: "@
                + text@,
        },
    }
}

/// A poll succeeds exactly when the handler raised no error and the client
/// read fragments; a handler's error is passed on unchanged, whatever the
/// client reported, and a client error becomes a backend error that carries
/// the client's text.
pub proof fn lemma_handler_error_wins(
    handler_error: Option<TransportError>,
    polled: Result<i32, String>,
    r: Result<usize, TransportError>,
)
    requires
        is_poll_result(handler_error, polled, r),
    ensures
        (r is Ok) == (handler_error is None && polled is Ok),
        handler_error matches Some(e) ==> r == Err::<usize, TransportError>(e),
        handler_error is None && polled is Err ==> (r matches Err(TransportError::Backend(msg))
            && msg@.take(msg@.len() - polled->Err_0@.len()) == "Rusteron poll error: "@
            && msg@.skip(msg@.len() - polled->Err_0@.len()) == polled->Err_0@),
{
    if let Err(TransportError::Backend(msg)) = r {
        if handler_error is None {
            let text = polled->Err_0@;
            assert(msg@.take(msg@.len() - text.len()) =~= "Rusteron poll error: "@);
            assert(msg@.skip(msg@.len() - text.len()) =~= text);
        }
    }
}

/// The result of a poll: an error of the fragment handler wins; otherwise
/// the number of fragments read, or a backend error carrying the client's
/// error text.
pub fn poll_result(handler_error: Option<TransportError>, polled: Result<i32, String>) -> (r: Result<
    usize,
    TransportError,
>)
    ensures
        is_poll_result(handler_error, polled, r),
{
    match handler_error {
        Some(e) => Err(e),
        None => match polled {
            Ok(count) => Ok(count as usize),
            Err(text) => {
                let mut msg = String::from_str("Rusteron poll error: ");
                msg.append(text.as_str());
                Err(TransportError::Backend(msg))
            },
        },
    }
}

} // verus!
