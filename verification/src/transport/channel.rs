//! Type-safe builders for Aeron channel URIs.
//!
//! Hand-written Aeron channel URIs are error-prone: a typo in the
//! `aeron:udp?endpoint=...` syntax is silently accepted by the media driver
//! and surfaces only as a publication that never connects. [`ChannelUri`]
//! produces the canonical strings for the common channel shapes.
use vstd::prelude::*;

use super::error::TransportError;

verus! {

/// Aeron URI structural separators, which must not appear in an endpoint or
/// control address value.
pub open spec fn is_reserved(c: char) -> bool {
    c == '|' || c == '?'
}

/// Whether `value` holds a reserved separator character.
pub open spec fn has_reserved(value: Seq<char>) -> bool {
    exists|i: int| 0 <= i < value.len() && is_reserved(#[trigger] value[i])
}

/// A URI parameter value is accepted when it is non-empty and holds no
/// reserved separator character.
pub open spec fn valid_param(value: Seq<char>) -> bool {
    value.len() > 0 && !has_reserved(value)
}

/// The index of the first reserved character of `value`, counting from
/// `from` (the length of `value` when there is none).
pub open spec fn first_reserved_from(value: Seq<char>, from: int) -> int
    decreases value.len() - from,
{
    if from < 0 || from >= value.len() {
        value.len() as int
    } else if is_reserved(value[from]) {
        from
    } else {
        first_reserved_from(value, from + 1)
    }
}

/// The first reserved character of `value`.
pub open spec fn first_reserved(value: Seq<char>) -> char {
    value[first_reserved_from(value, 0)]
}

/// The message that rejects parameter `value` under the name `label`.
pub open spec fn param_error_text(label: Seq<char>, value: Seq<char>) -> Seq<char> {
    if value.len() == 0 {
        label + " must not be empty"@
    } else {
        label + " contains reserved character '"@ + seq![first_reserved(value)] + "'"@
    }
}

/// `r` is the outcome of validating `value` under the name `label`: `Ok`
/// exactly when the value is valid, else an `Invalid` error that says why.
pub open spec fn is_param_check(label: Seq<char>, value: Seq<char>, r: Result<(), TransportError>) -> bool {
    if valid_param(value) {
        r is Ok
    } else {
        r matches Err(TransportError::Invalid(msg)) && msg@ == param_error_text(label, value)
    }
}

proof fn lemma_first_reserved_skips(value: Seq<char>, from: int)
    requires
        0 <= from <= value.len(),
        forall|j: int| 0 <= j < from ==> !is_reserved(#[trigger] value[j]),
    ensures
        first_reserved_from(value, 0) == first_reserved_from(value, from),
    decreases from,
{
    if from > 0 {
        lemma_first_reserved_skips(value, from - 1);
    }
}

fn is_reserved_char(c: char) -> (r: bool)
    ensures
        r == is_reserved(c),
{
    c == '|' || c == '?'
}

/// Checks that an Aeron URI parameter value is non-empty and holds no
/// reserved separator character.
fn validate_param(label: &str, value: &str) -> (r: Result<(), TransportError>)
    ensures
        is_param_check(label@, value@, r),
        (r is Ok) == (value@.len() > 0 && forall|i: int| 0 <= i < value@.len() ==> value@[i] != '|'
            && value@[i] != '?'),
{
    let n: usize = value.unicode_len();
    if n == 0 {
        let mut msg = String::from_str(label);
        msg.append(" must not be empty");
        return Err(TransportError::Invalid(msg));
    }
    let mut i: usize = 0;
    while i < n
        invariant
            n == value@.len(),
            0 <= i <= n,
            forall|j: int| 0 <= j < i ==> !is_reserved(#[trigger] value@[j]),
        decreases n - i,
    {
        let c = value.get_char(i);
        if is_reserved_char(c) {
            proof {
                lemma_first_reserved_skips(value@, i as int);
                assert(first_reserved_from(value@, i as int) == i as int);
                assert(first_reserved(value@) == c);
                assert(has_reserved(value@));
            }
            let mut msg = String::from_str(label);
            msg.append(" contains reserved character '");
            if c == '|' {
                proof {
                    reveal_strlit("|");
                    assert("|"@ =~= seq![c]);
                }
                msg.append("|");
            } else {
                proof {
                    reveal_strlit("?");
                    assert("?"@ =~= seq![c]);
                }
                msg.append("?");
            }
            msg.append("'");
            return Err(TransportError::Invalid(msg));
        }
        i = i + 1;
    }
    Ok(())
}

/// A parameter value is accepted exactly when it is non-empty and none of
/// its characters is `|` or `?`, whatever its length or its other
/// characters.
pub proof fn lemma_accepted_params(value: Seq<char>)
    ensures
        valid_param(value) == (value.len() > 0 && forall|i: int| 0 <= i < value.len() ==> value[i]
            != '|' && value[i] != '?'),
{
    if value.len() > 0 && !valid_param(value) {
        let i = choose|i: int| 0 <= i < value.len() && is_reserved(#[trigger] value[i]);
        assert(value[i] == '|' || value[i] == '?');
    }
}

/// A refused parameter value is reported under its name: an empty value
/// as empty, any other by the first `|` or `?` in it, in quotes.
pub proof fn lemma_refusal_names_first_separator(label: Seq<char>, value: Seq<char>)
    requires
        !valid_param(value),
    ensures
        value.len() == 0 ==> param_error_text(label, value) == label + " must not be empty"@,
        value.len() > 0 ==> exists|i: int|
            0 <= i < value.len() && (value[i] == '|' || value[i] == '?') && (forall|j: int|
                0 <= j < i ==> value[j] != '|' && value[j] != '?') && param_error_text(label, value)
                == label + " contains reserved character '"@ + seq![value[i]] + "'"@,
{
    if value.len() > 0 {
        let k = choose|k: int| 0 <= k < value.len() && is_reserved(#[trigger] value[k]);
        lemma_first_reserved_found(value, 0, k);
        let i = first_reserved_from(value, 0);
        assert(0 <= i < value.len() && is_reserved(value[i]));
    }
}

proof fn lemma_first_reserved_found(value: Seq<char>, from: int, k: int)
    requires
        0 <= from <= k < value.len(),
        is_reserved(value[k]),
        forall|j: int| 0 <= j < from ==> !is_reserved(#[trigger] value[j]),
    ensures
        ({
            let i = first_reserved_from(value, from);
            &&& from <= i <= k
            &&& is_reserved(value[i])
            &&& forall|j: int| 0 <= j < i ==> !is_reserved(#[trigger] value[j])
        }),
    decreases k - from,
{
    if !is_reserved(value[from]) {
        lemma_first_reserved_found(value, from + 1, k);
    }
}

/// Builders for Aeron channel URI strings.
///
/// Parameterised constructors reject empty values and values holding the
/// Aeron URI separators `|` and `?`, which would corrupt the URI structure.
#[derive(Debug)]
pub struct ChannelUri;

impl ChannelUri {
    /// Returns the IPC channel URI: `aeron:ipc`.
    pub fn ipc() -> (s: String)
        ensures
            s@ == "aeron:ipc"@,
    {
        String::from_str("aeron:ipc")
    }

    /// Returns a UDP unicast channel URI: `aeron:udp?endpoint={endpoint}`.
    ///
    /// Fails with [`TransportError::Invalid`] when `endpoint` is empty or
    /// holds a URI separator character.
    pub fn udp(endpoint: &str) -> (r: Result<String, TransportError>)
        ensures
            valid_param(endpoint@) ==> (r matches Ok(s) && s@ == "aeron:udp?endpoint="@ + endpoint@),
            !valid_param(endpoint@) ==> (r matches Err(TransportError::Invalid(msg)) && msg@
                == param_error_text("endpoint"@, endpoint@)),
    {
        match validate_param("endpoint", endpoint) {
            Err(e) => Err(e),
            Ok(()) => {
                let mut s = String::from_str("aeron:udp?endpoint=");
                s.append(endpoint);
                Ok(s)
            },
        }
    }

    /// Returns an MDC publication channel URI:
    /// `aeron:udp?control={control}|control-mode=dynamic`, the publisher
    /// side of a Multi-Destination-Cast stream.
    ///
    /// Fails with [`TransportError::Invalid`] when `control` is empty or
    /// holds a URI separator character.
    pub fn mdc_publication(control: &str) -> (r: Result<String, TransportError>)
        ensures
            valid_param(control@) ==> (r matches Ok(s) && s@ == "aeron:udp?control="@ + control@
                + "|control-mode=dynamic"@),
            !valid_param(control@) ==> (r matches Err(TransportError::Invalid(msg)) && msg@
                == param_error_text("control"@, control@)),
    {
        match validate_param("control", control) {
            Err(e) => Err(e),
            Ok(()) => {
                let mut s = String::from_str("aeron:udp?control=");
                s.append(control);
                s.append("|control-mode=dynamic");
                Ok(s)
            },
        }
    }

    /// Returns an MDC subscription channel URI:
    /// `aeron:udp?endpoint={endpoint}|control={control}|control-mode=dynamic`,
    /// the subscriber side of a Multi-Destination-Cast stream.
    ///
    /// Fails with [`TransportError::Invalid`] when either parameter is empty
    /// or holds a URI separator character; the endpoint is checked first.
    pub fn mdc_subscription(endpoint: &str, control: &str) -> (r: Result<String, TransportError>)
        ensures
            valid_param(endpoint@) && valid_param(control@) ==> (r matches Ok(s) && s@
                == "aeron:udp?endpoint="@ + endpoint@ + "|control="@ + control@
                + "|control-mode=dynamic"@),
            !valid_param(endpoint@) ==> (r matches Err(TransportError::Invalid(msg)) && msg@
                == param_error_text("endpoint"@, endpoint@)),
            valid_param(endpoint@) && !valid_param(control@) ==> (r matches Err(
                TransportError::Invalid(msg),
            ) && msg@ == param_error_text("control"@, control@)),
    {
        match validate_param("endpoint", endpoint) {
            Err(e) => Err(e),
            Ok(()) => match validate_param("control", control) {
                Err(e) => Err(e),
                Ok(()) => {
                    let mut s = String::from_str("aeron:udp?endpoint=");
                    s.append(endpoint);
                    s.append("|control=");
                    s.append(control);
                    s.append("|control-mode=dynamic");
                    Ok(s)
                },
            },
        }
    }
}

} // verus!
