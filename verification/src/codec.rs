//! The codec bridge: dispatching between aggregated bytes and typed values
//! through a pluggable codec table keyed by the negotiated wire format, and
//! the header arithmetic the pipeline needs around it.

use vstd::prelude::*;

use crate::body::AggModel;
use crate::body::RicksponseBody;
use crate::negotiate::ContentType;
use crate::payload_error::PayloadError;
use crate::ricksponse::Ricksponse;

verus! {

/// The codec table a payload type supplies: one decode and one encode
/// function per wire format, keyed by the negotiated identifier. The
/// pipeline performs no format-specific work itself; a failure is reported
/// as the codec's rendered description.
pub trait PayloadCodec: Sized {
    /// Turn aggregated bytes in the given wire format into a value.
    fn decode_payload(bytes: &[u8], content_type: &ContentType) -> Result<Self, String>;

    /// Turn the value into bytes in the given wire format.
    fn encode_payload(&self, content_type: &ContentType) -> Result<Vec<u8>, String>;
}

/// Decode aggregated bytes through the codec table, folding a codec failure
/// into the pipeline taxonomy. Whether the bytes are well-formed is the
/// codec's decision; every failure it reports comes back as `DecodeError`
/// carrying the codec's description.
pub fn decode_body<T: PayloadCodec>(bytes: &Vec<u8>, content_type: &ContentType) -> (r: Result<
    T,
    PayloadError,
>)
    ensures
        r matches Err(e) ==> e matches PayloadError::DecodeError(_),
{
    match T::decode_payload(bytes.as_slice(), content_type) {
        Ok(v) => Ok(v),
        Err(detail) => Err(PayloadError::DecodeError(detail)),
    }
}

/// Encode a value through the codec table, folding a codec failure into the
/// pipeline taxonomy. Whether the value is encodable is the codec's
/// decision; every failure it reports comes back as `EncodeError` carrying
/// the codec's description.
pub fn encode_body<T: PayloadCodec>(value: &T, content_type: &ContentType) -> (r: Result<
    Vec<u8>,
    PayloadError,
>)
    ensures
        r matches Err(e) ==> e matches PayloadError::EncodeError(_),
{
    match value.encode_payload(content_type) {
        Ok(bytes) => Ok(bytes),
        Err(detail) => Err(PayloadError::EncodeError(detail)),
    }
}

/// Read the outcome of aggregation and decode it: an aggregation failure is
/// surfaced as it is, and the aggregated bytes of a pending aggregator are
/// handed to the codec table for its negotiated wire format.
pub fn complete<T: PayloadCodec>(body: RicksponseBody) -> (r: Result<T, PayloadError>)
    ensures
        body@ matches AggModel::Failed(e) ==> r == Err::<T, PayloadError>(e),
        body@ matches AggModel::Pending { .. } ==> (r is Ok || (r matches Err(e) && e matches
            PayloadError::DecodeError(_))),
{
    match body.finish() {
        Err(e) => Err(e),
        Ok((bytes, content_type)) => decode_body(&bytes, &content_type),
    }
}

/// Resolve aggregation into an envelope, as the request extractor does: a
/// decoded payload becomes a bare `Data` envelope; any pipeline failure
/// becomes an `Error` envelope carrying the failure and its rendering.
pub fn extract<T: PayloadCodec>(body: RicksponseBody) -> (r: Ricksponse<T>)
    ensures
        body@ matches AggModel::Failed(e) ==> r matches Ricksponse::Error {
            error: Some(oe),
            http_code: None,
            message: Some(m),
        } && oe.payload == Some(e) && m@ == crate::payload_error::spec_describe(e),
        r is Data ==> (r matches Ricksponse::Data { http_code, message, .. } && http_code is None
            && message is None),
        r is Error ==> (r matches Ricksponse::Error { error, http_code, .. } && http_code is None
            && (error matches Some(oe) && oe.payload is Some)),
{
    Ricksponse::from_payload_result(complete(body))
}

/// A decoded payload, as handed from the extraction future to the handler.
pub struct Payload<T> {
    #[allow(dead_code)]
    data: T,
}

/// The byte of the ASCII digit zero.
pub const DIGIT_ZERO: u8 = 48;

/// The byte of the ASCII plus sign.
pub const PLUS_SIGN: u8 = 43;

/// Whether a byte is an ASCII decimal digit.
pub open spec fn is_digit(b: u8) -> bool {
    DIGIT_ZERO <= b <= DIGIT_ZERO + 9
}

/// The number an all-digit byte sequence denotes in decimal.
pub open spec fn digits_value(s: Seq<u8>) -> int
    decreases s.len(),
{
    if s.len() == 0 {
        0
    } else {
        digits_value(s.drop_last()) * 10 + (s.last() - DIGIT_ZERO)
    }
}

/// The digits of a length-declaring header value: what follows the optional
/// leading plus sign that decimal parsing of an unsigned number allows.
pub open spec fn spec_digits_part(s: Seq<u8>) -> Seq<u8> {
    if s.len() > 0 && s[0] == PLUS_SIGN {
        s.drop_first()
    } else {
        s
    }
}

/// Whether every byte is an ASCII decimal digit.
pub open spec fn all_digits(s: Seq<u8>) -> bool {
    forall|i: int| 0 <= i < s.len() ==> is_digit(#[trigger] s[i])
}

/// What parsing a length-declaring header value yields: the number its
/// digits denote, if there is at least one digit, nothing else follows the
/// optional sign, and the number fits the machine; nothing otherwise.
pub open spec fn spec_content_length(s: Seq<u8>) -> Option<usize> {
    if spec_digits_part(s).len() > 0 && all_digits(spec_digits_part(s)) && digits_value(
        spec_digits_part(s),
    ) <= usize::MAX {
        Some(digits_value(spec_digits_part(s)) as usize)
    } else {
        None
    }
}

/// A number denoted by more digits is never smaller: appending one digit
/// multiplies by ten and adds something non-negative.
proof fn lemma_digits_value_monotonic(s: Seq<u8>, i: int)
    requires
        0 <= i <= s.len(),
        all_digits(s),
    ensures
        0 <= digits_value(s.take(i)) <= digits_value(s),
    decreases s.len() - i,
{
    if i == s.len() {
        assert(s.take(i) =~= s);
        lemma_digits_value_nonneg(s);
    } else {
        lemma_digits_value_monotonic(s, i + 1);
        assert(s.take(i + 1).drop_last() =~= s.take(i));
        assert(s.take(i + 1).last() == s[i]);
        lemma_digits_value_nonneg(s.take(i));
    }
}

/// An all-digit sequence denotes a non-negative number.
proof fn lemma_digits_value_nonneg(s: Seq<u8>)
    requires
        all_digits(s),
    ensures
        digits_value(s) >= 0,
    decreases s.len(),
{
    if s.len() > 0 {
        assert(forall|j: int|
            0 <= j < s.drop_last().len() ==> is_digit(#[trigger] s.drop_last()[j]));
        lemma_digits_value_nonneg(s.drop_last());
    }
}

/// Parse the value of a length-declaring header as a decimal byte count, as
/// decimal parsing of an unsigned number reads it: an optional plus sign,
/// then one or more digits, denoting a number the machine can hold.
pub fn parse_content_length(value: &[u8]) -> (r: Option<usize>)
    ensures
        r == spec_content_length(value@),
{
    let start: usize = if value.len() > 0 && value[0] == PLUS_SIGN {
        1
    } else {
        0
    };
    let ghost digits = if value@.len() > 0 && value@[0] == PLUS_SIGN {
        value@.drop_first()
    } else {
        value@
    };
    proof {
        assert(digits =~= value@.skip(start as int));
    }
    if value.len() == start {
        return None;
    }
    let mut acc: usize = 0;
    let mut i: usize = start;
    while i < value.len()
        invariant
            start <= i <= value.len(),
            digits == (if value@.len() > 0 && value@[0] == PLUS_SIGN {
                value@.drop_first()
            } else {
                value@
            }),
            digits == value@.skip(start as int),
            start <= 1,
            digits.len() == value@.len() - start,
            forall|j: int| 0 <= j < i - start ==> is_digit(#[trigger] digits[j]),
            acc == digits_value(digits.take(i - start)),
        decreases value.len() - i,
    {
        let b = value[i];
        if b < DIGIT_ZERO || b > DIGIT_ZERO + 9 {
            proof {
                assert(spec_digits_part(value@) == digits);
                assert(digits[i - start] == value@[i as int]);
                assert(!is_digit(digits[i - start]));
                assert(!all_digits(digits));
            }
            return None;
        }
        proof {
            assert(digits[i - start] == value@[i as int]);
            assert(digits.take(i + 1 - start).drop_last() =~= digits.take(i - start));
            assert(digits.take(i + 1 - start).last() == digits[i - start]);
        }
        proof {
            assert(is_digit(digits[i - start]));
            assert(digits_value(digits.take(i + 1 - start)) == acc * 10 + (b - DIGIT_ZERO));
        }
        let shifted = match acc.checked_mul(10) {
            Some(v) => v,
            None => {
                proof {
                    lemma_digits_over_capacity(digits, i + 1 - start);
                    assert(spec_digits_part(value@) == digits);
                }
                return None;
            },
        };
        acc = match shifted.checked_add((b - DIGIT_ZERO) as usize) {
            Some(v) => v,
            None => {
                proof {
                    lemma_digits_over_capacity(digits, i + 1 - start);
                    assert(spec_digits_part(value@) == digits);
                }
                return None;
            },
        };
        i = i + 1;
    }
    proof {
        assert(digits.take(value@.len() - start) =~= digits);
    }
    Some(acc)
}

/// Once some prefix of the digits already denotes more than the machine
/// holds, the whole sequence does too, so parsing is owed nothing.
proof fn lemma_digits_over_capacity(digits: Seq<u8>, k: int)
    requires
        0 <= k <= digits.len(),
        forall|j: int| 0 <= j < k ==> is_digit(#[trigger] digits[j]),
        digits_value(digits.take(k)) > usize::MAX,
    ensures
        !all_digits(digits) || digits_value(digits) > usize::MAX,
{
    if all_digits(digits) {
        lemma_digits_value_monotonic(digits, k);
    }
}

} // verus!
