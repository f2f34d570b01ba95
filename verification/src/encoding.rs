//! Error-encoding translation.
//!
//! The kernel signals failure through a dedicated error-flag register rather
//! than by returning an already-negative word. This module folds that
//! two-register answer into the one-word convention shared by every
//! architecture backend: on success the raw result is returned unchanged; on
//! failure the returned word is the two's-complement negation of the error
//! magnitude the kernel reported. Callers above any backend then test for
//! failure with one uniform check: the word is negative when read as signed.

use vstd::prelude::*;

verus! {

/// Greatest raw result that is still non-negative when the returned word is
/// read as a signed machine word.
pub const MAX_SUCCESS_RESULT: u64 = 0x7FFF_FFFF_FFFF_FFFF;

/// Greatest error magnitude whose negation is still negative when read as a
/// signed machine word: the magnitude of the most negative representable
/// value.
pub const MAX_ERROR_MAGNITUDE: u64 = 0x8000_0000_0000_0000;

/// Two's-complement negation of a machine word, with the wrap-around of the
/// hardware: negating zero gives zero, and negating `MAX_ERROR_MAGNITUDE`
/// gives it back unchanged.
pub open spec fn twos_complement_neg(x: u64) -> u64 {
    if x == 0 {
        0u64
    } else {
        (u64::MAX - x + 1) as u64
    }
}

/// The word handed to the caller for a trap whose error-flag register read
/// `error` and whose result register read `raw`.
pub open spec fn encoded_word(error: bool, raw: u64) -> u64 {
    if error {
        twos_complement_neg(raw)
    } else {
        raw
    }
}

/// A word is in the failure range exactly when it is negative read as signed.
pub open spec fn is_failure_word(w: u64) -> bool {
    w > MAX_SUCCESS_RESULT
}

/// Folds the kernel's two-register answer into the shared one-word
/// convention: the raw result unchanged on success, the two's-complement
/// negation of the reported magnitude on failure.
pub fn encode_result(error: bool, raw: u64) -> (w: u64)
    ensures
        w == encoded_word(error, raw),
        !error ==> w == raw,
        error ==> w == twos_complement_neg(raw),
{
    if error {
        if raw == 0 {
            0
        } else {
            u64::MAX - raw + 1
        }
    } else {
        raw
    }
}

/// The uniform failure test of the shared convention: true exactly when the
/// encoded word lies in the failure range.
pub fn is_failure(w: u64) -> (b: bool)
    ensures
        b == is_failure_word(w),
{
    w > MAX_SUCCESS_RESULT
}

/// Recovers the kernel's error magnitude from an encoded word: `Some` exactly
/// when the word is in the failure range, holding the magnitude whose
/// negation the word is.
pub fn error_magnitude(w: u64) -> (m: Option<u64>)
    ensures
        m is Some <==> is_failure_word(w),
        is_failure_word(w) ==> m == Some(twos_complement_neg(w)),
        !is_failure_word(w) ==> m is None,
{
    if w > MAX_SUCCESS_RESULT {
        Some(u64::MAX - w + 1)
    } else {
        None
    }
}

/// Every representable error magnitude round-trips through the encoding: its
/// encoded word lies in the failure range, and negating that word restores
/// the magnitude. In particular a magnitude equal to the most negative
/// representable value wraps to itself instead of overflowing.
pub proof fn lemma_error_round_trip(m: u64)
    requires
        1 <= m <= MAX_ERROR_MAGNITUDE,
    ensures
        is_failure_word(encoded_word(true, m)),
        twos_complement_neg(encoded_word(true, m)) == m,
{
}

/// Every raw result in the non-negative range passes through the encoding
/// unchanged and is never mistaken for a failure.
pub proof fn lemma_success_unambiguous(raw: u64)
    requires
        raw <= MAX_SUCCESS_RESULT,
    ensures
        encoded_word(false, raw) == raw,
        !is_failure_word(encoded_word(false, raw)),
{
}

} // verus!
