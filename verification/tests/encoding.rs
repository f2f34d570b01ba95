use syscalls::encoding::encode_result;
use syscalls::encoding::error_magnitude;
use syscalls::encoding::is_failure;
use syscalls::encoding::MAX_ERROR_MAGNITUDE;
use syscalls::encoding::MAX_SUCCESS_RESULT;

#[test]
fn success_passes_raw_result_unchanged() {
    assert_eq!(encode_result(false, 0), 0);
    assert_eq!(encode_result(false, 1), 1);
    assert_eq!(encode_result(false, 4096), 4096);
}

#[test]
fn failure_returns_negated_magnitude() {
    // A magnitude of 9 (the classic bad-descriptor error) encodes as -9.
    assert_eq!(encode_result(true, 9), (-9i64) as u64);
    assert_eq!(encode_result(true, 9), 0xFFFF_FFFF_FFFF_FFF7);
    assert_eq!(encode_result(true, 1), (-1i64) as u64);
    assert_eq!(encode_result(true, 38), (-38i64) as u64);
}

#[test]
fn failure_words_are_negative_as_signed() {
    assert!(is_failure(encode_result(true, 1)));
    assert!(is_failure(encode_result(true, 4095)));
    assert!(!is_failure(encode_result(false, 0)));
    assert!(!is_failure(encode_result(false, MAX_SUCCESS_RESULT)));
}

#[test]
fn failure_range_boundary() {
    assert!(!is_failure(MAX_SUCCESS_RESULT));
    assert!(is_failure(MAX_SUCCESS_RESULT + 1));
    assert!(is_failure(u64::MAX));
}

#[test]
fn magnitude_round_trips_through_encoding() {
    assert_eq!(error_magnitude(encode_result(true, 9)), Some(9));
    assert_eq!(error_magnitude(encode_result(true, 4095)), Some(4095));
    assert_eq!(error_magnitude(encode_result(false, 17)), None);
}

#[test]
fn maximum_success_result_round_trips() {
    // The largest non-negative raw result survives encoding unchanged and is
    // not mistaken for a failure.
    let w = encode_result(false, MAX_SUCCESS_RESULT);
    assert_eq!(w, MAX_SUCCESS_RESULT);
    assert!(!is_failure(w));
    assert_eq!(error_magnitude(w), None);
}

#[test]
fn maximum_error_magnitude_round_trips() {
    // The magnitude of the most negative representable value negates to
    // itself under two's complement: still in the failure range, no overflow.
    let w = encode_result(true, MAX_ERROR_MAGNITUDE);
    assert_eq!(w, MAX_ERROR_MAGNITUDE);
    assert!(is_failure(w));
    assert_eq!(error_magnitude(w), Some(MAX_ERROR_MAGNITUDE));
}

#[test]
fn encoding_is_deterministic() {
    // Identical flag and raw words always give the identical encoded word.
    assert_eq!(encode_result(true, 11), encode_result(true, 11));
    assert_eq!(encode_result(false, 11), encode_result(false, 11));
}
