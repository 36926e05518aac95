use tee::code::{BiometricCode, FingerCode, IrisCode, BYTES_IN_FINGER_CODE, U64_IN_IRIS_CODE};

fn iris(data: [u64; U64_IN_IRIS_CODE], mask: [u64; U64_IN_IRIS_CODE]) -> IrisCode {
    IrisCode { biometric_data: data, mask }
}

#[test]
fn iris_self_match_full_mask() {
    // All-zero data under an all-ones mask: distance 0 over 10240 valid bits,
    // score 0 < 0.4, so the code matches itself.
    let a = iris([0u64; U64_IN_IRIS_CODE], [u64::MAX; U64_IN_IRIS_CODE]);
    assert!(a.do_match(&a));
}

#[test]
fn iris_self_match_random_data() {
    let mut data = [0u64; U64_IN_IRIS_CODE];
    for (i, w) in data.iter_mut().enumerate() {
        *w = (i as u64).wrapping_mul(0x9e37_79b9_7f4a_7c15).rotate_left(17);
    }
    let a = iris(data, [u64::MAX; U64_IN_IRIS_CODE]);
    assert!(a.do_match(&a));
}

#[test]
fn iris_self_match_empty_mask() {
    // Degenerate policy: with both masks entirely zero the score is 0, which
    // still counts as a match.
    let a = iris([0x5555_5555_5555_5555; U64_IN_IRIS_CODE], [0u64; U64_IN_IRIS_CODE]);
    assert!(a.do_match(&a));
}

#[test]
fn iris_single_differing_bit_rejected() {
    // One disagreeing bit among 10240 valid ones: the score is
    // 10000 * 1 / 10241, far above 0.4, so the pair does not match.
    let mut data = [0u64; U64_IN_IRIS_CODE];
    data[0] = 1;
    let a = iris(data, [u64::MAX; U64_IN_IRIS_CODE]);
    let b = iris([0u64; U64_IN_IRIS_CODE], [u64::MAX; U64_IN_IRIS_CODE]);
    assert!(!a.do_match(&b));
    assert!(!b.do_match(&a));
}

#[test]
fn iris_difference_outside_mask_ignored() {
    // The codes disagree in every bit of the first word, but both masks
    // exclude that word, so the distance is 0 and the pair matches.
    let mut data = [0u64; U64_IN_IRIS_CODE];
    data[0] = u64::MAX;
    let mut mask = [u64::MAX; U64_IN_IRIS_CODE];
    mask[0] = 0;
    let a = iris(data, mask);
    let b = iris([0u64; U64_IN_IRIS_CODE], mask);
    assert!(a.do_match(&b));
}

#[test]
fn iris_match_symmetric() {
    let mut data_a = [0u64; U64_IN_IRIS_CODE];
    let mut data_b = [0u64; U64_IN_IRIS_CODE];
    let mut mask_a = [u64::MAX; U64_IN_IRIS_CODE];
    let mut mask_b = [u64::MAX; U64_IN_IRIS_CODE];
    data_a[3] = 0xdead_beef;
    data_b[7] = 0x1234_5678;
    mask_a[11] = 0x0f0f_0f0f_0f0f_0f0f;
    mask_b[13] = 0xf0f0_f0f0_f0f0_f0f0;
    let a = iris(data_a, mask_a);
    let b = iris(data_b, mask_b);
    assert_eq!(a.do_match(&b), b.do_match(&a));
}

#[test]
fn finger_self_match() {
    let mut data = [0u8; BYTES_IN_FINGER_CODE];
    for (i, b) in data.iter_mut().enumerate() {
        *b = (i % 251) as u8;
    }
    let a = FingerCode { biometric_data: data };
    assert!(a.do_match(&a));
}

#[test]
fn finger_match_symmetric() {
    let mut data_a = [0u8; BYTES_IN_FINGER_CODE];
    let mut data_b = [0u8; BYTES_IN_FINGER_CODE];
    for i in 0..BYTES_IN_FINGER_CODE {
        data_a[i] = (i % 256) as u8;
        data_b[i] = ((i * 7 + 3) % 256) as u8;
    }
    let a = FingerCode { biometric_data: data_a };
    let b = FingerCode { biometric_data: data_b };
    assert_eq!(a.do_match(&b), b.do_match(&a));
}

#[test]
fn finger_ssd_exactly_at_threshold_rejected() {
    // 100 bytes differing by 100 each: SSD = 100 * 100^2 = 1,000,000, which
    // is not strictly below the threshold, so the pair does not match.
    let mut data = [0u8; BYTES_IN_FINGER_CODE];
    for b in data.iter_mut().take(100) {
        *b = 100;
    }
    let a = FingerCode { biometric_data: data };
    let b = FingerCode { biometric_data: [0u8; BYTES_IN_FINGER_CODE] };
    assert!(!a.do_match(&b));
}

#[test]
fn finger_ssd_just_below_threshold_accepted() {
    // 99 bytes differing by 100 each: SSD = 990,000 < 1,000,000.
    let mut data = [0u8; BYTES_IN_FINGER_CODE];
    for b in data.iter_mut().take(99) {
        *b = 100;
    }
    let a = FingerCode { biometric_data: data };
    let b = FingerCode { biometric_data: [0u8; BYTES_IN_FINGER_CODE] };
    assert!(a.do_match(&b));
}

#[test]
fn finger_all_far_apart_rejected() {
    // All-zero code against an all-255 probe: SSD = 640 * 255^2 = 41,616,000,
    // far above the threshold.
    let a = FingerCode { biometric_data: [0u8; BYTES_IN_FINGER_CODE] };
    let b = FingerCode { biometric_data: [255u8; BYTES_IN_FINGER_CODE] };
    assert!(!a.do_match(&b));
}
