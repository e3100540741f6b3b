use rav1d::intops::{apply_sign, asr, clip, iclip, imax, imin, ulog2};

#[test]
fn iclip_clamps_into_range() {
    assert_eq!(iclip(5, 0, 10), 5);
    assert_eq!(iclip(-3, 0, 10), 0);
    assert_eq!(iclip(42, 0, 10), 10);
    assert_eq!(clip(-7, -2, 3), -2);
    assert_eq!(clip(9, -2, 3), 3);
}

#[test]
fn min_max_and_sign() {
    assert_eq!(imin(3, -4), -4);
    assert_eq!(imax(3, -4), 3);
    assert_eq!(apply_sign(7, -1), -7);
    assert_eq!(apply_sign(7, 0), 7);
    assert_eq!(apply_sign(-7, 5), -7);
}

#[test]
fn arithmetic_shift_rounds_down() {
    assert_eq!(asr(17, 2), 4);
    assert_eq!(asr(-5, 1), -3);
    assert_eq!(asr(-1, 10), -1);
    assert_eq!(asr(i32::MIN, 31), -1);
}

#[test]
fn ulog2_is_floor_log2() {
    assert_eq!(ulog2(1), 0);
    assert_eq!(ulog2(2), 1);
    assert_eq!(ulog2(3), 1);
    assert_eq!(ulog2(1024), 10);
    assert_eq!(ulog2(u32::MAX), 31);
}
