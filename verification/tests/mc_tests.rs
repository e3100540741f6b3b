use rav1d::bitdepth::BitDepth;
use rav1d::mc::{
    prep_8tap_rust, prep_8tap_scaled_rust, prep_bilin_rust, prep_bilin_scaled_rust, prep_rust, put_8tap_rust,
    put_8tap_scaled_rust, put_bilin_rust, put_bilin_scaled_rust, put_rust, get_filter, Rav1dFilterMode, SubpelFilters,
};

fn pixels(n: usize, seed: usize, max: usize) -> Vec<u16> {
    (0..n).map(|i| ((i * 37 + seed * 11 + 5) % (max + 1)) as u16).collect()
}

fn tmpvals(n: usize, seed: i32) -> Vec<i16> {
    (0..n as i32).map(|i| ((i * 1237 + seed * 311) % 20000 - 9000) as i16).collect()
}

fn filters() -> SubpelFilters {
    let mut f = [[[0i8; 8]; 15]; 6];
    for s in 0..6i32 {
        for j in 0..15i32 {
            let m = j + 1;
            let taps = [(s - 2).rem_euclid(3) - 1, 2 - s % 2, -5 - m % 3, 64 - 4 * m + s, 4 * m - s + 1, -(m % 4) - 2, 1 + s % 2, -(s % 2)];
            for k in 0..8 {
                f[s as usize][j as usize][k] = taps[k] as i8;
            }
        }
    }
    f
}

#[test]
fn get_filter_selects_set_and_position() {
    assert_eq!(get_filter(0, 8, Rav1dFilterMode::Sharp8Tap), None);
    assert_eq!(get_filter(5, 8, Rav1dFilterMode::Sharp8Tap), Some((2, 4)));
    assert_eq!(get_filter(5, 4, Rav1dFilterMode::Sharp8Tap), Some((3, 4)));
    assert_eq!(get_filter(15, 2, Rav1dFilterMode::Smooth8Tap), Some((4, 14)));
    assert_eq!(get_filter(1, 16, Rav1dFilterMode::Bilinear), Some((3, 0)));
}

#[test]
fn put_copies_block() {
    let src = pixels(40, 1, 255);
    let mut dst = vec![0u16; 12];
    put_rust(&mut dst, 1, 6, &src, 3, 10, 4, 2);
    assert_eq!(dst, vec![0, src[3], src[4], src[5], src[6], 0, 0, src[13], src[14], src[15], src[16], 0]);
}

#[test]
fn prep_scales_and_biases() {
    let src: Vec<u16> = vec![0, 1, 1023, 512, 9, 9];
    let mut tmp = vec![0i16; 4];
    prep_rust(&mut tmp, &src, 0, 3, 2, 2, BitDepth::Bpc10);
    assert_eq!(tmp, vec![-8192, 16 - 8192, 512 * 16 - 8192, 9 * 16 - 8192]);
    let mut tmp = vec![0i16; 2];
    prep_rust(&mut tmp, &src, 1, 3, 2, 1, BitDepth::Bpc12);
    assert_eq!(tmp, vec![4 - 8192, 1023 * 4 - 8192]);
}

#[test]
fn put_8tap_both_directions_8bit() {
    let src = pixels(384, 1, 255);
    let mut dst = vec![7u16; 90];
    put_8tap_rust(&mut dst, 0, 10, &src, 101, 24, 8, 4, 5, 9, (Rav1dFilterMode::Regular8Tap, Rav1dFilterMode::Sharp8Tap), &filters(), BitDepth::Bpc8);
    assert_eq!(dst, vec![
        79, 130, 117, 73, 116, 156, 153, 81, 7, 7, 81, 129, 119, 67, 104, 136, 128, 84, 7, 7, 67, 118,
        102, 51, 105, 136, 126, 70, 7, 7, 67, 110, 150, 148, 75, 128, 116, 69, 7, 7, 7, 7, 7, 7, 7, 7,
        7, 7, 7, 7, 7, 7, 7, 7, 7, 7, 7, 7, 7, 7, 7, 7, 7, 7, 7, 7, 7, 7, 7, 7, 7, 7, 7, 7, 7, 7, 7, 7,
        7, 7, 7, 7, 7, 7, 7, 7, 7, 7, 7, 7,
    ]);
}

#[test]
fn put_8tap_horizontal_10bit() {
    let src = pixels(384, 2, 1023);
    let mut dst = vec![7u16; 90];
    put_8tap_rust(&mut dst, 0, 10, &src, 101, 24, 4, 8, 3, 0, (Rav1dFilterMode::Smooth8Tap, Rav1dFilterMode::Regular8Tap), &filters(), BitDepth::Bpc10);
    assert_eq!(dst, vec![
        638, 672, 706, 740, 7, 7, 7, 7, 7, 7, 513, 547, 581, 615, 7, 7, 7, 7, 7, 7, 387, 421, 455, 490,
        7, 7, 7, 7, 7, 7, 262, 296, 330, 364, 7, 7, 7, 7, 7, 7, 136, 171, 205, 239, 7, 7, 7, 7, 7, 7,
        0, 93, 95, 113, 7, 7, 7, 7, 7, 7, 830, 848, 962, 852, 7, 7, 7, 7, 7, 7, 704, 738, 773, 807, 7,
        7, 7, 7, 7, 7, 7, 7, 7, 7, 7, 7, 7, 7, 7, 7,
    ]);
}

#[test]
fn put_8tap_vertical_12bit() {
    let src = pixels(384, 3, 4095);
    let mut dst = vec![7u16; 90];
    put_8tap_rust(&mut dst, 0, 10, &src, 101, 24, 8, 2, 0, 12, (Rav1dFilterMode::Regular8Tap, Rav1dFilterMode::Smooth8Tap), &filters(), BitDepth::Bpc12);
    assert_eq!(dst, vec![
        1424, 1460, 1495, 1531, 1567, 1603, 1639, 1675, 7, 7, 1004, 1040, 1076, 1112, 1147, 1183, 1219,
        1255, 7, 7, 7, 7, 7, 7, 7, 7, 7, 7, 7, 7, 7, 7, 7, 7, 7, 7, 7, 7, 7, 7, 7, 7, 7, 7, 7, 7, 7, 7,
        7, 7, 7, 7, 7, 7, 7, 7, 7, 7, 7, 7, 7, 7, 7, 7, 7, 7, 7, 7, 7, 7, 7, 7, 7, 7, 7, 7, 7, 7, 7, 7,
        7, 7, 7, 7, 7, 7, 7, 7, 7, 7,
    ]);
}

#[test]
fn put_8tap_integer_position_copies() {
    let src = pixels(384, 4, 1023);
    let mut dst = vec![7u16; 90];
    put_8tap_rust(&mut dst, 0, 10, &src, 101, 24, 8, 4, 0, 0, (Rav1dFilterMode::Sharp8Tap, Rav1dFilterMode::Sharp8Tap), &filters(), BitDepth::Bpc10);
    assert_eq!(dst, vec![
        714, 751, 788, 825, 862, 899, 936, 973, 7, 7, 578, 615, 652, 689, 726, 763, 800, 837, 7, 7,
        442, 479, 516, 553, 590, 627, 664, 701, 7, 7, 306, 343, 380, 417, 454, 491, 528, 565, 7, 7, 7,
        7, 7, 7, 7, 7, 7, 7, 7, 7, 7, 7, 7, 7, 7, 7, 7, 7, 7, 7, 7, 7, 7, 7, 7, 7, 7, 7, 7, 7, 7, 7, 7,
        7, 7, 7, 7, 7, 7, 7, 7, 7, 7, 7, 7, 7, 7, 7, 7, 7,
    ]);
}

#[test]
fn put_8tap_small_block_filters() {
    let src = pixels(384, 5, 255);
    let mut dst = vec![7u16; 90];
    put_8tap_rust(&mut dst, 0, 10, &src, 101, 24, 2, 4, 7, 2, (Rav1dFilterMode::Sharp8Tap, Rav1dFilterMode::Smooth8Tap), &filters(), BitDepth::Bpc8);
    assert_eq!(dst, vec![
        192, 125, 7, 7, 7, 7, 7, 7, 7, 7, 70, 105, 7, 7, 7, 7, 7, 7, 7, 7, 184, 110, 7, 7, 7, 7, 7, 7,
        7, 7, 62, 99, 7, 7, 7, 7, 7, 7, 7, 7, 7, 7, 7, 7, 7, 7, 7, 7, 7, 7, 7, 7, 7, 7, 7, 7, 7, 7, 7,
        7, 7, 7, 7, 7, 7, 7, 7, 7, 7, 7, 7, 7, 7, 7, 7, 7, 7, 7, 7, 7, 7, 7, 7, 7, 7, 7, 7, 7, 7, 7,
    ]);
}

#[test]
fn prep_8tap_both_directions_8bit() {
    let src = pixels(384, 1, 255);
    let mut tmp = vec![5i16; 36];
    prep_8tap_rust(&mut tmp, &src, 101, 24, 8, 4, 5, 9, (Rav1dFilterMode::Regular8Tap, Rav1dFilterMode::Sharp8Tap), &filters(), BitDepth::Bpc8);
    assert_eq!(tmp, vec![
        1264, 2084, 1872, 1167, 1849, 2493, 2453, 1303, 1298, 2064, 1902, 1077, 1663, 2173, 2053, 1337,
        1079, 1890, 1639, 809, 1673, 2168, 2020, 1118, 1067, 1757, 2400, 2360, 1207, 2051, 1862, 1106,
        5, 5, 5, 5,
    ]);
}

#[test]
fn prep_8tap_horizontal_10bit() {
    let src = pixels(384, 2, 1023);
    let mut tmp = vec![5i16; 36];
    prep_8tap_rust(&mut tmp, &src, 101, 24, 4, 8, 3, 0, (Rav1dFilterMode::Smooth8Tap, Rav1dFilterMode::Regular8Tap), &filters(), BitDepth::Bpc10);
    assert_eq!(tmp, vec![
        2015, 2561, 3107, 3652, 9, 555, 1101, 1646, -1997, -1451, -905, -360, -4003, -3457, -2911,
        -2366, -6009, -5463, -4917, -4372, -8527, -6701, -6667, -6378, 5083, 5373, 7199, 5440, 3077,
        3623, 4169, 4714, 5, 5, 5, 5,
    ]);
}

#[test]
fn prep_8tap_vertical_12bit() {
    let src = pixels(384, 3, 4095);
    let mut tmp = vec![5i16; 20];
    prep_8tap_rust(&mut tmp, &src, 101, 24, 8, 2, 0, 12, (Rav1dFilterMode::Regular8Tap, Rav1dFilterMode::Smooth8Tap), &filters(), BitDepth::Bpc12);
    assert_eq!(tmp, vec![
        -2497, -2353, -2210, -2067, -1923, -1780, -1637, -1493, -4176, -4032, -3889, -3746, -3602,
        -3459, -3316, -3172, 5, 5, 5, 5,
    ]);
}

#[test]
fn prep_8tap_integer_position_12bit() {
    let src = pixels(384, 6, 4095);
    let mut tmp = vec![5i16; 20];
    prep_8tap_rust(&mut tmp, &src, 101, 24, 4, 4, 0, 0, (Rav1dFilterMode::Regular8Tap, Rav1dFilterMode::Regular8Tap), &filters(), BitDepth::Bpc12);
    assert_eq!(tmp, vec![
        7040, 7188, 7336, 7484, -5792, -5644, -5496, -5348, -2240, -2092, -1944, -1796, 1312, 1460,
        1608, 1756, 5, 5, 5, 5,
    ]);
}

#[test]
fn prep_8tap_both_directions_10bit() {
    let src = pixels(384, 7, 1023);
    let mut tmp = vec![5i16; 20];
    prep_8tap_rust(&mut tmp, &src, 101, 24, 4, 4, 11, 6, (Rav1dFilterMode::Sharp8Tap, Rav1dFilterMode::Smooth8Tap), &filters(), BitDepth::Bpc10);
    assert_eq!(tmp, vec![
        822, 1156, 1589, 2897, -531, -161, 384, 520, -2132, -1667, -1169, -861, -3673, -3348, -2963,
        -2458, 5, 5, 5, 5,
    ]);
}

#[test]
fn put_8tap_scaled_8bit() {
    let src = pixels(384, 8, 255);
    let mut dst = vec![7u16; 90];
    put_8tap_scaled_rust(&mut dst, 0, 10, &src, 101, 24, 8, 4, 100, 700, 1536, 1280, (Rav1dFilterMode::Sharp8Tap, Rav1dFilterMode::Regular8Tap), &filters(), BitDepth::Bpc8);
    assert_eq!(dst, vec![
        127, 90, 138, 60, 109, 105, 120, 95, 7, 7, 169, 31, 79, 93, 150, 97, 60, 74, 7, 7, 76, 136,
        171, 93, 54, 110, 130, 189, 7, 7, 146, 109, 96, 103, 112, 165, 51, 116, 7, 7, 7, 7, 7, 7, 7, 7,
        7, 7, 7, 7, 7, 7, 7, 7, 7, 7, 7, 7, 7, 7, 7, 7, 7, 7, 7, 7, 7, 7, 7, 7, 7, 7, 7, 7, 7, 7, 7, 7,
        7, 7, 7, 7, 7, 7, 7, 7, 7, 7, 7, 7,
    ]);
}

#[test]
fn put_8tap_scaled_unit_steps_12bit() {
    let src = pixels(384, 9, 4095);
    let mut dst = vec![7u16; 90];
    put_8tap_scaled_rust(&mut dst, 0, 10, &src, 101, 24, 8, 4, 0, 0, 1024, 1024, (Rav1dFilterMode::Smooth8Tap, Rav1dFilterMode::Smooth8Tap), &filters(), BitDepth::Bpc12);
    assert_eq!(dst, vec![
        3841, 3878, 3915, 3952, 3989, 4026, 4063, 4, 7, 7, 633, 670, 707, 744, 781, 818, 855, 892, 7,
        7, 1521, 1558, 1595, 1632, 1669, 1706, 1743, 1780, 7, 7, 2409, 2446, 2483, 2520, 2557, 2594,
        2631, 2668, 7, 7, 7, 7, 7, 7, 7, 7, 7, 7, 7, 7, 7, 7, 7, 7, 7, 7, 7, 7, 7, 7, 7, 7, 7, 7, 7, 7,
        7, 7, 7, 7, 7, 7, 7, 7, 7, 7, 7, 7, 7, 7, 7, 7, 7, 7, 7, 7, 7, 7, 7, 7,
    ]);
}

#[test]
fn prep_8tap_scaled_10bit() {
    let src = pixels(384, 10, 1023);
    let mut tmp = vec![0i16; 32];
    prep_8tap_scaled_rust(&mut tmp, &src, 101, 24, 8, 4, 100, 700, 1536, 1280, (Rav1dFilterMode::Regular8Tap, Rav1dFilterMode::Sharp8Tap), &filters(), BitDepth::Bpc10);
    assert_eq!(tmp, vec![
        731, 1584, 3693, 4391, 4732, -775, 446, -4288, -1513, -652, -329, 593, 1204, 3778, 4293, 3611,
        -3303, -2964, -2327, -1343, -658, 214, 791, 1531, -6259, -4505, -3864, -3324, -2847, -2023,
        -1132, -274,
    ]);
}

#[test]
fn prep_8tap_scaled_8bit_small() {
    let src = pixels(384, 11, 255);
    let mut tmp = vec![0i16; 8];
    prep_8tap_scaled_rust(&mut tmp, &src, 101, 24, 4, 2, 900, 64, 1100, 2000, (Rav1dFilterMode::Smooth8Tap, Rav1dFilterMode::Regular8Tap), &filters(), BitDepth::Bpc8);
    assert_eq!(tmp, vec![404, 1297, 2259, 2267, 290, 1285, 1888, 2233]);
}

#[test]
fn put_bilin_both_directions_8bit() {
    let src = pixels(384, 12, 255);
    let mut dst = vec![7u16; 90];
    put_bilin_rust(&mut dst, 0, 10, &src, 101, 24, 8, 4, 5, 3, BitDepth::Bpc8);
    assert_eq!(dst, vec![
        68, 105, 127, 131, 168, 140, 34, 71, 7, 7, 140, 177, 149, 43, 80, 117, 139, 143, 7, 7, 52, 89,
        126, 148, 152, 189, 161, 55, 7, 7, 124, 161, 198, 170, 64, 101, 123, 127, 7, 7, 7, 7, 7, 7, 7,
        7, 7, 7, 7, 7, 7, 7, 7, 7, 7, 7, 7, 7, 7, 7, 7, 7, 7, 7, 7, 7, 7, 7, 7, 7, 7, 7, 7, 7, 7, 7, 7,
        7, 7, 7, 7, 7, 7, 7, 7, 7, 7, 7, 7, 7,
    ]);
}

#[test]
fn put_bilin_horizontal_10bit() {
    let src = pixels(384, 13, 1023);
    let mut dst = vec![7u16; 90];
    put_bilin_rust(&mut dst, 0, 10, &src, 101, 24, 4, 4, 7, 0, BitDepth::Bpc10);
    assert_eq!(dst, vec![
        829, 866, 903, 940, 7, 7, 7, 7, 7, 7, 693, 730, 767, 804, 7, 7, 7, 7, 7, 7, 557, 594, 631, 668,
        7, 7, 7, 7, 7, 7, 421, 458, 495, 532, 7, 7, 7, 7, 7, 7, 7, 7, 7, 7, 7, 7, 7, 7, 7, 7, 7, 7, 7,
        7, 7, 7, 7, 7, 7, 7, 7, 7, 7, 7, 7, 7, 7, 7, 7, 7, 7, 7, 7, 7, 7, 7, 7, 7, 7, 7, 7, 7, 7, 7, 7,
        7, 7, 7, 7, 7,
    ]);
}

#[test]
fn put_bilin_vertical_12bit() {
    let src = pixels(384, 14, 4095);
    let mut dst = vec![7u16; 90];
    put_bilin_rust(&mut dst, 0, 10, &src, 101, 24, 8, 2, 0, 11, BitDepth::Bpc12);
    assert_eq!(dst, vec![
        1691, 1728, 1765, 1802, 1839, 1876, 633, 670, 7, 7, 1299, 1336, 1373, 1410, 1447, 1484, 1521,
        1558, 7, 7, 7, 7, 7, 7, 7, 7, 7, 7, 7, 7, 7, 7, 7, 7, 7, 7, 7, 7, 7, 7, 7, 7, 7, 7, 7, 7, 7, 7,
        7, 7, 7, 7, 7, 7, 7, 7, 7, 7, 7, 7, 7, 7, 7, 7, 7, 7, 7, 7, 7, 7, 7, 7, 7, 7, 7, 7, 7, 7, 7, 7,
        7, 7, 7, 7, 7, 7, 7, 7, 7, 7,
    ]);
}

#[test]
fn put_bilin_integer_position_copies() {
    let src = pixels(384, 15, 255);
    let mut dst = vec![7u16; 90];
    put_bilin_rust(&mut dst, 0, 10, &src, 101, 24, 4, 2, 0, 0, BitDepth::Bpc8);
    assert_eq!(dst, vec![
        67, 104, 141, 178, 7, 7, 7, 7, 7, 7, 187, 224, 5, 42, 7, 7, 7, 7, 7, 7, 7, 7, 7, 7, 7, 7, 7, 7,
        7, 7, 7, 7, 7, 7, 7, 7, 7, 7, 7, 7, 7, 7, 7, 7, 7, 7, 7, 7, 7, 7, 7, 7, 7, 7, 7, 7, 7, 7, 7, 7,
        7, 7, 7, 7, 7, 7, 7, 7, 7, 7, 7, 7, 7, 7, 7, 7, 7, 7, 7, 7, 7, 7, 7, 7, 7, 7, 7, 7, 7, 7,
    ]);
}

#[test]
fn prep_bilin_both_directions_10bit() {
    let src = pixels(384, 16, 1023);
    let mut tmp = vec![0i16; 32];
    prep_bilin_rust(&mut tmp, &src, 101, 24, 8, 4, 5, 3, BitDepth::Bpc10);
    assert_eq!(tmp, vec![
        5121, 5713, 6305, 6897, 3329, -5231, -4639, -4047, 2945, 3537, 4129, 4721, 5313, 5905, 6497,
        7089, 769, 1361, 1953, 2545, 3137, 3729, 4321, 4913, -1407, -815, -223, 369, 961, 1553, 2145,
        2737,
    ]);
}

#[test]
fn prep_bilin_horizontal_8bit() {
    let src = pixels(384, 17, 255);
    let mut tmp = vec![0i16; 16];
    prep_bilin_rust(&mut tmp, &src, 101, 24, 4, 4, 7, 0, BitDepth::Bpc8);
    assert_eq!(tmp, vec![
        1683, 2275, 2867, 3459, 3603, 2403, 691, 1283, 1427, 2019, 2611, 3203, 3347, 2147, 435, 1027,
    ]);
}

#[test]
fn prep_bilin_vertical_12bit() {
    let src = pixels(384, 18, 4095);
    let mut tmp = vec![0i16; 16];
    prep_bilin_rust(&mut tmp, &src, 101, 24, 8, 2, 0, 11, BitDepth::Bpc12);
    assert_eq!(tmp, vec![
        -1254, -1106, -958, -810, -662, -5634, -5486, -5338, -2822, -2674, -2526, -2378, -2230, -2082,
        -1934, -1786,
    ]);
}

#[test]
fn prep_bilin_integer_position_10bit() {
    let src = pixels(384, 19, 1023);
    let mut tmp = vec![0i16; 8];
    prep_bilin_rust(&mut tmp, &src, 101, 24, 4, 2, 0, 0, BitDepth::Bpc10);
    assert_eq!(tmp, vec![5872, 6464, 7056, 7648, 3696, 4288, 4880, 5472]);
}

#[test]
fn put_bilin_scaled_8bit() {
    let src = pixels(384, 20, 255);
    let mut dst = vec![7u16; 90];
    put_bilin_scaled_rust(&mut dst, 0, 10, &src, 101, 24, 8, 4, 300, 900, 1300, 1100, BitDepth::Bpc8);
    assert_eq!(dst, vec![
        180, 61, 107, 121, 168, 216, 66, 85, 7, 7, 120, 156, 203, 234, 55, 104, 136, 180, 7, 7, 171,
        28, 74, 120, 167, 215, 37, 52, 7, 7, 107, 146, 186, 217, 38, 87, 133, 163, 7, 7, 7, 7, 7, 7, 7,
        7, 7, 7, 7, 7, 7, 7, 7, 7, 7, 7, 7, 7, 7, 7, 7, 7, 7, 7, 7, 7, 7, 7, 7, 7, 7, 7, 7, 7, 7, 7, 7,
        7, 7, 7, 7, 7, 7, 7, 7, 7, 7, 7, 7, 7,
    ]);
}

#[test]
fn prep_bilin_scaled_12bit() {
    let src = pixels(384, 21, 4095);
    let mut tmp = vec![0i16; 32];
    prep_bilin_scaled_rust(&mut tmp, &src, 101, 24, 8, 4, 300, 900, 1300, 1100, BitDepth::Bpc12);
    assert_eq!(tmp, vec![
        -3491, -3297, -3112, -4975, -4790, -4595, -4410, -4225, -1765, -1571, -1386, -1201, -1016,
        -821, -636, -451, 2009, 2203, 2388, 2573, 2758, 2953, 3138, 3323, 4759, 4953, 5138, 5323, 5508,
        5703, 5888, 6073,
    ]);
}

#[test]
fn scaled_unit_steps_copy_the_reference() {
    let src = pixels(384, 22, 1023);
    let mut dst = vec![0u16; 90];
    put_8tap_scaled_rust(&mut dst, 0, 10, &src, 101, 24, 8, 4, 0, 0, 1024, 1024, (Rav1dFilterMode::Sharp8Tap, Rav1dFilterMode::Smooth8Tap), &filters(), BitDepth::Bpc10);
    let mut bil = vec![0u16; 90];
    put_bilin_scaled_rust(&mut bil, 0, 10, &src, 101, 24, 8, 4, 0, 0, 1024, 1024, BitDepth::Bpc10);
    for y in 0..4 {
        for x in 0..8 {
            assert_eq!(dst[y * 10 + x], src[101 + y * 24 + x]);
            assert_eq!(bil[y * 10 + x], src[101 + y * 24 + x]);
        }
    }
    let mut t1 = vec![0i16; 32];
    prep_8tap_scaled_rust(&mut t1, &src, 101, 24, 8, 4, 0, 0, 1024, 1024, (Rav1dFilterMode::Regular8Tap, Rav1dFilterMode::Regular8Tap), &filters(), BitDepth::Bpc10);
    let mut t2 = vec![0i16; 32];
    prep_rust(&mut t2, &src, 101, 24, 8, 4, BitDepth::Bpc10);
    assert_eq!(t1, t2);
}

#[test]
fn prep_into_short_buffer_writes_whole_rows_only() {
    let src: Vec<u16> = vec![10, 20, 30, 40, 50, 60, 70, 80];
    let mut tmp = vec![-1i16; 5];
    prep_rust(&mut tmp, &src, 0, 2, 2, 4, BitDepth::Bpc8);
    assert_eq!(tmp, vec![160, 320, 480, 640, -1]);
}
