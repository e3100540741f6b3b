use rav1d::bitdepth::BitDepth;
use rav1d::cdef::{cdef_filter_block_4x4_c_erased, cdef_filter_block_4x8_c_erased, cdef_filter_block_8x8_c_erased, cdef_filter_block_c, constrain};
use rav1d::cdef_dir::cdef_find_dir_rust;

fn pixels(n: usize, seed: usize, max: usize) -> Vec<u16> {
    (0..n).map(|i| ((i * 37 + seed * 11 + 5) % (max + 1)) as u16).collect()
}

fn tmpvals(n: usize, seed: i32) -> Vec<i16> {
    (0..n as i32).map(|i| ((i * 1237 + seed * 311) % 20000 - 9000) as i16).collect()
}

fn left_cols(n: usize, seed: usize, max: usize) -> Vec<[u16; 2]> {
    let p = pixels(2 * n, seed, max);
    (0..n).map(|i| [p[2 * i], p[2 * i + 1]]).collect()
}

#[test]
fn constrain_examples() {
    assert_eq!(constrain(5, 10, 2), 5);
    assert_eq!(constrain(-20, 6, 1), 0);
    assert_eq!(constrain(-7, 10, 3), -7);
    assert_eq!(constrain(12, 10, 2), 7);
    assert_eq!(constrain(-12, 10, 2), -7);
    assert_eq!(constrain(9, 0, 0), 0);
}

#[test]
fn cdef_both_strengths_all_edges_8bit() {
    let mut dst = pixels(144, 1, 255);
    let left = left_cols(8, 2, 255);
    let top = pixels(32, 3, 255);
    let bottom = pixels(32, 4, 255);
    cdef_filter_block_8x8_c_erased(&mut dst, 2, 14, &left, &top, 2, &bottom, 2, 5, 2, 3, 6, 15, BitDepth::Bpc8);
    assert_eq!(dst, vec![
        16, 53, 90, 127, 164, 201, 237, 20, 56, 93, 130, 167, 204, 241, 22, 59, 97, 133, 170, 207, 243,
        26, 62, 99, 136, 173, 210, 247, 28, 65, 103, 139, 176, 213, 249, 32, 68, 105, 142, 179, 216,
        253, 34, 71, 109, 145, 182, 218, 1, 37, 74, 111, 148, 185, 222, 3, 40, 77, 114, 151, 188, 224,
        7, 43, 80, 117, 154, 191, 228, 9, 46, 83, 121, 157, 194, 230, 13, 49, 86, 123, 160, 197, 234,
        15, 52, 89, 128, 164, 200, 236, 19, 55, 92, 129, 166, 203, 240, 21, 58, 95, 132, 169, 205, 242,
        24, 61, 98, 135, 172, 209, 246, 27, 64, 101, 138, 175, 212, 249, 30, 67, 104, 141, 178, 215,
        252, 33, 70, 107, 144, 181, 218, 255, 36, 73, 110, 147, 184, 221, 2, 39, 76, 113, 150, 187,
    ]);
}

#[test]
fn cdef_primary_only_no_top_10bit() {
    let mut dst = pixels(144, 2, 1023);
    let left = left_cols(8, 3, 1023);
    let top = pixels(32, 4, 1023);
    let bottom = pixels(32, 5, 1023);
    cdef_filter_block_4x8_c_erased(&mut dst, 2, 14, &left, &top, 2, &bottom, 2, 12, 0, 6, 7, 11, BitDepth::Bpc10);
    assert_eq!(dst, vec![
        27, 64, 103, 140, 177, 214, 249, 286, 323, 360, 397, 434, 471, 508, 545, 582, 621, 658, 695,
        732, 767, 804, 841, 878, 915, 952, 989, 2, 39, 76, 113, 150, 187, 224, 261, 298, 335, 372, 409,
        446, 483, 520, 557, 594, 631, 668, 705, 742, 779, 816, 853, 890, 927, 964, 1001, 14, 51, 88,
        125, 162, 199, 236, 273, 310, 347, 384, 421, 458, 495, 532, 569, 606, 643, 680, 717, 754, 791,
        828, 865, 902, 939, 976, 1013, 26, 63, 100, 134, 171, 208, 245, 285, 322, 359, 396, 433, 470,
        507, 544, 581, 618, 652, 689, 726, 763, 803, 840, 877, 914, 951, 988, 1, 38, 75, 112, 149, 186,
        223, 260, 297, 334, 371, 408, 445, 482, 519, 556, 593, 630, 667, 704, 741, 778, 815, 852, 889,
        926, 963, 1000, 13, 50, 87, 124, 161, 198,
    ]);
}

#[test]
fn cdef_secondary_only_no_left_right_12bit() {
    let mut dst = pixels(88, 3, 4095);
    let left = left_cols(4, 4, 4095);
    let top = pixels(32, 5, 4095);
    let bottom = pixels(32, 6, 4095);
    cdef_filter_block_4x4_c_erased(&mut dst, 2, 14, &left, &top, 2, &bottom, 2, 0, 8, 1, 8, 12, BitDepth::Bpc12);
    assert_eq!(dst, vec![
        38, 75, 113, 149, 186, 222, 260, 297, 334, 371, 408, 445, 482, 519, 556, 593, 631, 667, 704,
        740, 778, 815, 852, 889, 926, 963, 1000, 1037, 1074, 1111, 1149, 1185, 1222, 1258, 1296, 1333,
        1370, 1407, 1444, 1481, 1518, 1555, 1592, 1629, 1667, 1703, 1740, 1776, 1814, 1851, 1888, 1925,
        1962, 1999, 2036, 2073, 2110, 2147, 2184, 2221, 2258, 2295, 2332, 2369, 2406, 2443, 2480, 2517,
        2554, 2591, 2628, 2665, 2702, 2739, 2776, 2813, 2850, 2887, 2924, 2961, 2998, 3035, 3072, 3109,
        3146, 3183, 3220, 3257,
    ]);
}

#[test]
fn cdef_both_no_edges_10bit() {
    let mut dst = pixels(88, 4, 1023);
    let left = left_cols(4, 5, 1023);
    let top = pixels(32, 6, 1023);
    let bottom = pixels(32, 7, 1023);
    cdef_filter_block_c(&mut dst, 2, 14, &left, &top, 2, &bottom, 2, 20, 4, 7, 5, 8, 4, 0, BitDepth::Bpc10);
    assert_eq!(dst, vec![
        49, 86, 123, 158, 195, 232, 269, 306, 343, 380, 419, 456, 493, 530, 567, 604, 641, 676, 713,
        750, 787, 824, 861, 898, 937, 974, 1011, 24, 61, 98, 137, 174, 211, 248, 285, 322, 359, 394,
        431, 468, 505, 542, 579, 616, 655, 692, 729, 766, 803, 840, 877, 912, 949, 986, 1023, 36, 73,
        110, 147, 184, 221, 258, 295, 332, 369, 406, 443, 480, 517, 554, 591, 628, 665, 702, 739, 776,
        813, 850, 887, 924, 961, 998, 11, 48, 85, 122, 159, 196,
    ]);
}

#[test]
fn cdef_both_bottom_left_8bit() {
    let mut dst = pixels(144, 5, 255);
    let left = left_cols(8, 6, 255);
    let top = pixels(32, 7, 255);
    let bottom = pixels(32, 8, 255);
    cdef_filter_block_c(&mut dst, 2, 14, &left, &top, 2, &bottom, 2, 3, 1, 0, 4, 4, 8, 9, BitDepth::Bpc8);
    assert_eq!(dst, vec![
        60, 97, 134, 171, 208, 245, 26, 63, 100, 137, 174, 211, 248, 29, 66, 103, 140, 177, 214, 251,
        32, 69, 106, 143, 180, 217, 254, 35, 72, 109, 146, 183, 220, 1, 38, 75, 112, 149, 186, 223, 4,
        41, 78, 115, 151, 189, 226, 7, 44, 81, 118, 155, 192, 229, 10, 47, 84, 121, 158, 195, 232, 13,
        50, 87, 124, 161, 198, 235, 16, 53, 90, 127, 164, 201, 238, 19, 56, 93, 130, 167, 204, 241, 22,
        59, 96, 133, 170, 207, 244, 25, 62, 99, 136, 173, 210, 247, 28, 65, 102, 139, 176, 213, 250,
        31, 68, 105, 142, 179, 216, 253, 34, 71, 108, 145, 182, 219, 0, 37, 74, 111, 148, 185, 222, 3,
        40, 77, 114, 151, 188, 225, 6, 43, 80, 117, 154, 191, 228, 9, 46, 83, 120, 157, 194, 231,
    ]);
}

#[test]
fn cdef_dir_flat_block() {
    let img: Vec<u16> = vec![
        128, 128, 128, 128, 128, 128, 128, 128, 128, 128, 128, 128, 128, 128, 128, 128, 128, 128, 128,
        128, 128, 128, 128, 128, 128, 128, 128, 128, 128, 128, 128, 128, 128, 128, 128, 128, 128, 128,
        128, 128, 128, 128, 128, 128, 128, 128, 128, 128, 128, 128, 128, 128, 128, 128, 128, 128, 128,
        128, 128, 128, 128, 128, 128, 128, 128, 128, 128, 128, 128, 128, 128, 128, 128, 128, 128, 128,
        128, 128, 128, 128,
    ];
    let mut var = 12345u32;
    let dir = cdef_find_dir_rust(&img, 1, 9, &mut var, BitDepth::Bpc8);
    assert_eq!((dir, var), (0, 0));
}

#[test]
fn cdef_dir_vertical_edge() {
    let img: Vec<u16> = vec![
        0, 255, 255, 255, 255, 0, 0, 0, 0, 0, 255, 255, 255, 255, 0, 0, 0, 0, 0, 255, 255, 255, 255, 0,
        0, 0, 0, 0, 255, 255, 255, 255, 0, 0, 0, 0, 0, 255, 255, 255, 255, 0, 0, 0, 0, 0, 255, 255,
        255, 255, 0, 0, 0, 0, 0, 255, 255, 255, 255, 0, 0, 0, 0, 0, 255, 255, 255, 255, 0, 0, 0, 0, 0,
        255, 255, 255, 255, 0, 0, 0,
    ];
    let mut var = 12345u32;
    let dir = cdef_find_dir_rust(&img, 1, 9, &mut var, BitDepth::Bpc8);
    assert_eq!((dir, var), (6, 853453));
}

#[test]
fn cdef_dir_horizontal_edge_10bit() {
    let img: Vec<u16> = vec![
        1023, 1023, 1023, 1023, 1023, 1023, 1023, 1023, 1023, 1023, 1023, 1023, 1023, 1023, 1023, 1023,
        1023, 1023, 1023, 1023, 1023, 1023, 1023, 1023, 1023, 1023, 1023, 1023, 1023, 1023, 1023, 1023,
        1023, 1023, 1023, 1023, 1023, 0, 0, 0, 0, 0, 0, 0, 0, 0, 0, 0, 0, 0, 0, 0, 0, 0, 0, 0, 0, 0, 0,
        0, 0, 0, 0, 0, 0, 0, 0, 0, 0, 0, 0, 0, 0, 0, 0, 0, 0, 0, 0, 0,
    ];
    let mut var = 12345u32;
    let dir = cdef_find_dir_rust(&img, 1, 9, &mut var, BitDepth::Bpc10);
    assert_eq!((dir, var), (2, 853453));
}

#[test]
fn cdef_dir_diagonal_edge_12bit() {
    let img: Vec<u16> = vec![
        4095, 0, 4095, 4095, 4095, 4095, 4095, 4095, 4095, 4095, 0, 0, 4095, 4095, 4095, 4095, 4095,
        4095, 4095, 0, 0, 0, 4095, 4095, 4095, 4095, 4095, 4095, 0, 0, 0, 0, 4095, 4095, 4095, 4095,
        4095, 0, 0, 0, 0, 0, 4095, 4095, 4095, 4095, 0, 0, 0, 0, 0, 0, 4095, 4095, 4095, 0, 0, 0, 0, 0,
        0, 0, 4095, 4095, 0, 0, 0, 0, 0, 0, 0, 0, 4095, 0, 0, 0, 0, 0, 0, 0,
    ];
    let mut var = 12345u32;
    let dir = cdef_find_dir_rust(&img, 1, 9, &mut var, BitDepth::Bpc12);
    assert_eq!((dir, var), (4, 808748));
}

#[test]
fn cdef_dir_textured_8bit() {
    let img: Vec<u16> = vec![
        38, 75, 112, 149, 186, 223, 4, 41, 78, 115, 152, 189, 226, 7, 44, 81, 118, 155, 192, 229, 10,
        47, 84, 121, 158, 195, 232, 13, 50, 87, 124, 161, 198, 235, 16, 53, 90, 127, 164, 201, 238, 19,
        56, 93, 130, 167, 204, 241, 22, 59, 96, 133, 170, 207, 244, 25, 62, 99, 136, 173, 210, 247, 28,
        65, 102, 139, 176, 213, 250, 31, 68, 105, 142, 179, 216, 253, 34, 71, 108, 145,
    ];
    let mut var = 12345u32;
    let dir = cdef_find_dir_rust(&img, 1, 9, &mut var, BitDepth::Bpc8);
    assert_eq!((dir, var), (1, 144786));
}

#[test]
fn cdef_dir_of_transposed_block_is_mirrored() {
    let img: Vec<u16> = vec![
        38, 75, 112, 149, 186, 223, 4, 41, 78, 115, 152, 189, 226, 7, 44, 81, 118, 155, 192, 229, 10,
        47, 84, 121, 158, 195, 232, 13, 50, 87, 124, 161, 198, 235, 16, 53, 90, 127, 164, 201, 238, 19,
        56, 93, 130, 167, 204, 241, 22, 59, 96, 133, 170, 207, 244, 25, 62, 99, 136, 173, 210, 247, 28,
        65, 102, 139, 176, 213, 250, 31, 68, 105, 142, 179, 216, 253, 34, 71, 108, 145,
    ];
    let mut t: Vec<u16> = vec![0; 72];
    for y in 0..8 {
        for x in 0..8 {
            t[y * 9 + x] = img[1 + x * 9 + y];
        }
    }
    let mut var = 0u32;
    let dir = cdef_find_dir_rust(&img, 1, 9, &mut var, BitDepth::Bpc8);
    let mut var_t = 0u32;
    let dir_t = cdef_find_dir_rust(&t, 0, 9, &mut var_t, BitDepth::Bpc8);
    assert_eq!((dir, var), (1, 144786));
    assert_eq!((dir_t, var_t), (7, 144786));
    assert_eq!(dir_t, (8 - dir) % 8);
}
