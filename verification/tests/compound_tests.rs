use rav1d::bitdepth::BitDepth;
use rav1d::mc::prep_rust;
use rav1d::compound::{avg_rust, blend_h_rust, blend_px, blend_rust, blend_v_rust, mask_rust, w_avg_rust, w_mask_rust};

fn pixels(n: usize, seed: usize, max: usize) -> Vec<u16> {
    (0..n).map(|i| ((i * 37 + seed * 11 + 5) % (max + 1)) as u16).collect()
}

fn tmpvals(n: usize, seed: i32) -> Vec<i16> {
    (0..n as i32).map(|i| ((i * 1237 + seed * 311) % 20000 - 9000) as i16).collect()
}

fn masks(n: usize, seed: usize, top: usize) -> Vec<u8> {
    (0..n).map(|i| ((i * 13 + seed * 7) % (top + 1)) as u8).collect()
}

#[test]
fn avg_8bit() {
    let mut dst = vec![3u16; 45];
    avg_rust(&mut dst, 1, 9, &tmpvals(32, 1), &tmpvals(32, 2), 8, 4, BitDepth::Bpc8);
    assert_eq!(dst, vec![
        3, 0, 0, 0, 0, 0, 0, 0, 8, 3, 85, 162, 240, 255, 255, 255, 255, 255, 3, 0, 0, 0, 0, 0, 0, 0, 0,
        3, 72, 149, 227, 255, 255, 255, 255, 255, 3, 3, 3, 3, 3, 3, 3, 3, 3,
    ]);
}

#[test]
fn avg_10bit() {
    let mut dst = vec![3u16; 45];
    avg_rust(&mut dst, 1, 9, &tmpvals(20, 3), &tmpvals(20, 4), 4, 5, BitDepth::Bpc10);
    assert_eq!(dst, vec![
        3, 18, 95, 172, 249, 3, 3, 3, 3, 3, 327, 404, 481, 559, 3, 3, 3, 3, 3, 636, 713, 791, 868, 3,
        3, 3, 3, 3, 945, 1023, 1023, 1023, 3, 3, 3, 3, 3, 5, 82, 159, 236, 3, 3, 3, 3,
    ]);
}

#[test]
fn avg_12bit() {
    let mut dst = vec![3u16; 45];
    avg_rust(&mut dst, 1, 9, &tmpvals(18, 5), &tmpvals(18, 6), 6, 3, BitDepth::Bpc12);
    assert_eq!(dst, vec![
        3, 226, 535, 844, 1153, 1463, 1772, 3, 3, 3, 2081, 2390, 2700, 3009, 3318, 3627, 3, 3, 3, 3937,
        4095, 4095, 0, 174, 483, 3, 3, 3, 3, 3, 3, 3, 3, 3, 3, 3, 3, 3, 3, 3, 3, 3, 3, 3, 3,
    ]);
}

#[test]
fn w_avg_8bit() {
    let mut dst = vec![3u16; 45];
    w_avg_rust(&mut dst, 1, 9, &tmpvals(32, 1), &tmpvals(32, 2), 8, 4, 11, BitDepth::Bpc8);
    assert_eq!(dst, vec![
        3, 0, 0, 0, 0, 0, 0, 0, 4, 3, 82, 159, 236, 255, 255, 255, 255, 255, 3, 0, 0, 0, 0, 0, 0, 0, 0,
        3, 69, 146, 223, 255, 255, 255, 255, 255, 3, 3, 3, 3, 3, 3, 3, 3, 3,
    ]);
}

#[test]
fn w_avg_10bit_full_weight() {
    let mut dst = vec![3u16; 45];
    w_avg_rust(&mut dst, 1, 9, &tmpvals(20, 3), &tmpvals(20, 4), 4, 5, 16, BitDepth::Bpc10);
    assert_eq!(dst, vec![
        3, 8, 85, 162, 240, 3, 3, 3, 3, 3, 317, 394, 472, 549, 3, 3, 3, 3, 3, 626, 704, 781, 858, 3, 3,
        3, 3, 3, 936, 1013, 1023, 1023, 3, 3, 3, 3, 3, 0, 72, 149, 227, 3, 3, 3, 3,
    ]);
}

#[test]
fn w_avg_12bit_zero_weight() {
    let mut dst = vec![3u16; 45];
    w_avg_rust(&mut dst, 1, 9, &tmpvals(18, 5), &tmpvals(18, 6), 6, 3, 0, BitDepth::Bpc12);
    assert_eq!(dst, vec![
        3, 265, 574, 883, 1192, 1502, 1811, 3, 3, 3, 2120, 2429, 2739, 3048, 3357, 3666, 3, 3, 3, 3976,
        4095, 4095, 0, 213, 522, 3, 3, 3, 3, 3, 3, 3, 3, 3, 3, 3, 3, 3, 3, 3, 3, 3, 3, 3, 3,
    ]);
}

#[test]
fn mask_8bit() {
    let mut dst = vec![3u16; 45];
    mask_rust(&mut dst, 1, 9, &tmpvals(32, 1), &tmpvals(32, 2), 8, 4, &masks(32, 1, 255), BitDepth::Bpc8);
    assert_eq!(dst, vec![
        3, 0, 0, 0, 0, 0, 0, 0, 0, 3, 61, 135, 208, 255, 255, 255, 255, 255, 3, 0, 0, 0, 0, 0, 0, 0, 0,
        3, 63, 136, 209, 255, 255, 255, 255, 255, 3, 3, 3, 3, 3, 3, 3, 3, 3,
    ]);
}

#[test]
fn mask_10bit() {
    let mut dst = vec![3u16; 45];
    mask_rust(&mut dst, 1, 9, &tmpvals(20, 3), &tmpvals(20, 4), 4, 5, &masks(20, 2, 255), BitDepth::Bpc10);
    assert_eq!(dst, vec![
        3, 23, 96, 170, 243, 3, 3, 3, 3, 3, 316, 390, 463, 537, 3, 3, 3, 3, 3, 610, 683, 757, 830, 3,
        3, 3, 3, 3, 903, 977, 1023, 1023, 3, 3, 3, 3, 3, 0, 20, 94, 245, 3, 3, 3, 3,
    ]);
}

#[test]
fn mask_12bit() {
    let mut dst = vec![3u16; 45];
    mask_rust(&mut dst, 1, 9, &tmpvals(18, 5), &tmpvals(18, 6), 6, 3, &masks(18, 3, 255), BitDepth::Bpc12);
    assert_eq!(dst, vec![
        3, 239, 532, 826, 1119, 1413, 1706, 3, 3, 3, 2000, 2293, 2587, 2880, 3174, 3467, 3, 3, 3, 3760,
        4054, 4095, 0, 0, 228, 3, 3, 3, 3, 3, 3, 3, 3, 3, 3, 3, 3, 3, 3, 3, 3, 3, 3, 3, 3,
    ]);
}

#[test]
fn blend_px_examples() {
    assert_eq!(blend_px(10, 20, 0), 10);
    assert_eq!(blend_px(10, 20, 64), 20);
    assert_eq!(blend_px(10, 20, 32), 15);
    assert_eq!(blend_px(1023, 0, 1), 1007);
    assert_eq!(blend_px(65535, 65535, 17), 65535);
}

#[test]
fn blend_mixes_under_mask() {
    let mut dst = pixels(45, 4, 1023);
    blend_rust(&mut dst, 1, 9, &pixels(32, 5, 1023), 8, 4, &masks(32, 6, 64));
    assert_eq!(dst, vec![
        49, 69, 101, 159, 191, 222, 254, 286, 344, 382, 403, 427, 452, 476, 564, 588, 612, 637, 715,
        666, 784, 801, 818, 834, 851, 969, 986, 24, 463, 680, 897, 166, 175, 184, 193, 202, 357, 394,
        431, 468, 505, 542, 579, 616, 653,
    ]);
}

#[test]
fn blend_v_overlaps_left_columns() {
    let mut dst = pixels(45, 7, 255);
    blend_v_rust(&mut dst, 0, 9, &pixels(32, 8, 255), 8, 4);
    assert_eq!(dst, vec![
        87, 123, 159, 195, 231, 12, 48, 85, 122, 148, 187, 227, 54, 48, 87, 125, 162, 199, 208, 83,
        102, 80, 121, 162, 202, 239, 20, 125, 148, 106, 151, 194, 237, 23, 60, 97, 134, 171, 208, 245,
        26, 63, 100, 137, 174,
    ]);
}

#[test]
fn blend_v_width_32() {
    let mut dst = pixels(96, 7, 255);
    blend_v_rust(&mut dst, 0, 32, &pixels(64, 8, 255), 32, 2);
    assert_eq!(dst, vec![
        87, 124, 161, 197, 234, 15, 52, 88, 125, 162, 199, 235, 16, 53, 90, 127, 163, 200, 237, 18, 55,
        92, 129, 165, 202, 239, 20, 57, 94, 131, 168, 205, 247, 28, 65, 101, 138, 175, 212, 168, 29,
        66, 103, 139, 176, 213, 206, 31, 67, 104, 141, 178, 215, 236, 33, 69, 106, 143, 180, 217, 254,
        35, 72, 109, 146, 183, 220, 1, 38, 75, 112, 149, 186, 223, 4, 41, 78, 115, 152, 189, 226, 7,
        44, 81, 118, 155, 192, 229, 10, 47, 84, 121, 158, 195, 232, 13,
    ]);
}

#[test]
fn blend_h_overlaps_top_rows() {
    let mut dst = pixels(81, 7, 255);
    blend_h_rust(&mut dst, 0, 9, &pixels(32, 8, 255), 4, 8);
    assert_eq!(dst, vec![
        87, 124, 161, 198, 230, 11, 48, 85, 122, 187, 136, 173, 42, 51, 88, 125, 162, 199, 210, 55, 92,
        129, 128, 165, 202, 239, 20, 52, 89, 126, 163, 205, 242, 23, 60, 97, 138, 175, 212, 221, 26,
        63, 100, 137, 174, 204, 241, 34, 71, 103, 140, 177, 214, 251, 32, 69, 106, 143, 180, 217, 254,
        35, 72, 109, 146, 183, 220, 1, 38, 75, 112, 149, 186, 223, 4, 41, 78, 115, 152, 189, 226,
    ]);
}

#[test]
fn blend_h_height_16() {
    let mut dst = pixels(153, 7, 255);
    blend_h_rust(&mut dst, 0, 9, &pixels(48, 8, 255), 3, 16);
    assert_eq!(dst, vec![
        87, 124, 161, 193, 230, 11, 48, 85, 122, 178, 215, 144, 14, 51, 88, 125, 162, 199, 170, 47, 84,
        91, 128, 165, 202, 239, 20, 94, 131, 168, 168, 205, 242, 23, 60, 97, 103, 140, 177, 245, 26,
        63, 100, 137, 174, 193, 230, 71, 66, 103, 140, 177, 214, 251, 72, 61, 98, 143, 180, 217, 254,
        35, 72, 108, 145, 182, 220, 1, 38, 75, 112, 149, 189, 226, 7, 41, 78, 115, 152, 189, 226, 13,
        50, 87, 118, 155, 192, 229, 10, 47, 90, 127, 164, 195, 232, 13, 50, 87, 124, 155, 192, 229, 16,
        53, 90, 127, 164, 201, 238, 19, 56, 93, 130, 167, 204, 241, 22, 59, 96, 133, 170, 207, 244, 25,
        62, 99, 136, 173, 210, 247, 28, 65, 102, 139, 176, 213, 250, 31, 68, 105, 142, 179, 216, 253,
        34, 71, 108, 145, 182, 219, 0, 37, 74,
    ]);
}

#[test]
fn w_mask_420_8bit() {
    let mut dst = vec![3u16; 36];
    let mut mask = vec![9u8; 10];
    w_mask_rust(&mut dst, 0, 9, &tmpvals(32, 1), &tmpvals(32, 2), 8, 4, &mut mask, false, true, true, BitDepth::Bpc8);
    assert_eq!(dst, vec![
        0, 0, 0, 0, 0, 0, 0, 6, 3, 83, 160, 238, 255, 255, 255, 255, 255, 3, 0, 0, 0, 0, 0, 0, 0, 0, 3,
        70, 147, 225, 255, 255, 255, 255, 255, 3,
    ]);
    assert_eq!(mask, vec![39, 39, 39, 39, 39, 39, 39, 39, 9, 9]);
}

#[test]
fn w_mask_420_sign_10bit() {
    let mut dst = vec![3u16; 20];
    let mut mask = vec![9u8; 6];
    w_mask_rust(&mut dst, 0, 5, &tmpvals(16, 3), &tmpvals(16, 40), 4, 4, &mut mask, true, true, true, BitDepth::Bpc10);
    assert_eq!(dst, vec![
        176, 254, 331, 408, 3, 486, 563, 640, 400, 3, 477, 554, 632, 709, 3, 786, 864, 941, 1018, 3,
    ]);
    assert_eq!(mask, vec![49, 48, 46, 46, 9, 9]);
}

#[test]
fn w_mask_422_12bit() {
    let mut dst = vec![3u16; 18];
    let mut mask = vec![9u8; 10];
    w_mask_rust(&mut dst, 0, 9, &tmpvals(16, 5), &tmpvals(16, 6), 8, 2, &mut mask, false, true, false, BitDepth::Bpc12);
    assert_eq!(dst, vec![
        218, 528, 837, 1146, 1455, 1765, 2074, 2383, 3, 2692, 3002, 3311, 3620, 3929, 4095, 4095, 0, 3,
    ]);
    assert_eq!(mask, vec![38, 38, 38, 38, 38, 38, 38, 38, 9, 9]);
}

#[test]
fn w_mask_422_sign_8bit() {
    let mut dst = vec![3u16; 15];
    let mut mask = vec![9u8; 8];
    w_mask_rust(&mut dst, 0, 5, &tmpvals(12, 7), &tmpvals(12, 8), 4, 3, &mut mask, true, true, false, BitDepth::Bpc8);
    assert_eq!(dst, vec![0, 0, 0, 0, 3, 0, 0, 45, 122, 3, 200, 255, 255, 255, 3]);
    assert_eq!(mask, vec![39, 39, 39, 39, 39, 39, 9, 9]);
}

#[test]
fn w_mask_444_10bit() {
    let mut dst = vec![3u16; 15];
    let mut mask = vec![9u8; 14];
    w_mask_rust(&mut dst, 0, 5, &tmpvals(12, 9), &tmpvals(12, 10), 4, 3, &mut mask, false, false, false, BitDepth::Bpc10);
    assert_eq!(dst, vec![132, 210, 287, 364, 3, 442, 519, 596, 674, 3, 751, 828, 905, 983, 3]);
    assert_eq!(mask, vec![38, 38, 38, 38, 38, 38, 38, 38, 38, 38, 38, 38, 9, 9]);
}

#[test]
fn w_mask_equal_predictions_weigh_38() {
    let t = tmpvals(16, 3);
    let mut dst = vec![0u16; 16];
    let mut mask = vec![0u8; 16];
    w_mask_rust(&mut dst, 0, 4, &t, &t, 4, 4, &mut mask, false, false, false, BitDepth::Bpc8);
    assert_eq!(mask, vec![38u8; 16]);
}

#[test]
fn compound_of_equal_predictions_restores_pixels() {
    for (bd, max) in [(BitDepth::Bpc8, 255usize), (BitDepth::Bpc10, 1023), (BitDepth::Bpc12, 4095)] {
        let src = pixels(32, 3, max);
        let mut tmp = vec![0i16; 32];
        prep_rust(&mut tmp, &src, 0, 8, 8, 4, bd);
        let mut a = vec![0u16; 32];
        avg_rust(&mut a, 0, 8, &tmp, &tmp, 8, 4, bd);
        assert_eq!(a, src);
        for weight in [0, 5, 16] {
            let mut b = vec![0u16; 32];
            w_avg_rust(&mut b, 0, 8, &tmp, &tmp, 8, 4, weight, bd);
            assert_eq!(b, src);
        }
        let mut c = vec![0u16; 32];
        mask_rust(&mut c, 0, 8, &tmp, &tmp, 8, 4, &masks(32, 2, 255), bd);
        assert_eq!(c, src);
    }
}

#[test]
fn w_mask_weights_stay_within_64() {
    let mut dst = vec![0u16; 64];
    let mut mask = vec![0u8; 16];
    let t1: Vec<i16> = (0..64).map(|i| if i % 2 == 0 { i16::MAX } else { i16::MIN }).collect();
    let t2: Vec<i16> = (0..64).map(|i| if i % 3 == 0 { i16::MIN } else { 0 }).collect();
    w_mask_rust(&mut dst, 0, 8, &t1, &t2, 8, 8, &mut mask, false, true, true, BitDepth::Bpc10);
    assert!(mask.iter().all(|&m| m <= 64));
    assert!(mask.iter().any(|&m| m == 64));
}
