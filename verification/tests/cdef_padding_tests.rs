use rav1d::bitdepth::BitDepth;
use rav1d::cdef::{fill, padding, CDEF_VERY_LARGE};

fn pixels(n: usize, seed: usize, max: usize) -> Vec<u16> {
    (0..n).map(|i| ((i * 37 + seed * 11 + 5) % (max + 1)) as u16).collect()
}

fn tmpvals(n: usize, seed: i32) -> Vec<i16> {
    (0..n as i32).map(|i| ((i * 1237 + seed * 311) % 20000 - 9000) as i16).collect()
}

fn left_cols(n: usize, seed: usize, max: usize) -> Vec<[u16; 2]> {
    let p = pixels(2 * n, seed, max);
    (0..n).map(|i| [p[2 * i], p[2 * i + 1]]).collect()
}

#[test]
fn fill_marks_block_missing() {
    let mut tmp = vec![1i16; 20];
    fill(&mut tmp, 6, 5, 3, 2);
    let mut exp = vec![1i16; 20];
    for i in [6, 7, 8, 11, 12, 13] {
        exp[i] = CDEF_VERY_LARGE;
    }
    assert_eq!(tmp, exp);
    assert_eq!(CDEF_VERY_LARGE, i16::MIN);
}

#[test]
fn bit_depth_constants() {
    assert_eq!(BitDepth::from_bitdepth_max(255), Some(BitDepth::Bpc8));
    assert_eq!(BitDepth::from_bitdepth_max(1023), Some(BitDepth::Bpc10));
    assert_eq!(BitDepth::from_bitdepth_max(4095), Some(BitDepth::Bpc12));
    assert_eq!(BitDepth::from_bitdepth_max(511), None);
    assert_eq!(BitDepth::Bpc12.get_intermediate_bits(), 2);
    assert_eq!(BitDepth::Bpc10.get_intermediate_bits(), 4);
    assert_eq!(BitDepth::Bpc8.prep_bias(), 0);
    assert_eq!(BitDepth::Bpc12.prep_bias(), 8192);
    assert_eq!(BitDepth::Bpc10.bitdepth(), 10);
    assert_eq!(BitDepth::Bpc8.iclip_pixel(300), 255);
    assert_eq!(BitDepth::Bpc12.iclip_pixel(-4), 0);
    assert_eq!(BitDepth::Bpc10.iclip_pixel(700), 700);
    assert_eq!(BitDepth::Bpc8.pixel_cast(257), 1);
    assert_eq!(BitDepth::Bpc10.pixel_cast(70000), 4464);
}

#[test]
fn padding_all_edges() {
    let src = pixels(144, 1, 1023);
    let left = left_cols(8, 2, 1023);
    let top = pixels(32, 3, 1023);
    let bottom = pixels(32, 4, 1023);
    let mut tmp = [3i16; 144];
    padding(&mut tmp, &src, 2, 14, &left, &top, 2, &bottom, 2, 8, 8, 15);
    let exp: Vec<i16> = vec![
        38, 75, 112, 149, 186, 223, 260, 297, 334, 371, 408, 445, 556, 593, 630, 667, 704, 741, 778,
        815, 852, 889, 926, 963, 27, 64, 90, 127, 164, 201, 238, 275, 312, 349, 386, 423, 101, 138,
        608, 645, 682, 719, 756, 793, 830, 867, 904, 941, 175, 212, 102, 139, 176, 213, 250, 287, 324,
        361, 398, 435, 249, 286, 620, 657, 694, 731, 768, 805, 842, 879, 916, 953, 323, 360, 114, 151,
        188, 225, 262, 299, 336, 373, 410, 447, 397, 434, 632, 669, 706, 743, 780, 817, 854, 891, 928,
        965, 471, 508, 126, 163, 200, 237, 274, 311, 348, 385, 422, 459, 545, 582, 644, 681, 718, 755,
        792, 829, 866, 903, 940, 977, 49, 86, 123, 160, 197, 234, 271, 308, 345, 382, 419, 456, 567,
        604, 641, 678, 715, 752, 789, 826, 863, 900, 937, 974,
    ];
    assert_eq!(tmp.to_vec(), exp);
}

#[test]
fn padding_no_edges() {
    let src = pixels(88, 2, 1023);
    let left = left_cols(4, 3, 1023);
    let top = pixels(32, 4, 1023);
    let bottom = pixels(32, 5, 1023);
    let mut tmp = [3i16; 144];
    padding(&mut tmp, &src, 2, 14, &left, &top, 2, &bottom, 2, 4, 4, 0);
    let exp: Vec<i16> = vec![
        -32768, -32768, -32768, -32768, -32768, -32768, -32768, -32768, 3, 3, 3, 3, -32768, -32768,
        -32768, -32768, -32768, -32768, -32768, -32768, 3, 3, 3, 3, -32768, -32768, 101, 138, 175, 212,
        -32768, -32768, 3, 3, 3, 3, -32768, -32768, 619, 656, 693, 730, -32768, -32768, 3, 3, 3, 3,
        -32768, -32768, 113, 150, 187, 224, -32768, -32768, 3, 3, 3, 3, -32768, -32768, 631, 668, 705,
        742, -32768, -32768, 3, 3, 3, 3, -32768, -32768, -32768, -32768, -32768, -32768, -32768,
        -32768, 3, 3, 3, 3, -32768, -32768, -32768, -32768, -32768, -32768, -32768, -32768, 3, 3, 3, 3,
        3, 3, 3, 3, 3, 3, 3, 3, 3, 3, 3, 3, 3, 3, 3, 3, 3, 3, 3, 3, 3, 3, 3, 3, 3, 3, 3, 3, 3, 3, 3, 3,
        3, 3, 3, 3, 3, 3, 3, 3, 3, 3, 3, 3, 3, 3, 3, 3,
    ];
    assert_eq!(tmp.to_vec(), exp);
}

#[test]
fn padding_top_and_left_only() {
    let src = pixels(144, 3, 1023);
    let left = left_cols(8, 4, 1023);
    let top = pixels(32, 5, 1023);
    let bottom = pixels(32, 6, 1023);
    let mut tmp = [3i16; 144];
    padding(&mut tmp, &src, 2, 14, &left, &top, 2, &bottom, 2, 4, 8, 5);
    let exp: Vec<i16> = vec![
        60, 97, 134, 171, 208, 245, -32768, -32768, 3, 3, 3, 3, 578, 615, 652, 689, 726, 763, -32768,
        -32768, 3, 3, 3, 3, 49, 86, 112, 149, 186, 223, -32768, -32768, 3, 3, 3, 3, 123, 160, 630, 667,
        704, 741, -32768, -32768, 3, 3, 3, 3, 197, 234, 124, 161, 198, 235, -32768, -32768, 3, 3, 3, 3,
        271, 308, 642, 679, 716, 753, -32768, -32768, 3, 3, 3, 3, 345, 382, 136, 173, 210, 247, -32768,
        -32768, 3, 3, 3, 3, 419, 456, 654, 691, 728, 765, -32768, -32768, 3, 3, 3, 3, 493, 530, 148,
        185, 222, 259, -32768, -32768, 3, 3, 3, 3, 567, 604, 666, 703, 740, 777, -32768, -32768, 3, 3,
        3, 3, -32768, -32768, -32768, -32768, -32768, -32768, -32768, -32768, 3, 3, 3, 3, -32768,
        -32768, -32768, -32768, -32768, -32768, -32768, -32768, 3, 3, 3, 3,
    ];
    assert_eq!(tmp.to_vec(), exp);
}

#[test]
fn padding_bottom_and_right_only() {
    let src = pixels(88, 4, 1023);
    let left = left_cols(4, 5, 1023);
    let top = pixels(32, 6, 1023);
    let bottom = pixels(32, 7, 1023);
    let mut tmp = [3i16; 144];
    padding(&mut tmp, &src, 2, 14, &left, &top, 2, &bottom, 2, 8, 4, 10);
    let exp: Vec<i16> = vec![
        -32768, -32768, -32768, -32768, -32768, -32768, -32768, -32768, -32768, -32768, -32768, -32768,
        -32768, -32768, -32768, -32768, -32768, -32768, -32768, -32768, -32768, -32768, -32768, -32768,
        -32768, -32768, 123, 160, 197, 234, 271, 308, 345, 382, 419, 456, -32768, -32768, 641, 678,
        715, 752, 789, 826, 863, 900, 937, 974, -32768, -32768, 135, 172, 209, 246, 283, 320, 357, 394,
        431, 468, -32768, -32768, 653, 690, 727, 764, 801, 838, 875, 912, 949, 986, -32768, -32768,
        156, 193, 230, 267, 304, 341, 378, 415, 452, 489, -32768, -32768, 674, 711, 748, 785, 822, 859,
        896, 933, 970, 1007, 3, 3, 3, 3, 3, 3, 3, 3, 3, 3, 3, 3, 3, 3, 3, 3, 3, 3, 3, 3, 3, 3, 3, 3, 3,
        3, 3, 3, 3, 3, 3, 3, 3, 3, 3, 3, 3, 3, 3, 3, 3, 3, 3, 3, 3, 3, 3, 3,
    ];
    assert_eq!(tmp.to_vec(), exp);
}
