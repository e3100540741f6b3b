use rav1d::bitdepth::BitDepth;
use rav1d::warp::{resize_rust, warp_affine_8x8_rust, warp_affine_8x8t_rust, ResizeFilters, WarpFilters};

fn pixels(n: usize, seed: usize, max: usize) -> Vec<u16> {
    (0..n).map(|i| ((i * 37 + seed * 11 + 5) % (max + 1)) as u16).collect()
}

fn tmpvals(n: usize, seed: i32) -> Vec<i16> {
    (0..n as i32).map(|i| ((i * 1237 + seed * 311) % 20000 - 9000) as i16).collect()
}

fn warp_filters() -> WarpFilters {
    let mut f = [[0i8; 8]; 193];
    for i in 0..193i32 {
        for k in 0..8i32 {
            let v = (i * 7 + k * 13) % 23 - 11 + if k == 3 { 64 } else { 0 } - if k == 4 { 32 } else { 0 };
            f[i as usize][k as usize] = v as i8;
        }
    }
    f
}

fn resize_filters() -> ResizeFilters {
    let mut f = [[0i8; 8]; 64];
    for i in 0..64i32 {
        for k in 0..8i32 {
            let v = (i * 5 + k * 3) % 17 - 8 + if k == 3 { -64 } else { 0 } + if k == 4 { -i } else { 0 };
            f[i as usize][k as usize] = v as i8;
        }
    }
    f
}

#[test]
fn warp_affine_8bit() {
    let src = pixels(256, 1, 255);
    let mut dst = vec![2u16; 72];
    warp_affine_8x8_rust(&mut dst, 0, 9, &src, 51, 16, &[150, -80, 60, 200], 3000, -2000, &warp_filters(), BitDepth::Bpc8);
    assert_eq!(dst, vec![
        2, 0, 27, 55, 0, 0, 2, 0, 2, 25, 54, 0, 0, 0, 1, 0, 29, 2, 2, 0, 0, 2, 0, 18, 49, 0, 2, 0, 8,
        0, 15, 57, 0, 0, 0, 2, 0, 27, 58, 0, 0, 0, 0, 3, 2, 62, 0, 0, 0, 0, 11, 48, 0, 2, 0, 12, 0, 12,
        49, 10, 1, 0, 2, 0, 22, 49, 9, 3, 0, 0, 0, 2,
    ]);
}

#[test]
fn warp_affine_12bit() {
    let src = pixels(256, 2, 4095);
    let mut dst = vec![2u16; 72];
    warp_affine_8x8_rust(&mut dst, 0, 9, &src, 51, 16, &[-300, 120, 0, -90], -40000, 50000, &warp_filters(), BitDepth::Bpc12);
    assert_eq!(dst, vec![
        90, 88, 85, 18, 60, 61, 75, 108, 2, 3, 73, 77, 69, 51, 53, 69, 118, 2, 195, 156, 157, 147, 104,
        103, 104, 255, 2, 515, 393, 392, 401, 254, 265, 264, 360, 2, 0, 0, 0, 0, 0, 0, 0, 0, 2, 0, 0,
        0, 0, 0, 0, 0, 0, 2, 0, 0, 0, 0, 0, 0, 0, 0, 2, 174, 175, 180, 127, 131, 133, 105, 85, 2,
    ]);
}

#[test]
fn warp_affine_to_intermediate_10bit() {
    let src = pixels(256, 3, 1023);
    let mut tmp = vec![4i16; 80];
    warp_affine_8x8t_rust(&mut tmp, 10, &src, 51, 16, &[150, -80, 60, 200], 3000, -2000, &warp_filters(), BitDepth::Bpc10);
    assert_eq!(tmp, vec![
        -6737, -7232, -6787, -4900, -8466, -8556, -8705, -9285, 4, 4, -7541, -6966, -7014, -7258,
        -6643, -7638, -7822, -7090, 4, 4, -8321, -9215, -8854, -8657, -8978, -8985, -8926, -8947, 4, 4,
        -7887, -7326, -7706, -7507, -7014, -6962, -7244, -6333, 4, 4, -8738, -8712, -8885, -9104,
        -8852, -9049, -9946, -8153, 4, 4, -7372, -7214, -7148, -6336, -6824, -6242, -4197, -8193, 4, 4,
        -9110, -8777, -9688, -8059, -8030, -7297, -7233, -7356, 4, 4, -6098, -6922, -5283, -8300,
        -8193, -8848, -8951, -8429, 4, 4,
    ]);
}

#[test]
fn warp_affine_to_intermediate_8bit() {
    let src = pixels(256, 4, 255);
    let mut tmp = vec![4i16; 80];
    warp_affine_8x8t_rust(&mut tmp, 10, &src, 51, 16, &[0, 0, 0, 0], 0, 0, &warp_filters(), BitDepth::Bpc8);
    assert_eq!(tmp, vec![
        -146, 237, 373, 743, -182, -129, 59, -273, 4, 4, 748, -65, -220, 18, 64, -268, 302, 743, 4, 4,
        -196, -18, 65, -262, 321, 749, -60, -171, 4, 4, 7, -136, 342, 787, -183, -173, 2, 9, 4, 4, 346,
        800, -183, -195, 64, 17, -139, 348, 4, 4, -185, -132, 42, -147, 237, 372, 742, -183, 4, 4, 61,
        -271, 298, 747, -65, -221, 18, 63, 4, 4, 318, 745, -60, -197, -18, 65, -263, 320, 4, 4,
    ]);
}

#[test]
fn resize_upscales_rows_8bit() {
    let src = pixels(24, 1, 255);
    let mut dst = vec![6u16; 30];
    resize_rust(&mut dst, 1, 15, &src, 0, 12, 13, 2, 10, 12603, 200, &resize_filters(), BitDepth::Bpc8);
    assert_eq!(dst, vec![
        6, 15, 2, 29, 34, 51, 91, 103, 126, 124, 207, 122, 34, 37, 6, 6, 108, 175, 174, 130, 0, 39, 41,
        81, 86, 152, 151, 172, 101, 6,
    ]);
}

#[test]
fn resize_downscales_rows_10bit() {
    let src = pixels(36, 2, 1023);
    let mut dst = vec![6u16; 21];
    resize_rust(&mut dst, 1, 7, &src, 0, 12, 5, 3, 11, 36044, 16000, &resize_filters(), BitDepth::Bpc10);
    assert_eq!(dst, vec![
        6, 30, 63, 129, 174, 283, 6, 6, 463, 320, 455, 469, 647, 6, 6, 897, 480, 118, 84, 171, 6,
    ]);
}

#[test]
fn resize_reads_clamped_edges_12bit() {
    let src = pixels(12, 3, 4095);
    let mut dst = vec![6u16; 11];
    resize_rust(&mut dst, 1, 11, &src, 0, 12, 9, 1, 3, 5000, 0, &resize_filters(), BitDepth::Bpc12);
    assert_eq!(dst, vec![6, 27, 15, 29, 41, 39, 26, 41, 48, 61, 6]);
}
