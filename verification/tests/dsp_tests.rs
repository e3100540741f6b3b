use rav1d::bitdepth::BitDepth;
use rav1d::cdef::cdef_filter_block_4x8_c_erased;
use rav1d::cdef_dir::cdef_find_dir_rust;
use rav1d::cdef_dsp::{dav1d_cdef_dsp_init_16bpc, CdefDirFn, CdefFn, Rav1dCdefDSPContext};
use rav1d::compound::w_mask_rust;
use rav1d::mc::{prep_bilin_scaled_rust, put_8tap_rust, Rav1dFilterMode, SubpelFilters};
use rav1d::mc_dsp::{Filter2d, McFn, McKernel, Rav1dMCDSPContext, Rav1dPixelLayoutSubSampled, WMaskFn};
use rav1d::plane::pxstride;

fn pixels(n: usize, seed: usize, max: usize) -> Vec<u16> {
    (0..n).map(|i| ((i * 37 + seed * 11 + 5) % (max + 1)) as u16).collect()
}

fn tmpvals(n: usize, seed: i32) -> Vec<i16> {
    (0..n as i32).map(|i| ((i * 1237 + seed * 311) % 20000 - 9000) as i16).collect()
}

fn filters() -> SubpelFilters {
    let mut f = [[[0i8; 8]; 15]; 6];
    for s in 0..6i32 {
        for j in 0..15i32 {
            let m = j + 1;
            let taps = [(s - 2).rem_euclid(3) - 1, 2 - s % 2, -5 - m % 3, 64 - 4 * m + s, 4 * m - s + 1, -(m % 4) - 2, 1 + s % 2, -(s % 2)];
            for k in 0..8 {
                f[s as usize][j as usize][k] = taps[k] as i8;
            }
        }
    }
    f
}

fn left_cols(n: usize, seed: usize, max: usize) -> Vec<[u16; 2]> {
    let p = pixels(2 * n, seed, max);
    (0..n).map(|i| [p[2 * i], p[2 * i + 1]]).collect()
}

#[test]
fn default_table_maps_filter_combinations() {
    let c = Rav1dMCDSPContext::default();
    assert_eq!(c.mc[Filter2d::Regular8Tap.index()], McFn(McKernel::EightTap(Rav1dFilterMode::Regular8Tap, Rav1dFilterMode::Regular8Tap)));
    assert_eq!(c.mc[Filter2d::RegularSharp8Tap.index()].0, McKernel::EightTap(Rav1dFilterMode::Regular8Tap, Rav1dFilterMode::Sharp8Tap));
    assert_eq!(c.mct[Filter2d::SharpSmooth8Tap.index()].0, McKernel::EightTap(Rav1dFilterMode::Sharp8Tap, Rav1dFilterMode::Smooth8Tap));
    assert_eq!(c.mc_scaled[Filter2d::SmoothRegular8Tap.index()].0, McKernel::EightTap(Rav1dFilterMode::Smooth8Tap, Rav1dFilterMode::Regular8Tap));
    assert_eq!(c.mct_scaled[Filter2d::Bilinear.index()].0, McKernel::Bilinear);
    assert_eq!(c.w_mask[Rav1dPixelLayoutSubSampled::I420.index()], WMaskFn { ss_hor: true, ss_ver: true });
    assert_eq!(c.w_mask[Rav1dPixelLayoutSubSampled::I422.index()], WMaskFn { ss_hor: true, ss_ver: false });
    assert_eq!(c.w_mask[Rav1dPixelLayoutSubSampled::I444.index()], WMaskFn { ss_hor: false, ss_ver: false });
    let n = Rav1dMCDSPContext::new(0xffff);
    assert_eq!(n.mc, c.mc);
    assert_eq!(n.w_mask, c.w_mask);
}

#[test]
fn table_slot_runs_its_kernel() {
    let c = Rav1dMCDSPContext::default();
    let src = pixels(384, 2, 1023);
    let mut a = vec![7u16; 90];
    c.mc[Filter2d::SharpRegular8Tap.index()].call(&mut a, 0, 10, &src, 101, 24, 8, 4, 6, 13, &filters(), BitDepth::Bpc10);
    let mut b = vec![7u16; 90];
    put_8tap_rust(&mut b, 0, 10, &src, 101, 24, 8, 4, 6, 13, (Rav1dFilterMode::Sharp8Tap, Rav1dFilterMode::Regular8Tap), &filters(), BitDepth::Bpc10);
    assert_eq!(a, b);
    let mut t1 = vec![0i16; 32];
    c.mct_scaled[Filter2d::Bilinear.index()].call(&mut t1, &src, 101, 24, 8, 4, 300, 900, 1300, 1100, &filters(), BitDepth::Bpc10);
    let mut t2 = vec![0i16; 32];
    prep_bilin_scaled_rust(&mut t2, &src, 101, 24, 8, 4, 300, 900, 1300, 1100, BitDepth::Bpc10);
    assert_eq!(t1, t2);
}

#[test]
fn w_mask_slot_uses_its_layout() {
    let c = Rav1dMCDSPContext::default();
    let t1 = tmpvals(32, 1);
    let t2 = tmpvals(32, 2);
    let mut d1 = vec![0u16; 32];
    let mut m1 = vec![0u8; 8];
    c.w_mask[Rav1dPixelLayoutSubSampled::I420.index()].call(&mut d1, 0, 8, &t1, &t2, 8, 4, &mut m1, 1, BitDepth::Bpc12);
    let mut d2 = vec![0u16; 32];
    let mut m2 = vec![0u8; 8];
    w_mask_rust(&mut d2, 0, 8, &t1, &t2, 8, 4, &mut m2, true, true, true, BitDepth::Bpc12);
    assert_eq!(d1, d2);
    assert_eq!(m1, m2);
}

#[test]
fn cdef_table_holds_three_block_sizes() {
    let mut c = Rav1dCdefDSPContext { dir: CdefDirFn, fb: [CdefFn { w: 0, h: 0 }; 3] };
    dav1d_cdef_dsp_init_16bpc(&mut c);
    assert_eq!(c.fb, [CdefFn { w: 8, h: 8 }, CdefFn { w: 4, h: 8 }, CdefFn { w: 4, h: 4 }]);
    let mut a = pixels(144, 2, 1023);
    let mut b = a.clone();
    let left = left_cols(8, 3, 1023);
    let top = pixels(32, 4, 1023);
    let bottom = pixels(32, 5, 1023);
    c.fb[1].call(&mut a, 2, 14, &left, &top, 2, &bottom, 2, 12, 3, 6, 7, 15, BitDepth::Bpc10);
    cdef_filter_block_4x8_c_erased(&mut b, 2, 14, &left, &top, 2, &bottom, 2, 12, 3, 6, 7, 15, BitDepth::Bpc10);
    assert_eq!(a, b);
    let img = pixels(80, 6, 255);
    let mut v1 = 0u32;
    let mut v2 = 1u32;
    assert_eq!(c.dir.call(&img, 1, 9, &mut v1, BitDepth::Bpc8), cdef_find_dir_rust(&img, 1, 9, &mut v2, BitDepth::Bpc8));
    assert_eq!(v1, v2);
}

#[test]
fn pxstride_halves_byte_strides() {
    assert_eq!(pxstride(64), 32);
    assert_eq!(pxstride(-320), -160);
    assert_eq!(pxstride(0), 0);
}

#[test]
fn blend_direction_slots() {
    let c = Rav1dMCDSPContext::default();
    assert!(c.blend_v.vertical);
    assert!(!c.blend_h.vertical);
    let tmp = pixels(32, 8, 255);
    let mut a = pixels(45, 7, 255);
    let mut b = a.clone();
    c.blend_v.call(&mut a, 0, 9, &tmp, 8, 4);
    rav1d::compound::blend_v_rust(&mut b, 0, 9, &tmp, 8, 4);
    assert_eq!(a, b);
    let mut a = pixels(90, 7, 255);
    let mut b = a.clone();
    c.blend_h.call(&mut a, 0, 9, &tmp, 4, 8);
    rav1d::compound::blend_h_rust(&mut b, 0, 9, &tmp, 4, 8);
    assert_eq!(a, b);
}
