use rav1d::cdf::{cdf0d, cdf1d, cdf2d, cdf3d, dav1d_cdf_thread_update, get_qcat_idx, CdfContext, CdfMvContext, FrameType};
use rav1d::cdf_default_coef::av1_default_coef_cdf;
use rav1d::cdf_default_mode::{av1_default_cdf, default_kf_y_mode_cdf};
use rav1d::cdf_default_mv::{default_mv_component_cdf, default_mv_joint_cdf};
use rav1d::cdf_thread::{
    dav1d_cdf_thread_alloc, dav1d_cdf_thread_copy, dav1d_cdf_thread_init_static, dav1d_cdf_thread_ref,
    dav1d_cdf_thread_unref, CdfThreadContext,
};

fn default_context(qcat: usize) -> CdfContext {
    let comp = default_mv_component_cdf();
    CdfContext {
        m: av1_default_cdf(),
        kfym: default_kf_y_mode_cdf(),
        coef: av1_default_coef_cdf(qcat),
        mv: CdfMvContext { comp: [comp, comp], joint: default_mv_joint_cdf() },
        dmv: CdfMvContext { comp: [comp, comp], joint: default_mv_joint_cdf() },
    }
}

fn static_context(qidx: i32) -> CdfThreadContext {
    let mut t = CdfThreadContext { cdf: None, qcat: 3, progress: None };
    dav1d_cdf_thread_init_static(&mut t, qidx);
    t
}

#[test]
fn cdf0d_inverts_probabilities() {
    let r: [u16; 4] = cdf0d([4096, 11264, 19328]);
    assert_eq!(r, [28672, 21504, 13440, 0]);
    let r: [u16; 2] = cdf0d([0]);
    assert_eq!(r, [0, 0]);
    let r: [u16; 4] = cdf0d([32768, 1]);
    assert_eq!(r, [0, 32767, 0, 0]);
}

#[test]
fn cdf_nd_convert_each_table() {
    let r: [[u16; 2]; 2] = cdf1d([[16384], [32767]]);
    assert_eq!(r, [[16384, 0], [1, 0]]);
    let r: [[[u16; 4]; 1]; 2] = cdf2d([[[1000, 2000]], [[30000, 32000]]]);
    assert_eq!(r, [[[31768, 30768, 0, 0]], [[2768, 768, 0, 0]]]);
    let r: [[[[u16; 2]; 1]; 1]; 2] = cdf3d([[[[8192]]], [[[24576]]]]);
    assert_eq!(r, [[[[24576, 0]]], [[[8192, 0]]]]);
}

#[test]
fn qcat_boundaries() {
    assert_eq!(get_qcat_idx(0), 0);
    assert_eq!(get_qcat_idx(20), 0);
    assert_eq!(get_qcat_idx(21), 1);
    assert_eq!(get_qcat_idx(60), 1);
    assert_eq!(get_qcat_idx(61), 2);
    assert_eq!(get_qcat_idx(120), 2);
    assert_eq!(get_qcat_idx(121), 3);
    assert_eq!(get_qcat_idx(255), 3);
}

#[test]
fn default_tables_hold_inverted_probabilities() {
    let m = av1_default_cdf();
    assert_eq!(m.y_mode[0][0], 32768 - 22801);
    assert_eq!(m.y_mode[0][11], 32768 - 30349);
    assert_eq!(m.y_mode[0][12], 0);
    assert_eq!(m.intrabc, [32768 - 30531, 0]);
    assert_eq!(m.motion_mode[14], [0, 0, 0, 0]);
    assert_eq!(default_mv_joint_cdf(), [32768 - 4096, 32768 - 11264, 32768 - 19328, 0]);
    let kf = default_kf_y_mode_cdf();
    assert_eq!(kf[0][0][0], 32768 - 15588);
    let c = default_mv_component_cdf();
    assert_eq!(c.sign, [16384, 0]);
    assert_eq!(c.class0_fp[1][0], 32768 - 12288);
    let coef = av1_default_coef_cdf(0);
    assert_eq!(coef.eob_bin_16[0][0], [32768 - 840, 32768 - 1039, 32768 - 1980, 32768 - 4895, 0, 0, 0, 0]);
}

#[test]
fn static_context_copies_defaults_of_its_range() {
    let t = static_context(100);
    assert!(t.cdf.is_none());
    assert_eq!(t.qcat, 2);
    let mut dst = default_context(0);
    dav1d_cdf_thread_copy(&mut dst, &t);
    assert_eq!(dst.coef.eob_bin_16, av1_default_coef_cdf(2).eob_bin_16);
    assert_eq!(dst.coef.base_tok, av1_default_coef_cdf(2).base_tok);
    assert_eq!(dst.mv.comp[0].classes, default_mv_component_cdf().classes);
    assert_eq!(dst.dmv.comp[1].classN, default_mv_component_cdf().classN);
    assert_eq!(dst.mv.joint, default_mv_joint_cdf());
    assert_eq!(dst.kfym, default_kf_y_mode_cdf());
}

#[test]
fn copy_of_quantizer_zero_defaults_holds_stored_values() {
    let t = static_context(0);
    assert_eq!(t.qcat, 0);
    let mut d = default_context(3);
    d.m.skip[0][0] = 1;
    d.mv.joint[0] = 2;
    dav1d_cdf_thread_copy(&mut d, &t);
    assert_eq!(d.mv.joint, [28672, 21504, 13440, 0]);
    assert_eq!(d.dmv.joint, [28672, 21504, 13440, 0]);
    assert_eq!(d.m.intrabc, [2237, 0]);
    assert_eq!(d.m.skip, [[1097, 0], [16253, 0], [28192, 0]]);
    assert_eq!(d.mv.comp[0].sign, [16384, 0]);
    assert_eq!(d.dmv.comp[1].class0, [5120, 0]);
    assert_eq!(d.m.restore_wiener, [21198, 0]);
    assert_eq!(d.m.pal_uv, [[307, 0], [11280, 0]]);
}

#[test]
fn shared_context_is_copied_and_referenced() {
    let mut data = default_context(1);
    data.m.skip[0][0] = 1234;
    let mut t = static_context(0);
    assert_eq!(dav1d_cdf_thread_alloc(&mut t, data, true), 0);
    assert_eq!(t.progress, Some(0));
    let mut other = static_context(200);
    dav1d_cdf_thread_ref(&mut other, &t);
    let mut dst = default_context(3);
    dav1d_cdf_thread_copy(&mut dst, &other);
    assert_eq!(dst.m.skip[0][0], 1234);
    assert_eq!(dst.coef.skip, av1_default_coef_cdf(1).skip);
    dav1d_cdf_thread_unref(&mut other);
    assert!(other.cdf.is_none());
    assert_eq!(other.qcat, 0);
    assert_eq!(other.progress, None);
    let mut dst2 = default_context(3);
    dav1d_cdf_thread_copy(&mut dst2, &t);
    assert_eq!(dst2.m.skip[0][0], 1234);
}

#[test]
fn update_clears_counters_and_keeps_unused_parts() {
    let mut src = default_context(0);
    src.m.skip[0][1] = 77;
    src.m.skip[0][0] = 500;
    src.m.y_mode[1][12] = 9;
    src.m.y_mode[1][0] = 4000;
    src.m.intrabc[1] = 3;
    src.mv.comp[0].class0_fp[0][3] = 5;
    src.dmv.comp[0].class0_fp[0][0] = 111;
    src.m.interintra[0][1] = 8;
    src.m.interintra[0][0] = 999;
    src.m.interintra[5][0] = 4321;
    let old = default_context(1);

    let mut inter = old;
    dav1d_cdf_thread_update(FrameType::Inter, &mut inter, &src);
    assert_eq!(inter.m.skip[0], [500, 0]);
    assert_eq!(inter.m.y_mode[1][0], 4000);
    assert_eq!(inter.m.y_mode[1][12], 0);
    assert_eq!(inter.mv.comp[0].class0_fp[0][3], 0);
    assert_eq!(inter.m.intrabc, old.m.intrabc);
    assert_eq!(inter.dmv.comp[0].class0_fp, old.dmv.comp[0].class0_fp);
    assert_eq!(inter.m.interintra[0], [999, 0]);
    assert_eq!(inter.m.interintra[5], old.m.interintra[5]);
    assert_eq!(inter.kfym, old.kfym);
    assert_eq!(inter.coef.base_tok, src.coef.base_tok);

    let mut intra = old;
    dav1d_cdf_thread_update(FrameType::Key, &mut intra, &src);
    assert_eq!(intra.m.skip[0], [500, 0]);
    assert_eq!(intra.m.y_mode, old.m.y_mode);
    assert_eq!(intra.m.intrabc[1], 0);
    assert_eq!(intra.dmv.comp[0].class0_fp, old.dmv.comp[0].class0_fp);
    assert_eq!(intra.mv.comp[0].class0_fp, old.mv.comp[0].class0_fp);
}

#[test]
fn update_is_idempotent() {
    let mut src = default_context(2);
    src.m.skip[1][1] = 13;
    src.m.obmc[3][1] = 2;
    let mut d1 = default_context(0);
    dav1d_cdf_thread_update(FrameType::Inter, &mut d1, &src);
    let mut d2 = d1;
    let copy = d1;
    dav1d_cdf_thread_update(FrameType::Inter, &mut d2, &copy);
    assert_eq!(d2.m.skip, d1.m.skip);
    assert_eq!(d2.m.obmc, d1.m.obmc);
    assert_eq!(d2.coef.br_tok, d1.coef.br_tok);
    assert_eq!(d2.mv.comp[1].classes, d1.mv.comp[1].classes);
}
