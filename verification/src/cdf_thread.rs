//! The probabilities a frame starts from, as frames hand them on to each
//! other: either the defaults of a quantizer range, or a context that an
//! earlier frame adapted, shared by reference.
use vstd::prelude::*;
use std::rc::Rc;
use crate::cdf::{CdfContext, get_qcat_idx, spec_qcat_idx};
use crate::cdf_default_coef::{av1_default_coef_cdf, is_default_coef_cdf};
use crate::cdf_default_mode::{av1_default_cdf, default_kf_y_mode_cdf, is_default_mode_cdf, is_default_kf_y_mode_cdf};
use crate::cdf_default_mv::{default_mv_component_cdf, default_mv_joint_cdf, is_default_mv_component_cdf, is_default_mv_joint_cdf};

verus! {

/// A frame's starting probabilities: a shared adapted context (`cdf`), or,
/// where there is none, the defaults of quantizer range `qcat`. With frame
/// threading, `progress` is the decoding progress of the frame that adapts
/// the shared context.
pub struct CdfThreadContext {
    pub cdf: Option<Rc<CdfContext>>,
    pub qcat: u32,
    pub progress: Option<u32>,
}

impl CdfThreadContext {
    /// The defaults, where they are used, are those of one of the four ranges.
    pub open spec fn wf(&self) -> bool {
        self.cdf is None ==> self.qcat < 4
    }
}

/// `d` holds the default probabilities of quantizer range `qcat`.
pub open spec fn is_default_cdf(d: CdfContext, qcat: int) -> bool {
    &&& is_default_mode_cdf(d.m)
    &&& is_default_kf_y_mode_cdf(d.kfym)
    &&& is_default_coef_cdf(d.coef, qcat)
    &&& is_default_mv_joint_cdf(d.mv.joint)
    &&& is_default_mv_joint_cdf(d.dmv.joint)
    &&& is_default_mv_component_cdf(d.mv.comp[0])
    &&& is_default_mv_component_cdf(d.mv.comp[1])
    &&& is_default_mv_component_cdf(d.dmv.comp[0])
    &&& is_default_mv_component_cdf(d.dmv.comp[1])
}

/// `d` holds the probabilities that `src` starts a frame from.
pub open spec fn cdf_thread_copied(d: CdfContext, src: CdfThreadContext) -> bool {
    match src.cdf {
        Some(c) => d == *c,
        None => is_default_cdf(d, src.qcat as int),
    }
}

/// `dst` refers to what `src` refers to: the same quantizer range and
/// progress, and a shared context exactly where `src` has one, with the same
/// probabilities.
pub open spec fn cdf_thread_same(dst: CdfThreadContext, src: CdfThreadContext) -> bool {
    &&& dst.qcat == src.qcat
    &&& dst.progress == src.progress
    &&& match (dst.cdf, src.cdf) {
        (Some(d), Some(s)) => *d == *s,
        (None, None) => true,
        _ => false,
    }
}

/// Sets `cdf` to the defaults of the quantizer range of base quantizer index
/// `qidx`, dropping any shared context.
pub fn dav1d_cdf_thread_init_static(cdf: &mut CdfThreadContext, qidx: i32)
    ensures
        final(cdf).cdf is None,
        final(cdf).qcat == spec_qcat_idx(qidx as int),
        final(cdf).progress == old(cdf).progress,
        final(cdf).wf(),
{
    cdf.cdf = None;
    cdf.qcat = get_qcat_idx(qidx);
}

/// Copies the probabilities that `src` starts a frame from into `dst`: the
/// shared context, or else the defaults of its quantizer range (the same
/// motion vector defaults for both kinds of vectors).
pub fn dav1d_cdf_thread_copy(dst: &mut CdfContext, src: &CdfThreadContext)
    requires
        src.wf(),
    ensures
        cdf_thread_copied(*final(dst), *src),
{
    match &src.cdf {
        Some(c) => {
            *dst = **c;
        },
        None => {
            dst.m = av1_default_cdf();
            dst.kfym = default_kf_y_mode_cdf();
            dst.coef = av1_default_coef_cdf(src.qcat as usize);
            dst.mv.joint = default_mv_joint_cdf();
            dst.dmv.joint = default_mv_joint_cdf();
            dst.dmv.comp[1] = default_mv_component_cdf();
            dst.dmv.comp[0] = dst.dmv.comp[1];
            dst.mv.comp[1] = dst.dmv.comp[0];
            dst.mv.comp[0] = dst.mv.comp[1];
        },
    }
}

/// Makes `cdf` share the adapted probabilities `data`; with frame threading
/// its progress starts at 0. Returns 0 (success).
pub fn dav1d_cdf_thread_alloc(cdf: &mut CdfThreadContext, data: CdfContext, have_frame_mt: bool) -> (r: i32)
    ensures
        r == 0,
        final(cdf).cdf matches Some(c) && *c == data,
        have_frame_mt ==> final(cdf).progress == Some(0u32),
        !have_frame_mt ==> final(cdf).progress == old(cdf).progress,
        final(cdf).qcat == old(cdf).qcat,
        final(cdf).wf(),
{
    cdf.cdf = Some(Rc::new(data));
    if have_frame_mt {
        cdf.progress = Some(0);
    }
    0
}

/// Makes `dst` refer to what `src` refers to, sharing its context.
pub fn dav1d_cdf_thread_ref(dst: &mut CdfThreadContext, src: &CdfThreadContext)
    ensures
        cdf_thread_same(*final(dst), *src),
        src.wf() ==> final(dst).wf(),
{
    dst.cdf = match &src.cdf {
        Some(c) => Some(Rc::clone(c)),
        None => None,
    };
    dst.qcat = src.qcat;
    dst.progress = src.progress;
}

/// Drops the reference of `cdf`, leaving the defaults of the first quantizer
/// range and no progress.
pub fn dav1d_cdf_thread_unref(cdf: &mut CdfThreadContext)
    ensures
        final(cdf).cdf is None,
        final(cdf).qcat == 0,
        final(cdf).progress is None,
        final(cdf).wf(),
{
    cdf.cdf = None;
    cdf.qcat = 0;
    cdf.progress = None;
}

/// A context set up for a quantizer index starts frames from the default
/// probabilities of that index's range.
pub proof fn lemma_init_static_copies_defaults(t: CdfThreadContext, qidx: int, d: CdfContext)
    requires
        t.cdf is None,
        t.qcat == spec_qcat_idx(qidx),
        cdf_thread_copied(d, t),
    ensures
        is_default_cdf(d, spec_qcat_idx(qidx)),
        is_default_coef_cdf(d.coef, spec_qcat_idx(qidx)),
{
}

/// A context that refers to what another refers to starts frames from the
/// same probabilities.
pub proof fn lemma_ref_copies_same(a: CdfThreadContext, b: CdfThreadContext, d: CdfContext)
    requires
        cdf_thread_same(a, b),
    ensures
        cdf_thread_copied(d, a) <==> cdf_thread_copied(d, b),
{
}

} // verus!
