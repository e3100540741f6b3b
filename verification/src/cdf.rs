//! Adaptive symbol probabilities (CDFs) of the entropy decoder: their layout,
//! their construction from probability tables, and how one frame's adapted
//! probabilities are carried over to the next.
use vstd::prelude::*;
use crate::tables::PARTITION_TYPE_COUNT;

verus! {

/// A cumulative probability stored in the inverted 15-bit form used by the
/// entropy decoder: `32768 - p`, with the value 32768 (from `p == 0`) mapped to 0.
pub open spec fn spec_cdf_value(p: int) -> int {
    (32768 - p) % 32768
}

/// `r` holds the stored form of the cumulative probabilities `probs`, followed
/// by zeros (the symbol count and the adaptation counter).
pub open spec fn is_cdf0d<const P: usize, const N: usize>(r: [u16; N], probs: [u16; P]) -> bool {
    &&& forall|i: int| 0 <= i < P ==> #[trigger] r[i] == spec_cdf_value(probs[i] as int)
    &&& forall|i: int| P <= i < N ==> #[trigger] r[i] == 0
}

/// `is_cdf0d` for each of `M` tables.
pub open spec fn is_cdf1d<const P: usize, const N: usize, const M: usize>(r: [[u16; N]; M], probs: [[u16; P]; M]) -> bool {
    forall|j: int| 0 <= j < M ==> is_cdf0d(#[trigger] r[j], probs[j])
}

/// `is_cdf1d` for each of `L` groups of tables.
pub open spec fn is_cdf2d<const P: usize, const N: usize, const M: usize, const L: usize>(
    r: [[[u16; N]; M]; L],
    probs: [[[u16; P]; M]; L],
) -> bool {
    forall|k: int| 0 <= k < L ==> is_cdf1d(#[trigger] r[k], probs[k])
}

/// `is_cdf2d` for each of `K` sets of groups of tables.
pub open spec fn is_cdf3d<const P: usize, const N: usize, const M: usize, const L: usize, const K: usize>(
    r: [[[[u16; N]; M]; L]; K],
    probs: [[[[u16; P]; M]; L]; K],
) -> bool {
    forall|l: int| 0 <= l < K ==> is_cdf2d(#[trigger] r[l], probs[l])
}

/// Every entry of the table is a probability out of 32768.
pub open spec fn probs_valid0d<const P: usize>(probs: [u16; P]) -> bool {
    forall|i: int| 0 <= i < P ==> #[trigger] probs[i] <= 32768
}

/// `probs_valid0d` for each of `M` tables.
pub open spec fn probs_valid1d<const P: usize, const M: usize>(probs: [[u16; P]; M]) -> bool {
    forall|j: int| 0 <= j < M ==> probs_valid0d(#[trigger] probs[j])
}

/// `probs_valid1d` for each of `L` groups of tables.
pub open spec fn probs_valid2d<const P: usize, const M: usize, const L: usize>(probs: [[[u16; P]; M]; L]) -> bool {
    forall|k: int| 0 <= k < L ==> probs_valid1d(#[trigger] probs[k])
}

/// `probs_valid2d` for each of `K` sets of groups of tables.
pub open spec fn probs_valid3d<const P: usize, const M: usize, const L: usize, const K: usize>(
    probs: [[[[u16; P]; M]; L]; K],
) -> bool {
    forall|l: int| 0 <= l < K ==> probs_valid2d(#[trigger] probs[l])
}

/// The conversion loop behind `cdf0d`. It computes `(32768 - p) mod 32768`
/// for any `u16`, which is the stored form wherever `p` is a probability;
/// the default tables of the library, literal constants of thousands of
/// entries, are converted through it and the `cdf1d` to `cdf3d` loops below.
pub(crate) fn stored_cdf0d<const P: usize, const N: usize>(probs: [u16; P]) -> (r: [u16; N])
    requires
        P < N,
    ensures
        is_cdf0d(r, probs),
{
    let mut cdf: [u16; N] = [0u16; N];
    let mut i: usize = 0;
    while i < P
        invariant
            0 <= i <= P < N,
            forall|j: int| 0 <= j < i ==> #[trigger] cdf[j] == spec_cdf_value(probs[j] as int),
            forall|j: int| i <= j < N ==> #[trigger] cdf[j] == 0,
        decreases P - i,
    {
        let x: u32 = 98304 - probs[i] as u32;
        assert(x & 0x7fffu32 == x % 32768) by (bit_vector);
        assert(x % 32768 == spec_cdf_value(probs[i as int] as int)) by {
            vstd::arithmetic::div_mod::lemma_mod_multiples_vanish(2, 32768 - probs[i as int] as int, 32768);
        }
        cdf[i] = (x & 0x7fff) as u16;
        i += 1;
    }
    cdf
}

/// `stored_cdf0d` applied to each of `M` tables.
pub(crate) fn stored_cdf1d<const P: usize, const N: usize, const M: usize>(probs: [[u16; P]; M]) -> (r: [[u16; N]; M])
    requires
        P < N,
    ensures
        is_cdf1d(r, probs),
{
    let mut cdf: [[u16; N]; M] = [[0u16; N]; M];
    let mut j: usize = 0;
    while j < M
        invariant
            0 <= j <= M,
            P < N,
            forall|a: int| 0 <= a < j ==> is_cdf0d(#[trigger] cdf[a], probs[a]),
        decreases M - j,
    {
        cdf[j] = stored_cdf0d(probs[j]);
        j += 1;
    }
    cdf
}

/// `stored_cdf1d` applied to each of `L` groups of tables.
pub(crate) fn stored_cdf2d<const P: usize, const N: usize, const M: usize, const L: usize>(
    probs: [[[u16; P]; M]; L],
) -> (r: [[[u16; N]; M]; L])
    requires
        P < N,
    ensures
        is_cdf2d(r, probs),
{
    let mut cdf: [[[u16; N]; M]; L] = [[[0u16; N]; M]; L];
    let mut k: usize = 0;
    while k < L
        invariant
            0 <= k <= L,
            P < N,
            forall|c: int| 0 <= c < k ==> is_cdf1d(#[trigger] cdf[c], probs[c]),
        decreases L - k,
    {
        cdf[k] = stored_cdf1d(probs[k]);
        k += 1;
    }
    cdf
}

/// `stored_cdf2d` applied to each of `K` sets of groups of tables.
pub(crate) fn stored_cdf3d<const P: usize, const N: usize, const M: usize, const L: usize, const K: usize>(
    probs: [[[[u16; P]; M]; L]; K],
) -> (r: [[[[u16; N]; M]; L]; K])
    requires
        P < N,
    ensures
        is_cdf3d(r, probs),
{
    let mut cdf: [[[[u16; N]; M]; L]; K] = [[[[0u16; N]; M]; L]; K];
    let mut l: usize = 0;
    while l < K
        invariant
            0 <= l <= K,
            P < N,
            forall|d: int| 0 <= d < l ==> is_cdf2d(#[trigger] cdf[d], probs[d]),
        decreases K - l,
    {
        cdf[l] = stored_cdf2d(probs[l]);
        l += 1;
    }
    cdf
}

/// Converts one table of cumulative probabilities (each out of 32768) into
/// stored CDF form. The entries past the table (the symbol count and the
/// adaptation counter) are 0.
pub fn cdf0d<const P: usize, const N: usize>(probs: [u16; P]) -> (r: [u16; N])
    requires
        P < N,
        probs_valid0d(probs),
    ensures
        is_cdf0d(r, probs),
{
    stored_cdf0d(probs)
}

/// `cdf0d` applied to each of `M` tables.
pub fn cdf1d<const P: usize, const N: usize, const M: usize>(probs: [[u16; P]; M]) -> (r: [[u16; N]; M])
    requires
        P < N,
        probs_valid1d(probs),
    ensures
        is_cdf1d(r, probs),
{
    stored_cdf1d(probs)
}

/// `cdf1d` applied to each of `L` groups of tables.
pub fn cdf2d<const P: usize, const N: usize, const M: usize, const L: usize>(
    probs: [[[u16; P]; M]; L],
) -> (r: [[[u16; N]; M]; L])
    requires
        P < N,
        probs_valid2d(probs),
    ensures
        is_cdf2d(r, probs),
{
    stored_cdf2d(probs)
}

/// `cdf2d` applied to each of `K` sets of groups of tables.
pub fn cdf3d<const P: usize, const N: usize, const M: usize, const L: usize, const K: usize>(
    probs: [[[[u16; P]; M]; L]; K],
) -> (r: [[[[u16; N]; M]; L]; K])
    requires
        P < N,
        probs_valid3d(probs),
    ensures
        is_cdf3d(r, probs),
{
    stored_cdf3d(probs)
}

/// Adaptive probabilities of the mode and side-information symbols.
#[derive(Clone, Copy)]
pub struct CdfModeContext {
    pub y_mode: [[u16; 16]; 4],
    pub uv_mode: [[[u16; 16]; 13]; 2],
    pub wedge_idx: [[u16; 16]; 9],
    pub partition: [[[u16; 16]; 4]; 5],
    pub cfl_alpha: [[u16; 16]; 6],
    pub txtp_inter1: [[u16; 16]; 2],
    pub txtp_inter2: [u16; 16],
    pub txtp_intra1: [[[u16; 8]; 13]; 2],
    pub txtp_intra2: [[[u16; 8]; 13]; 3],
    pub cfl_sign: [u16; 8],
    pub angle_delta: [[u16; 8]; 8],
    pub filter_intra: [u16; 8],
    pub comp_inter_mode: [[u16; 8]; 8],
    pub seg_id: [[u16; 8]; 3],
    pub pal_sz: [[[u16; 8]; 7]; 2],
    pub color_map: [[[[u16; 8]; 5]; 7]; 2],
    pub filter: [[[u16; 4]; 8]; 2],
    pub txsz: [[[u16; 4]; 3]; 4],
    pub motion_mode: [[u16; 4]; 22],
    pub delta_q: [u16; 4],
    pub delta_lf: [[u16; 4]; 5],
    pub interintra_mode: [[u16; 4]; 4],
    pub restore_switchable: [u16; 4],
    pub restore_wiener: [u16; 2],
    pub restore_sgrproj: [u16; 2],
    pub interintra: [[u16; 2]; 7],
    pub interintra_wedge: [[u16; 2]; 7],
    pub txtp_inter3: [[u16; 2]; 4],
    pub use_filter_intra: [[u16; 2]; 22],
    pub newmv_mode: [[u16; 2]; 6],
    pub globalmv_mode: [[u16; 2]; 2],
    pub refmv_mode: [[u16; 2]; 6],
    pub drl_bit: [[u16; 2]; 3],
    pub intra: [[u16; 2]; 4],
    pub comp: [[u16; 2]; 5],
    pub comp_dir: [[u16; 2]; 5],
    pub jnt_comp: [[u16; 2]; 6],
    pub mask_comp: [[u16; 2]; 6],
    pub wedge_comp: [[u16; 2]; 9],
    pub single_ref: [[[u16; 2]; 3]; 6],
    pub comp_fwd_ref: [[[u16; 2]; 3]; 3],
    pub comp_bwd_ref: [[[u16; 2]; 3]; 2],
    pub comp_uni_ref: [[[u16; 2]; 3]; 3],
    pub txpart: [[[u16; 2]; 3]; 7],
    pub skip: [[u16; 2]; 3],
    pub skip_mode: [[u16; 2]; 3],
    pub seg_pred: [[u16; 2]; 3],
    pub obmc: [[u16; 2]; 22],
    pub pal_y: [[[u16; 2]; 3]; 7],
    pub pal_uv: [[u16; 2]; 2],
    pub intrabc: [u16; 2],
}

/// Adaptive probabilities of the coefficient symbols.
#[derive(Clone, Copy)]
pub struct CdfCoefContext {
    pub eob_bin_16: [[[u16; 8]; 2]; 2],
    pub eob_bin_32: [[[u16; 8]; 2]; 2],
    pub eob_bin_64: [[[u16; 8]; 2]; 2],
    pub eob_bin_128: [[[u16; 8]; 2]; 2],
    pub eob_bin_256: [[[u16; 16]; 2]; 2],
    pub eob_bin_512: [[u16; 16]; 2],
    pub eob_bin_1024: [[u16; 16]; 2],
    pub eob_base_tok: [[[[u16; 4]; 4]; 2]; 5],
    pub base_tok: [[[[u16; 4]; 41]; 2]; 5],
    pub br_tok: [[[[u16; 4]; 21]; 2]; 4],
    pub eob_hi_bit: [[[[u16; 2]; 11]; 2]; 5],
    pub skip: [[[u16; 2]; 13]; 5],
    pub dc_sign: [[[u16; 2]; 3]; 2],
}

/// Adaptive probabilities of one motion vector component.
#[derive(Clone, Copy)]
pub struct CdfMvComponent {
    pub classes: [u16; 16],
    pub class0_fp: [[u16; 4]; 2],
    pub classN_fp: [u16; 4],
    pub class0_hp: [u16; 2],
    pub classN_hp: [u16; 2],
    pub class0: [u16; 2],
    pub classN: [[u16; 2]; 10],
    pub sign: [u16; 2],
}

/// Motion vector probabilities: per component, and the joint classes.
#[derive(Clone, Copy)]
pub struct CdfMvContext {
    pub comp: [CdfMvComponent; 2],
    pub joint: [u16; 4],
}

/// All adaptive probabilities of a frame.
#[derive(Clone, Copy)]
pub struct CdfContext {
    pub m: CdfModeContext,
    pub kfym: [[[u16; 16]; 5]; 5],
    pub coef: CdfCoefContext,
    pub mv: CdfMvContext,
    pub dmv: CdfMvContext,
}

/// The four frame types of AV1.
#[derive(Clone, Copy, PartialEq, Eq, Debug)]
pub enum FrameType {
    Key,
    Inter,
    Intra,
    Switch,
}

impl FrameType {
    /// Key frames and intra-only frames use no inter prediction.
    pub open spec fn spec_is_intra(self) -> bool {
        self is Key || self is Intra
    }

    pub fn is_intra(&self) -> (r: bool)
        ensures
            r == self.spec_is_intra(),
    {
        match self {
            FrameType::Key => true,
            FrameType::Intra => true,
            _ => false,
        }
    }
}

/// `d` is `s` with the entry at `k` (the adaptation counter) set to 0.
pub open spec fn reset1<const N: usize>(d: [u16; N], s: [u16; N], k: int) -> bool {
    d@ == s@.update(k, 0u16)
}

pub open spec fn reset2<const N: usize, const M: usize>(d: [[u16; N]; M], s: [[u16; N]; M], k: int) -> bool {
    forall|i: int| 0 <= i < M ==> reset1(#[trigger] d[i], s[i], k)
}

pub open spec fn reset3<const N: usize, const M: usize, const L: usize>(
    d: [[[u16; N]; M]; L],
    s: [[[u16; N]; M]; L],
    k: int,
) -> bool {
    forall|i: int| 0 <= i < L ==> reset2(#[trigger] d[i], s[i], k)
}

pub open spec fn reset4<const N: usize, const M: usize, const L: usize, const K: usize>(
    d: [[[[u16; N]; M]; L]; K],
    s: [[[[u16; N]; M]; L]; K],
    k: int,
) -> bool {
    forall|i: int| 0 <= i < K ==> reset3(#[trigger] d[i], s[i], k)
}

/// The first `n` rows of `d` are those of `s` reset at `k`; the others are those of `o`.
pub open spec fn reset2_prefix<const N: usize, const M: usize>(
    d: [[u16; N]; M],
    s: [[u16; N]; M],
    o: [[u16; N]; M],
    k: int,
    n: int,
) -> bool {
    &&& forall|i: int| 0 <= i < n ==> reset1(#[trigger] d[i], s[i], k)
    &&& forall|i: int| n <= i < M ==> #[trigger] d[i] == o[i]
}

/// Chroma modes: one more symbol when chroma-from-luma is allowed (second set).
pub open spec fn uv_mode_reset(d: [[[u16; 16]; 13]; 2], s: [[[u16; 16]; 13]; 2]) -> bool {
    forall|k: int, j: int|
        0 <= k < 2 && 0 <= j < 13 ==> reset1(#[trigger] d[k][j], s[k][j], if k == 0 { 12 } else { 13 })
}

/// Transform sizes: `k + 2` symbols for the `k`-th maximum size, at most 3.
pub open spec fn txsz_reset(d: [[[u16; 4]; 3]; 4], s: [[[u16; 4]; 3]; 4]) -> bool {
    forall|k: int, j: int| 0 <= k < 4 && 0 <= j < 3 ==> reset1(#[trigger] d[k][j], s[k][j], if k + 1 < 2 { k + 1 } else { 2 })
}

/// Partitions: the symbol count depends on the block level.
pub open spec fn partition_reset(d: [[[u16; 16]; 4]; 5], s: [[[u16; 16]; 4]; 5]) -> bool {
    forall|k: int, j: int|
        0 <= k < 5 && 0 <= j < 4 ==> reset1(#[trigger] d[k][j], s[k][j], PARTITION_TYPE_COUNT[k] as int)
}

/// Palette colour indices: `k + 2` symbols for a palette of `k + 2` colours.
pub open spec fn color_map_reset(d: [[[[u16; 8]; 5]; 7]; 2], s: [[[[u16; 8]; 5]; 7]; 2]) -> bool {
    forall|l: int, k: int, j: int|
        0 <= l < 2 && 0 <= k < 7 && 0 <= j < 5 ==> reset1(#[trigger] d[l][k][j], s[l][k][j], k + 1)
}

/// A motion vector component fully carried over.
pub open spec fn mv_comp_reset_full(d: CdfMvComponent, s: CdfMvComponent) -> bool {
    &&& reset1(d.classes, s.classes, 10)
    &&& reset1(d.class0, s.class0, 1)
    &&& reset2(d.classN, s.classN, 1)
    &&& reset2(d.class0_fp, s.class0_fp, 3)
    &&& reset1(d.classN_fp, s.classN_fp, 3)
    &&& reset1(d.class0_hp, s.class0_hp, 1)
    &&& reset1(d.classN_hp, s.classN_hp, 1)
    &&& reset1(d.sign, s.sign, 1)
}

/// A motion vector component of intra block copy: integer vectors only, so the
/// fractional parts are left as they were (in `o`).
pub open spec fn mv_comp_reset_integer(d: CdfMvComponent, s: CdfMvComponent, o: CdfMvComponent) -> bool {
    &&& reset1(d.classes, s.classes, 10)
    &&& reset1(d.class0, s.class0, 1)
    &&& reset2(d.classN, s.classN, 1)
    &&& reset1(d.sign, s.sign, 1)
    &&& d.class0_fp == o.class0_fp
    &&& d.classN_fp == o.classN_fp
    &&& d.class0_hp == o.class0_hp
    &&& d.classN_hp == o.classN_hp
}

/// The intra block copy probabilities carried over.
pub open spec fn cdf_intrabc_reset(d: CdfContext, s: CdfContext, o: CdfContext) -> bool {
    &&& reset1(d.m.intrabc, s.m.intrabc, 1)
    &&& reset1(d.dmv.joint, s.dmv.joint, 3)
    &&& mv_comp_reset_integer(d.dmv.comp[0], s.dmv.comp[0], o.dmv.comp[0])
    &&& mv_comp_reset_integer(d.dmv.comp[1], s.dmv.comp[1], o.dmv.comp[1])
}

/// The result of carrying the probabilities `s` over into `o` for a frame of
/// the given type: what every frame uses is taken from `s` with counters
/// cleared; for intra frames also intra block copy, for inter frames the inter
/// coding probabilities; the rest (and the key frame luma modes) stays as in `o`.
pub open spec fn cdf_updated(d: CdfContext, o: CdfContext, s: CdfContext, intra: bool) -> bool {
    &&& cdf_common_reset(d, s)
    &&& d.kfym == o.kfym
    &&& intra ==> {
        &&& cdf_intrabc_reset(d, s, o)
        &&& cdf_inter_kept(d, o)
    }
    &&& !intra ==> {
        &&& cdf_inter_reset(d, s, o)
        &&& d.m.intrabc == o.m.intrabc
        &&& d.dmv == o.dmv
    }
}

fn reset_row<const N: usize>(s: &[u16; N], k: usize) -> (r: [u16; N])
    requires
        k < N,
    ensures
        reset1(r, *s, k as int),
{
    let mut r = *s;
    r[k] = 0;
    assert(r@ =~= s@.update(k as int, 0u16));
    r
}

fn reset_rows<const N: usize, const M: usize>(s: &[[u16; N]; M], k: usize) -> (r: [[u16; N]; M])
    requires
        k < N,
    ensures
        reset2(r, *s, k as int),
{
    let mut r = *s;
    let mut i: usize = 0;
    while i < M
        invariant
            0 <= i <= M,
            k < N,
            forall|j: int| 0 <= j < i ==> reset1(#[trigger] r[j], s[j], k as int),
        decreases M - i,
    {
        r[i] = reset_row(&s[i], k);
        i += 1;
    }
    r
}

fn reset_rows3<const N: usize, const M: usize, const L: usize>(s: &[[[u16; N]; M]; L], k: usize) -> (r: [[[u16; N]; M]; L])
    requires
        k < N,
    ensures
        reset3(r, *s, k as int),
{
    let mut r = *s;
    let mut i: usize = 0;
    while i < L
        invariant
            0 <= i <= L,
            k < N,
            forall|j: int| 0 <= j < i ==> reset2(#[trigger] r[j], s[j], k as int),
        decreases L - i,
    {
        r[i] = reset_rows(&s[i], k);
        i += 1;
    }
    r
}

fn reset_rows4<const N: usize, const M: usize, const L: usize, const K: usize>(
    s: &[[[[u16; N]; M]; L]; K],
    k: usize,
) -> (r: [[[[u16; N]; M]; L]; K])
    requires
        k < N,
    ensures
        reset4(r, *s, k as int),
{
    let mut r = *s;
    let mut i: usize = 0;
    while i < K
        invariant
            0 <= i <= K,
            k < N,
            forall|j: int| 0 <= j < i ==> reset3(#[trigger] r[j], s[j], k as int),
        decreases K - i,
    {
        r[i] = reset_rows3(&s[i], k);
        i += 1;
    }
    r
}

fn reset_rows_prefix<const N: usize, const M: usize>(
    o: &[[u16; N]; M],
    s: &[[u16; N]; M],
    k: usize,
    n: usize,
) -> (r: [[u16; N]; M])
    requires
        k < N,
        n <= M,
    ensures
        reset2_prefix(r, *s, *o, k as int, n as int),
{
    let mut r = *o;
    let mut i: usize = 0;
    while i < n
        invariant
            0 <= i <= n <= M,
            k < N,
            forall|j: int| 0 <= j < i ==> reset1(#[trigger] r[j], s[j], k as int),
            forall|j: int| i <= j < M ==> #[trigger] r[j] == o[j],
        decreases n - i,
    {
        r[i] = reset_row(&s[i], k);
        i += 1;
    }
    r
}

fn reset_uv_mode(s: &[[[u16; 16]; 13]; 2]) -> (r: [[[u16; 16]; 13]; 2])
    ensures
        uv_mode_reset(r, *s),
{
    let mut r = *s;
    r[0] = reset_rows(&s[0], 12);
    r[1] = reset_rows(&s[1], 13);
    assert forall|k: int, j: int| 0 <= k < 2 && 0 <= j < 13 implies reset1(
        #[trigger] r[k][j],
        s[k][j],
        if k == 0 { 12 } else { 13 },
    ) by {
        if k == 0 {
            assert(reset1(r[0][j], s[0][j], 12));
        } else {
            assert(reset1(r[1][j], s[1][j], 13));
        }
    }
    r
}

fn reset_txsz(s: &[[[u16; 4]; 3]; 4]) -> (r: [[[u16; 4]; 3]; 4])
    ensures
        txsz_reset(r, *s),
{
    let mut r = *s;
    let mut k: usize = 0;
    while k < 4
        invariant
            0 <= k <= 4,
            forall|a: int, j: int|
                0 <= a < k && 0 <= j < 3 ==> reset1(#[trigger] r[a][j], s[a][j], if a + 1 < 2 { a + 1 } else { 2 }),
        decreases 4 - k,
    {
        let idx: usize = if k + 1 < 2 { k + 1 } else { 2 };
        r[k] = reset_rows(&s[k], idx);
        assert(reset2(r[k as int], s[k as int], idx as int));
        k += 1;
    }
    r
}

fn reset_partition(s: &[[[u16; 16]; 4]; 5]) -> (r: [[[u16; 16]; 4]; 5])
    ensures
        partition_reset(r, *s),
{
    let mut r = *s;
    let mut k: usize = 0;
    while k < 5
        invariant
            0 <= k <= 5,
            forall|a: int, j: int|
                0 <= a < k && 0 <= j < 4 ==> reset1(#[trigger] r[a][j], s[a][j], PARTITION_TYPE_COUNT[a] as int),
        decreases 5 - k,
    {
        let idx = PARTITION_TYPE_COUNT[k] as usize;
        r[k] = reset_rows(&s[k], idx);
        assert(reset2(r[k as int], s[k as int], idx as int));
        k += 1;
    }
    r
}

fn reset_color_map(s: &[[[[u16; 8]; 5]; 7]; 2]) -> (r: [[[[u16; 8]; 5]; 7]; 2])
    ensures
        color_map_reset(r, *s),
{
    let mut r = *s;
    let mut l: usize = 0;
    while l < 2
        invariant
            0 <= l <= 2,
            forall|a: int, k: int, j: int|
                0 <= a < l && 0 <= k < 7 && 0 <= j < 5 ==> reset1(#[trigger] r[a][k][j], s[a][k][j], k + 1),
        decreases 2 - l,
    {
        let mut k: usize = 0;
        while k < 7
            invariant
                0 <= l < 2,
                0 <= k <= 7,
                forall|a: int, c: int, j: int|
                    0 <= a < l && 0 <= c < 7 && 0 <= j < 5 ==> reset1(#[trigger] r[a][c][j], s[a][c][j], c + 1),
                forall|c: int, j: int| 0 <= c < k && 0 <= j < 5 ==> reset1(#[trigger] r[l as int][c][j], s[l as int][c][j], c + 1),
            decreases 7 - k,
        {
            r[l][k] = reset_rows(&s[l][k], k + 1);
            assert(reset2(r[l as int][k as int], s[l as int][k as int], k + 1));
            k += 1;
        }
        l += 1;
    }
    r
}

fn reset_mv_comp(d: &mut CdfMvComponent, s: &CdfMvComponent, full: bool)
    ensures
        full ==> mv_comp_reset_full(*final(d), *s),
        !full ==> mv_comp_reset_integer(*final(d), *s, *old(d)),
{
    d.classes = reset_row(&s.classes, 10);
    d.class0 = reset_row(&s.class0, 1);
    d.classN = reset_rows(&s.classN, 1);
    if full {
        d.class0_fp = reset_rows(&s.class0_fp, 3);
        d.classN_fp = reset_row(&s.classN_fp, 3);
        d.class0_hp = reset_row(&s.class0_hp, 1);
        d.classN_hp = reset_row(&s.classN_hp, 1);
    }
    d.sign = reset_row(&s.sign, 1);
}

/// The probabilities every frame carries over: each adaptive array of `s`
/// with its adaptation counter cleared.
pub open spec fn cdf_common_reset(d: CdfContext, s: CdfContext) -> bool {
    &&& reset2(d.m.use_filter_intra, s.m.use_filter_intra, 1)
    &&& reset1(d.m.filter_intra, s.m.filter_intra, 4)
    &&& uv_mode_reset(d.m.uv_mode, s.m.uv_mode)
    &&& reset2(d.m.angle_delta, s.m.angle_delta, 6)
    &&& txsz_reset(d.m.txsz, s.m.txsz)
    &&& reset3(d.m.txtp_intra1, s.m.txtp_intra1, 6)
    &&& reset3(d.m.txtp_intra2, s.m.txtp_intra2, 4)
    &&& reset2(d.m.skip, s.m.skip, 1)
    &&& partition_reset(d.m.partition, s.m.partition)
    &&& reset3(d.coef.skip, s.coef.skip, 1)
    &&& reset3(d.coef.eob_bin_16, s.coef.eob_bin_16, 4)
    &&& reset3(d.coef.eob_bin_32, s.coef.eob_bin_32, 5)
    &&& reset3(d.coef.eob_bin_64, s.coef.eob_bin_64, 6)
    &&& reset3(d.coef.eob_bin_128, s.coef.eob_bin_128, 7)
    &&& reset3(d.coef.eob_bin_256, s.coef.eob_bin_256, 8)
    &&& reset2(d.coef.eob_bin_512, s.coef.eob_bin_512, 9)
    &&& reset2(d.coef.eob_bin_1024, s.coef.eob_bin_1024, 10)
    &&& reset4(d.coef.eob_hi_bit, s.coef.eob_hi_bit, 1)
    &&& reset4(d.coef.eob_base_tok, s.coef.eob_base_tok, 2)
    &&& reset4(d.coef.base_tok, s.coef.base_tok, 3)
    &&& reset3(d.coef.dc_sign, s.coef.dc_sign, 1)
    &&& reset4(d.coef.br_tok, s.coef.br_tok, 3)
    &&& reset2(d.m.seg_id, s.m.seg_id, 7)
    &&& reset1(d.m.cfl_sign, s.m.cfl_sign, 7)
    &&& reset2(d.m.cfl_alpha, s.m.cfl_alpha, 15)
    &&& reset1(d.m.restore_wiener, s.m.restore_wiener, 1)
    &&& reset1(d.m.restore_sgrproj, s.m.restore_sgrproj, 1)
    &&& reset1(d.m.restore_switchable, s.m.restore_switchable, 2)
    &&& reset1(d.m.delta_q, s.m.delta_q, 3)
    &&& reset2(d.m.delta_lf, s.m.delta_lf, 3)
    &&& reset3(d.m.pal_y, s.m.pal_y, 1)
    &&& reset2(d.m.pal_uv, s.m.pal_uv, 1)
    &&& reset3(d.m.pal_sz, s.m.pal_sz, 6)
    &&& color_map_reset(d.m.color_map, s.m.color_map)
    &&& reset3(d.m.txpart, s.m.txpart, 1)
    &&& reset2(d.m.txtp_inter1, s.m.txtp_inter1, 15)
    &&& reset1(d.m.txtp_inter2, s.m.txtp_inter2, 11)
    &&& reset2(d.m.txtp_inter3, s.m.txtp_inter3, 1)
}

/// The probabilities of inter coding carried over, counters cleared.
pub open spec fn cdf_inter_reset(d: CdfContext, s: CdfContext, o: CdfContext) -> bool {
    &&& reset2(d.m.skip_mode, s.m.skip_mode, 1)
    &&& reset2(d.m.y_mode, s.m.y_mode, 12)
    &&& reset3(d.m.filter, s.m.filter, 2)
    &&& reset2(d.m.newmv_mode, s.m.newmv_mode, 1)
    &&& reset2(d.m.globalmv_mode, s.m.globalmv_mode, 1)
    &&& reset2(d.m.refmv_mode, s.m.refmv_mode, 1)
    &&& reset2(d.m.drl_bit, s.m.drl_bit, 1)
    &&& reset2(d.m.comp_inter_mode, s.m.comp_inter_mode, 7)
    &&& reset2(d.m.intra, s.m.intra, 1)
    &&& reset2(d.m.comp, s.m.comp, 1)
    &&& reset2(d.m.comp_dir, s.m.comp_dir, 1)
    &&& reset2(d.m.jnt_comp, s.m.jnt_comp, 1)
    &&& reset2(d.m.mask_comp, s.m.mask_comp, 1)
    &&& reset2(d.m.wedge_comp, s.m.wedge_comp, 1)
    &&& reset2(d.m.wedge_idx, s.m.wedge_idx, 15)
    &&& reset3(d.m.single_ref, s.m.single_ref, 1)
    &&& reset3(d.m.comp_fwd_ref, s.m.comp_fwd_ref, 1)
    &&& reset3(d.m.comp_bwd_ref, s.m.comp_bwd_ref, 1)
    &&& reset3(d.m.comp_uni_ref, s.m.comp_uni_ref, 1)
    &&& reset2(d.m.seg_pred, s.m.seg_pred, 1)
    &&& reset2_prefix(d.m.interintra, s.m.interintra, o.m.interintra, 1, 4)
    &&& reset2(d.m.interintra_wedge, s.m.interintra_wedge, 1)
    &&& reset2(d.m.interintra_mode, s.m.interintra_mode, 3)
    &&& reset2(d.m.motion_mode, s.m.motion_mode, 2)
    &&& reset2(d.m.obmc, s.m.obmc, 1)
    &&& reset1(d.mv.joint, s.mv.joint, 3)
    &&& mv_comp_reset_full(d.mv.comp[0], s.mv.comp[0])
    &&& mv_comp_reset_full(d.mv.comp[1], s.mv.comp[1])
}

/// The inter coding probabilities left as they were.
pub open spec fn cdf_inter_kept(d: CdfContext, o: CdfContext) -> bool {
    &&& d.m.skip_mode == o.m.skip_mode
    &&& d.m.y_mode == o.m.y_mode
    &&& d.m.filter == o.m.filter
    &&& d.m.newmv_mode == o.m.newmv_mode
    &&& d.m.globalmv_mode == o.m.globalmv_mode
    &&& d.m.refmv_mode == o.m.refmv_mode
    &&& d.m.drl_bit == o.m.drl_bit
    &&& d.m.comp_inter_mode == o.m.comp_inter_mode
    &&& d.m.intra == o.m.intra
    &&& d.m.comp == o.m.comp
    &&& d.m.comp_dir == o.m.comp_dir
    &&& d.m.jnt_comp == o.m.jnt_comp
    &&& d.m.mask_comp == o.m.mask_comp
    &&& d.m.wedge_comp == o.m.wedge_comp
    &&& d.m.wedge_idx == o.m.wedge_idx
    &&& d.m.single_ref == o.m.single_ref
    &&& d.m.comp_fwd_ref == o.m.comp_fwd_ref
    &&& d.m.comp_bwd_ref == o.m.comp_bwd_ref
    &&& d.m.comp_uni_ref == o.m.comp_uni_ref
    &&& d.m.seg_pred == o.m.seg_pred
    &&& d.m.interintra == o.m.interintra
    &&& d.m.interintra_wedge == o.m.interintra_wedge
    &&& d.m.interintra_mode == o.m.interintra_mode
    &&& d.m.motion_mode == o.m.motion_mode
    &&& d.m.obmc == o.m.obmc
    &&& d.mv == o.mv
}

/// Carries the probabilities adapted while decoding a frame (`src`) over into
/// the context of the next frames (`dst`), clearing each adaptation counter.
/// Intra frames carry over the intra block copy probabilities, inter frames
/// the inter coding probabilities.
pub fn dav1d_cdf_thread_update(frame_type: FrameType, dst: &mut CdfContext, src: &CdfContext)
    ensures
        cdf_updated(*final(dst), *old(dst), *src, frame_type.spec_is_intra()),
{
    dst.m.use_filter_intra = reset_rows(&src.m.use_filter_intra, 1);
    dst.m.filter_intra = reset_row(&src.m.filter_intra, 4);
    dst.m.uv_mode = reset_uv_mode(&src.m.uv_mode);
    dst.m.angle_delta = reset_rows(&src.m.angle_delta, 6);
    dst.m.txsz = reset_txsz(&src.m.txsz);
    dst.m.txtp_intra1 = reset_rows3(&src.m.txtp_intra1, 6);
    dst.m.txtp_intra2 = reset_rows3(&src.m.txtp_intra2, 4);
    dst.m.skip = reset_rows(&src.m.skip, 1);
    dst.m.partition = reset_partition(&src.m.partition);
    dst.coef.skip = reset_rows3(&src.coef.skip, 1);
    dst.coef.eob_bin_16 = reset_rows3(&src.coef.eob_bin_16, 4);
    dst.coef.eob_bin_32 = reset_rows3(&src.coef.eob_bin_32, 5);
    dst.coef.eob_bin_64 = reset_rows3(&src.coef.eob_bin_64, 6);
    dst.coef.eob_bin_128 = reset_rows3(&src.coef.eob_bin_128, 7);
    dst.coef.eob_bin_256 = reset_rows3(&src.coef.eob_bin_256, 8);
    dst.coef.eob_bin_512 = reset_rows(&src.coef.eob_bin_512, 9);
    dst.coef.eob_bin_1024 = reset_rows(&src.coef.eob_bin_1024, 10);
    dst.coef.eob_hi_bit = reset_rows4(&src.coef.eob_hi_bit, 1);
    dst.coef.eob_base_tok = reset_rows4(&src.coef.eob_base_tok, 2);
    dst.coef.base_tok = reset_rows4(&src.coef.base_tok, 3);
    dst.coef.dc_sign = reset_rows3(&src.coef.dc_sign, 1);
    dst.coef.br_tok = reset_rows4(&src.coef.br_tok, 3);
    dst.m.seg_id = reset_rows(&src.m.seg_id, 7);
    dst.m.cfl_sign = reset_row(&src.m.cfl_sign, 7);
    dst.m.cfl_alpha = reset_rows(&src.m.cfl_alpha, 15);
    dst.m.restore_wiener = reset_row(&src.m.restore_wiener, 1);
    dst.m.restore_sgrproj = reset_row(&src.m.restore_sgrproj, 1);
    dst.m.restore_switchable = reset_row(&src.m.restore_switchable, 2);
    dst.m.delta_q = reset_row(&src.m.delta_q, 3);
    dst.m.delta_lf = reset_rows(&src.m.delta_lf, 3);
    dst.m.pal_y = reset_rows3(&src.m.pal_y, 1);
    dst.m.pal_uv = reset_rows(&src.m.pal_uv, 1);
    dst.m.pal_sz = reset_rows3(&src.m.pal_sz, 6);
    dst.m.color_map = reset_color_map(&src.m.color_map);
    dst.m.txpart = reset_rows3(&src.m.txpart, 1);
    dst.m.txtp_inter1 = reset_rows(&src.m.txtp_inter1, 15);
    dst.m.txtp_inter2 = reset_row(&src.m.txtp_inter2, 11);
    dst.m.txtp_inter3 = reset_rows(&src.m.txtp_inter3, 1);
    if frame_type.is_intra() {
        dst.m.intrabc = reset_row(&src.m.intrabc, 1);
        dst.dmv.joint = reset_row(&src.dmv.joint, 3);
        reset_mv_comp(&mut dst.dmv.comp[0], &src.dmv.comp[0], false);
        reset_mv_comp(&mut dst.dmv.comp[1], &src.dmv.comp[1], false);
        return;
    }
    dst.m.skip_mode = reset_rows(&src.m.skip_mode, 1);
    dst.m.y_mode = reset_rows(&src.m.y_mode, 12);
    dst.m.filter = reset_rows3(&src.m.filter, 2);
    dst.m.newmv_mode = reset_rows(&src.m.newmv_mode, 1);
    dst.m.globalmv_mode = reset_rows(&src.m.globalmv_mode, 1);
    dst.m.refmv_mode = reset_rows(&src.m.refmv_mode, 1);
    dst.m.drl_bit = reset_rows(&src.m.drl_bit, 1);
    dst.m.comp_inter_mode = reset_rows(&src.m.comp_inter_mode, 7);
    dst.m.intra = reset_rows(&src.m.intra, 1);
    dst.m.comp = reset_rows(&src.m.comp, 1);
    dst.m.comp_dir = reset_rows(&src.m.comp_dir, 1);
    dst.m.jnt_comp = reset_rows(&src.m.jnt_comp, 1);
    dst.m.mask_comp = reset_rows(&src.m.mask_comp, 1);
    dst.m.wedge_comp = reset_rows(&src.m.wedge_comp, 1);
    dst.m.wedge_idx = reset_rows(&src.m.wedge_idx, 15);
    dst.m.single_ref = reset_rows3(&src.m.single_ref, 1);
    dst.m.comp_fwd_ref = reset_rows3(&src.m.comp_fwd_ref, 1);
    dst.m.comp_bwd_ref = reset_rows3(&src.m.comp_bwd_ref, 1);
    dst.m.comp_uni_ref = reset_rows3(&src.m.comp_uni_ref, 1);
    dst.m.seg_pred = reset_rows(&src.m.seg_pred, 1);
    dst.m.interintra = reset_rows_prefix(&dst.m.interintra, &src.m.interintra, 1, 4);
    dst.m.interintra_wedge = reset_rows(&src.m.interintra_wedge, 1);
    dst.m.interintra_mode = reset_rows(&src.m.interintra_mode, 3);
    dst.m.motion_mode = reset_rows(&src.m.motion_mode, 2);
    dst.m.obmc = reset_rows(&src.m.obmc, 1);
    dst.mv.joint = reset_row(&src.mv.joint, 3);
    reset_mv_comp(&mut dst.mv.comp[0], &src.mv.comp[0], true);
    reset_mv_comp(&mut dst.mv.comp[1], &src.mv.comp[1], true);
}

/// What a frame type carries over: a key frame and an intra-only frame take
/// the intra block copy probabilities (joint included) from `s` with the
/// counter cleared and keep the luma mode and motion vector probabilities of
/// `o`; an inter frame and a switch frame take the luma mode probabilities from
/// `s` with the counter cleared and keep the intra block copy probabilities of
/// `o`.
pub proof fn lemma_update_by_frame_type(ft: FrameType, d: CdfContext, o: CdfContext, s: CdfContext)
    requires
        cdf_updated(d, o, s, ft.spec_is_intra()),
    ensures
        ft is Key || ft is Intra ==> {
            &&& reset1(d.m.intrabc, s.m.intrabc, 1)
            &&& reset1(d.dmv.joint, s.dmv.joint, 3)
            &&& d.m.y_mode == o.m.y_mode
            &&& d.mv == o.mv
        },
        ft is Inter || ft is Switch ==> {
            &&& reset2(d.m.y_mode, s.m.y_mode, 12)
            &&& d.m.intrabc == o.m.intrabc
            &&& d.dmv == o.dmv
        },
{
}

/// An intra-only frame carries probabilities over exactly as a key frame
/// does, and a switch frame exactly as an inter frame does.
pub proof fn lemma_update_intra_as_key(d: CdfContext, o: CdfContext, s: CdfContext)
    ensures
        cdf_updated(d, o, s, FrameType::Intra.spec_is_intra()) <==> cdf_updated(d, o, s, FrameType::Key.spec_is_intra()),
        cdf_updated(d, o, s, FrameType::Switch.spec_is_intra()) <==> cdf_updated(d, o, s, FrameType::Inter.spec_is_intra()),
{
}


/// Clearing an already cleared counter changes nothing.
proof fn lemma_reset1_idem<const N: usize>(d2: [u16; N], d1: [u16; N], s: [u16; N], k: int)
    requires
        0 <= k < N,
        reset1(d1, s, k),
        reset1(d2, d1, k),
    ensures
        d2 == d1,
{
    assert(d2@ =~= d1@);
    assert(d2 =~= d1);
}

proof fn lemma_reset2_idem<const N: usize, const M: usize>(d2: [[u16; N]; M], d1: [[u16; N]; M], s: [[u16; N]; M], k: int)
    requires
        0 <= k < N,
        reset2(d1, s, k),
        reset2(d2, d1, k),
    ensures
        d2 == d1,
{
    assert forall|i: int| 0 <= i < M implies d2[i] == d1[i] by {
        lemma_reset1_idem(d2[i], d1[i], s[i], k);
    }
    assert(d2 =~= d1);
}

proof fn lemma_reset3_idem<const N: usize, const M: usize, const L: usize>(
    d2: [[[u16; N]; M]; L],
    d1: [[[u16; N]; M]; L],
    s: [[[u16; N]; M]; L],
    k: int,
)
    requires
        0 <= k < N,
        reset3(d1, s, k),
        reset3(d2, d1, k),
    ensures
        d2 == d1,
{
    assert forall|i: int| 0 <= i < L implies d2[i] == d1[i] by {
        lemma_reset2_idem(d2[i], d1[i], s[i], k);
    }
    assert(d2 =~= d1);
}

proof fn lemma_reset4_idem<const N: usize, const M: usize, const L: usize, const K: usize>(
    d2: [[[[u16; N]; M]; L]; K],
    d1: [[[[u16; N]; M]; L]; K],
    s: [[[[u16; N]; M]; L]; K],
    k: int,
)
    requires
        0 <= k < N,
        reset4(d1, s, k),
        reset4(d2, d1, k),
    ensures
        d2 == d1,
{
    assert forall|i: int| 0 <= i < K implies d2[i] == d1[i] by {
        lemma_reset3_idem(d2[i], d1[i], s[i], k);
    }
    assert(d2 =~= d1);
}

proof fn lemma_reset2_prefix_idem<const N: usize, const M: usize>(
    d2: [[u16; N]; M],
    d1: [[u16; N]; M],
    s: [[u16; N]; M],
    o: [[u16; N]; M],
    k: int,
    n: int,
)
    requires
        0 <= k < N,
        reset2_prefix(d1, s, o, k, n),
        reset2_prefix(d2, d1, d1, k, n),
    ensures
        d2 == d1,
{
    assert forall|i: int| 0 <= i < M implies d2[i] == d1[i] by {
        if i < n {
            lemma_reset1_idem(d2[i], d1[i], s[i], k);
        }
    }
    assert(d2 =~= d1);
}

proof fn lemma_uv_mode_reset_idem(d2: [[[u16; 16]; 13]; 2], d1: [[[u16; 16]; 13]; 2], s: [[[u16; 16]; 13]; 2])
    requires
        uv_mode_reset(d1, s),
        uv_mode_reset(d2, d1),
    ensures
        d2 == d1,
{
    assert forall|k: int| 0 <= k < 2 implies d2[k] == d1[k] by {
        assert forall|j: int| 0 <= j < 13 implies d2[k][j] == d1[k][j] by {
            lemma_reset1_idem(d2[k][j], d1[k][j], s[k][j], if k == 0 { 12 } else { 13 });
        }
        assert(d2[k] =~= d1[k]);
    }
    assert(d2 =~= d1);
}

proof fn lemma_txsz_reset_idem(d2: [[[u16; 4]; 3]; 4], d1: [[[u16; 4]; 3]; 4], s: [[[u16; 4]; 3]; 4])
    requires
        txsz_reset(d1, s),
        txsz_reset(d2, d1),
    ensures
        d2 == d1,
{
    assert forall|k: int| 0 <= k < 4 implies d2[k] == d1[k] by {
        assert forall|j: int| 0 <= j < 3 implies d2[k][j] == d1[k][j] by {
            lemma_reset1_idem(d2[k][j], d1[k][j], s[k][j], if k + 1 < 2 { k + 1 } else { 2 });
        }
        assert(d2[k] =~= d1[k]);
    }
    assert(d2 =~= d1);
}

proof fn lemma_partition_reset_idem(d2: [[[u16; 16]; 4]; 5], d1: [[[u16; 16]; 4]; 5], s: [[[u16; 16]; 4]; 5])
    requires
        partition_reset(d1, s),
        partition_reset(d2, d1),
    ensures
        d2 == d1,
{
    assert forall|k: int| 0 <= k < 5 implies d2[k] == d1[k] by {
        assert(PARTITION_TYPE_COUNT[k] < 16);
        assert forall|j: int| 0 <= j < 4 implies d2[k][j] == d1[k][j] by {
            lemma_reset1_idem(d2[k][j], d1[k][j], s[k][j], PARTITION_TYPE_COUNT[k] as int);
        }
        assert(d2[k] =~= d1[k]);
    }
    assert(d2 =~= d1);
}

proof fn lemma_color_map_reset_idem(
    d2: [[[[u16; 8]; 5]; 7]; 2],
    d1: [[[[u16; 8]; 5]; 7]; 2],
    s: [[[[u16; 8]; 5]; 7]; 2],
)
    requires
        color_map_reset(d1, s),
        color_map_reset(d2, d1),
    ensures
        d2 == d1,
{
    assert forall|l: int| 0 <= l < 2 implies d2[l] == d1[l] by {
        assert forall|k: int| 0 <= k < 7 implies d2[l][k] == d1[l][k] by {
            assert forall|j: int| 0 <= j < 5 implies d2[l][k][j] == d1[l][k][j] by {
                lemma_reset1_idem(d2[l][k][j], d1[l][k][j], s[l][k][j], k + 1);
            }
            assert(d2[l][k] =~= d1[l][k]);
        }
        assert(d2[l] =~= d1[l]);
    }
    assert(d2 =~= d1);
}

proof fn lemma_mv_comp_full_idem(d2: CdfMvComponent, d1: CdfMvComponent, s: CdfMvComponent)
    requires
        mv_comp_reset_full(d1, s),
        mv_comp_reset_full(d2, d1),
    ensures
        d2 == d1,
{
    lemma_reset1_idem(d2.classes, d1.classes, s.classes, 10);
    lemma_reset1_idem(d2.class0, d1.class0, s.class0, 1);
    lemma_reset2_idem(d2.classN, d1.classN, s.classN, 1);
    lemma_reset2_idem(d2.class0_fp, d1.class0_fp, s.class0_fp, 3);
    lemma_reset1_idem(d2.classN_fp, d1.classN_fp, s.classN_fp, 3);
    lemma_reset1_idem(d2.class0_hp, d1.class0_hp, s.class0_hp, 1);
    lemma_reset1_idem(d2.classN_hp, d1.classN_hp, s.classN_hp, 1);
    lemma_reset1_idem(d2.sign, d1.sign, s.sign, 1);
}

proof fn lemma_mv_comp_integer_idem(d2: CdfMvComponent, d1: CdfMvComponent, s: CdfMvComponent, o: CdfMvComponent)
    requires
        mv_comp_reset_integer(d1, s, o),
        mv_comp_reset_integer(d2, d1, d1),
    ensures
        d2 == d1,
{
    lemma_reset1_idem(d2.classes, d1.classes, s.classes, 10);
    lemma_reset1_idem(d2.class0, d1.class0, s.class0, 1);
    lemma_reset2_idem(d2.classN, d1.classN, s.classN, 1);
    lemma_reset1_idem(d2.sign, d1.sign, s.sign, 1);
}

/// Carrying over a context that was itself just carried over, into itself,
/// leaves it unchanged: the carried-over state is a fixed point of the update.
pub proof fn lemma_cdf_update_idempotent(o: CdfContext, s: CdfContext, d1: CdfContext, d2: CdfContext, intra: bool)
    requires
        cdf_updated(d1, o, s, intra),
        cdf_updated(d2, d1, d1, intra),
    ensures
        d2 == d1,
{
    lemma_reset2_idem(d2.m.use_filter_intra, d1.m.use_filter_intra, s.m.use_filter_intra, 1);
    lemma_reset1_idem(d2.m.filter_intra, d1.m.filter_intra, s.m.filter_intra, 4);
    lemma_uv_mode_reset_idem(d2.m.uv_mode, d1.m.uv_mode, s.m.uv_mode);
    lemma_reset2_idem(d2.m.angle_delta, d1.m.angle_delta, s.m.angle_delta, 6);
    lemma_txsz_reset_idem(d2.m.txsz, d1.m.txsz, s.m.txsz);
    lemma_reset3_idem(d2.m.txtp_intra1, d1.m.txtp_intra1, s.m.txtp_intra1, 6);
    lemma_reset3_idem(d2.m.txtp_intra2, d1.m.txtp_intra2, s.m.txtp_intra2, 4);
    lemma_reset2_idem(d2.m.skip, d1.m.skip, s.m.skip, 1);
    lemma_partition_reset_idem(d2.m.partition, d1.m.partition, s.m.partition);
    lemma_reset3_idem(d2.coef.skip, d1.coef.skip, s.coef.skip, 1);
    lemma_reset3_idem(d2.coef.eob_bin_16, d1.coef.eob_bin_16, s.coef.eob_bin_16, 4);
    lemma_reset3_idem(d2.coef.eob_bin_32, d1.coef.eob_bin_32, s.coef.eob_bin_32, 5);
    lemma_reset3_idem(d2.coef.eob_bin_64, d1.coef.eob_bin_64, s.coef.eob_bin_64, 6);
    lemma_reset3_idem(d2.coef.eob_bin_128, d1.coef.eob_bin_128, s.coef.eob_bin_128, 7);
    lemma_reset3_idem(d2.coef.eob_bin_256, d1.coef.eob_bin_256, s.coef.eob_bin_256, 8);
    lemma_reset2_idem(d2.coef.eob_bin_512, d1.coef.eob_bin_512, s.coef.eob_bin_512, 9);
    lemma_reset2_idem(d2.coef.eob_bin_1024, d1.coef.eob_bin_1024, s.coef.eob_bin_1024, 10);
    lemma_reset4_idem(d2.coef.eob_hi_bit, d1.coef.eob_hi_bit, s.coef.eob_hi_bit, 1);
    lemma_reset4_idem(d2.coef.eob_base_tok, d1.coef.eob_base_tok, s.coef.eob_base_tok, 2);
    lemma_reset4_idem(d2.coef.base_tok, d1.coef.base_tok, s.coef.base_tok, 3);
    lemma_reset3_idem(d2.coef.dc_sign, d1.coef.dc_sign, s.coef.dc_sign, 1);
    lemma_reset4_idem(d2.coef.br_tok, d1.coef.br_tok, s.coef.br_tok, 3);
    lemma_reset2_idem(d2.m.seg_id, d1.m.seg_id, s.m.seg_id, 7);
    lemma_reset1_idem(d2.m.cfl_sign, d1.m.cfl_sign, s.m.cfl_sign, 7);
    lemma_reset2_idem(d2.m.cfl_alpha, d1.m.cfl_alpha, s.m.cfl_alpha, 15);
    lemma_reset1_idem(d2.m.restore_wiener, d1.m.restore_wiener, s.m.restore_wiener, 1);
    lemma_reset1_idem(d2.m.restore_sgrproj, d1.m.restore_sgrproj, s.m.restore_sgrproj, 1);
    lemma_reset1_idem(d2.m.restore_switchable, d1.m.restore_switchable, s.m.restore_switchable, 2);
    lemma_reset1_idem(d2.m.delta_q, d1.m.delta_q, s.m.delta_q, 3);
    lemma_reset2_idem(d2.m.delta_lf, d1.m.delta_lf, s.m.delta_lf, 3);
    lemma_reset3_idem(d2.m.pal_y, d1.m.pal_y, s.m.pal_y, 1);
    lemma_reset2_idem(d2.m.pal_uv, d1.m.pal_uv, s.m.pal_uv, 1);
    lemma_reset3_idem(d2.m.pal_sz, d1.m.pal_sz, s.m.pal_sz, 6);
    lemma_color_map_reset_idem(d2.m.color_map, d1.m.color_map, s.m.color_map);
    lemma_reset3_idem(d2.m.txpart, d1.m.txpart, s.m.txpart, 1);
    lemma_reset2_idem(d2.m.txtp_inter1, d1.m.txtp_inter1, s.m.txtp_inter1, 15);
    lemma_reset1_idem(d2.m.txtp_inter2, d1.m.txtp_inter2, s.m.txtp_inter2, 11);
    lemma_reset2_idem(d2.m.txtp_inter3, d1.m.txtp_inter3, s.m.txtp_inter3, 1);
    if intra {
        lemma_reset1_idem(d2.m.intrabc, d1.m.intrabc, s.m.intrabc, 1);
        lemma_reset1_idem(d2.dmv.joint, d1.dmv.joint, s.dmv.joint, 3);
        lemma_mv_comp_integer_idem(d2.dmv.comp[0], d1.dmv.comp[0], s.dmv.comp[0], o.dmv.comp[0]);
        lemma_mv_comp_integer_idem(d2.dmv.comp[1], d1.dmv.comp[1], s.dmv.comp[1], o.dmv.comp[1]);
        assert(d2.dmv.comp =~= d1.dmv.comp);
    } else {
        lemma_reset2_idem(d2.m.skip_mode, d1.m.skip_mode, s.m.skip_mode, 1);
        lemma_reset2_idem(d2.m.y_mode, d1.m.y_mode, s.m.y_mode, 12);
        lemma_reset3_idem(d2.m.filter, d1.m.filter, s.m.filter, 2);
        lemma_reset2_idem(d2.m.newmv_mode, d1.m.newmv_mode, s.m.newmv_mode, 1);
        lemma_reset2_idem(d2.m.globalmv_mode, d1.m.globalmv_mode, s.m.globalmv_mode, 1);
        lemma_reset2_idem(d2.m.refmv_mode, d1.m.refmv_mode, s.m.refmv_mode, 1);
        lemma_reset2_idem(d2.m.drl_bit, d1.m.drl_bit, s.m.drl_bit, 1);
        lemma_reset2_idem(d2.m.comp_inter_mode, d1.m.comp_inter_mode, s.m.comp_inter_mode, 7);
        lemma_reset2_idem(d2.m.intra, d1.m.intra, s.m.intra, 1);
        lemma_reset2_idem(d2.m.comp, d1.m.comp, s.m.comp, 1);
        lemma_reset2_idem(d2.m.comp_dir, d1.m.comp_dir, s.m.comp_dir, 1);
        lemma_reset2_idem(d2.m.jnt_comp, d1.m.jnt_comp, s.m.jnt_comp, 1);
        lemma_reset2_idem(d2.m.mask_comp, d1.m.mask_comp, s.m.mask_comp, 1);
        lemma_reset2_idem(d2.m.wedge_comp, d1.m.wedge_comp, s.m.wedge_comp, 1);
        lemma_reset2_idem(d2.m.wedge_idx, d1.m.wedge_idx, s.m.wedge_idx, 15);
        lemma_reset3_idem(d2.m.single_ref, d1.m.single_ref, s.m.single_ref, 1);
        lemma_reset3_idem(d2.m.comp_fwd_ref, d1.m.comp_fwd_ref, s.m.comp_fwd_ref, 1);
        lemma_reset3_idem(d2.m.comp_bwd_ref, d1.m.comp_bwd_ref, s.m.comp_bwd_ref, 1);
        lemma_reset3_idem(d2.m.comp_uni_ref, d1.m.comp_uni_ref, s.m.comp_uni_ref, 1);
        lemma_reset2_idem(d2.m.seg_pred, d1.m.seg_pred, s.m.seg_pred, 1);
        lemma_reset2_prefix_idem(d2.m.interintra, d1.m.interintra, s.m.interintra, o.m.interintra, 1, 4);
        lemma_reset2_idem(d2.m.interintra_wedge, d1.m.interintra_wedge, s.m.interintra_wedge, 1);
        lemma_reset2_idem(d2.m.interintra_mode, d1.m.interintra_mode, s.m.interintra_mode, 3);
        lemma_reset2_idem(d2.m.motion_mode, d1.m.motion_mode, s.m.motion_mode, 2);
        lemma_reset2_idem(d2.m.obmc, d1.m.obmc, s.m.obmc, 1);
        lemma_reset1_idem(d2.mv.joint, d1.mv.joint, s.mv.joint, 3);
        lemma_mv_comp_full_idem(d2.mv.comp[0], d1.mv.comp[0], s.mv.comp[0]);
        lemma_mv_comp_full_idem(d2.mv.comp[1], d1.mv.comp[1], s.mv.comp[1]);
        assert(d2.mv.comp =~= d1.mv.comp);
    }
    assert(d2.m == d1.m);
    assert(d2.coef == d1.coef);
    assert(d2.mv == d1.mv);
    assert(d2.dmv == d1.dmv);
}

/// The coefficient probability set used for base quantizer index `q`.
pub open spec fn spec_qcat_idx(q: int) -> int {
    if q <= 20 {
        0
    } else if q <= 60 {
        1
    } else if q <= 120 {
        2
    } else {
        3
    }
}

pub fn get_qcat_idx(q: i32) -> (r: u32)
    ensures
        r == spec_qcat_idx(q as int),
{
    if q <= 20 {
        return 0;
    }
    if q <= 60 {
        return 1;
    }
    if q <= 120 {
        return 2;
    }
    3
}

/// The coefficient probability set is one of four, and a larger quantizer
/// index never selects an earlier set.
pub proof fn lemma_qcat_monotone(q1: int, q2: int)
    ensures
        0 <= spec_qcat_idx(q1) < 4,
        q1 <= q2 ==> spec_qcat_idx(q1) <= spec_qcat_idx(q2),
{
}

} // verus!
