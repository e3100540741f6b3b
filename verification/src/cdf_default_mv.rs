//! The default motion vector probabilities: of the joint (which components
//! are non-zero) and of each component. They are held as cumulative
//! probabilities (out of 32768) and converted to the stored CDF form when a
//! context is built.
use vstd::prelude::*;
use crate::cdf::{CdfMvComponent, stored_cdf0d, stored_cdf1d, is_cdf0d, is_cdf1d};

verus! {
pub const MV_COMPONENT_CLASSES_PROBS: [u16; 10] = [28672, 30976, 31858, 32320, 32551, 32656, 32740, 32757, 32762, 32767];

pub const MV_COMPONENT_CLASS0_FP_PROBS: [[u16; 3]; 2] = [
    [16384, 24576, 26624],
    [12288, 21248, 24128],
];

pub const MV_COMPONENT_CLASSN_FP_PROBS: [u16; 3] = [8192, 17408, 21248];

pub const MV_COMPONENT_CLASS0_HP_PROBS: [u16; 1] = [20480];

pub const MV_COMPONENT_CLASSN_HP_PROBS: [u16; 1] = [16384];

pub const MV_COMPONENT_CLASS0_PROBS: [u16; 1] = [27648];

pub const MV_COMPONENT_CLASSN_PROBS: [[u16; 1]; 10] = [
    [17408],
    [17920],
    [18944],
    [20480],
    [22528],
    [24576],
    [28672],
    [29952],
    [29952],
    [30720],
];

pub const MV_COMPONENT_SIGN_PROBS: [u16; 1] = [16384];

pub const MV_JOINT_PROBS: [u16; 3] = [4096, 11264, 19328];

/// `c` holds the default probabilities of a motion vector component.
pub closed spec fn is_default_mv_component_cdf(c: CdfMvComponent) -> bool {
    &&& is_cdf0d(c.classes, MV_COMPONENT_CLASSES_PROBS)
    &&& is_cdf1d(c.class0_fp, MV_COMPONENT_CLASS0_FP_PROBS)
    &&& is_cdf0d(c.classN_fp, MV_COMPONENT_CLASSN_FP_PROBS)
    &&& is_cdf0d(c.class0_hp, MV_COMPONENT_CLASS0_HP_PROBS)
    &&& is_cdf0d(c.classN_hp, MV_COMPONENT_CLASSN_HP_PROBS)
    &&& is_cdf0d(c.class0, MV_COMPONENT_CLASS0_PROBS)
    &&& is_cdf1d(c.classN, MV_COMPONENT_CLASSN_PROBS)
    &&& is_cdf0d(c.sign, MV_COMPONENT_SIGN_PROBS)
}

/// Unfolds `is_default_mv_component_cdf`, with the stored values of the
/// one-symbol tables.
pub proof fn lemma_default_mv_component_cdf(c: CdfMvComponent)
    requires
        is_default_mv_component_cdf(c),
    ensures
        is_cdf0d(c.classes, MV_COMPONENT_CLASSES_PROBS),
        is_cdf1d(c.class0_fp, MV_COMPONENT_CLASS0_FP_PROBS),
        is_cdf0d(c.classN_fp, MV_COMPONENT_CLASSN_FP_PROBS),
        is_cdf0d(c.class0_hp, MV_COMPONENT_CLASS0_HP_PROBS),
        is_cdf0d(c.classN_hp, MV_COMPONENT_CLASSN_HP_PROBS),
        is_cdf0d(c.class0, MV_COMPONENT_CLASS0_PROBS),
        is_cdf1d(c.classN, MV_COMPONENT_CLASSN_PROBS),
        is_cdf0d(c.sign, MV_COMPONENT_SIGN_PROBS),
        c.sign == [16384u16, 0u16],
        c.class0 == [5120u16, 0u16],
        c.class0_hp == [12288u16, 0u16],
        c.classN_hp == [16384u16, 0u16],
{
    assert(c.sign =~= [16384u16, 0u16]);
    assert(c.class0 =~= [5120u16, 0u16]);
    assert(c.class0_hp =~= [12288u16, 0u16]);
    assert(c.classN_hp =~= [16384u16, 0u16]);
}

/// The default probabilities of a motion vector component.
pub fn default_mv_component_cdf() -> (c: CdfMvComponent)
    ensures
        is_default_mv_component_cdf(c),
{
    CdfMvComponent {
        classes: stored_cdf0d(MV_COMPONENT_CLASSES_PROBS),
        class0_fp: stored_cdf1d(MV_COMPONENT_CLASS0_FP_PROBS),
        classN_fp: stored_cdf0d(MV_COMPONENT_CLASSN_FP_PROBS),
        class0_hp: stored_cdf0d(MV_COMPONENT_CLASS0_HP_PROBS),
        classN_hp: stored_cdf0d(MV_COMPONENT_CLASSN_HP_PROBS),
        class0: stored_cdf0d(MV_COMPONENT_CLASS0_PROBS),
        classN: stored_cdf1d(MV_COMPONENT_CLASSN_PROBS),
        sign: stored_cdf0d(MV_COMPONENT_SIGN_PROBS),
    }
}

/// `j` holds the default motion vector joint probabilities.
pub closed spec fn is_default_mv_joint_cdf(j: [u16; 4]) -> bool {
    is_cdf0d(j, MV_JOINT_PROBS)
}

/// Unfolds `is_default_mv_joint_cdf`: the stored default joint values.
pub proof fn lemma_default_mv_joint_cdf(j: [u16; 4])
    requires
        is_default_mv_joint_cdf(j),
    ensures
        is_cdf0d(j, MV_JOINT_PROBS),
        j == [28672u16, 21504u16, 13440u16, 0u16],
{
    assert(j =~= [28672u16, 21504u16, 13440u16, 0u16]);
}

/// The default motion vector joint probabilities.
pub fn default_mv_joint_cdf() -> (j: [u16; 4])
    ensures
        is_default_mv_joint_cdf(j),
{
    stored_cdf0d(MV_JOINT_PROBS)
}

} // verus!
