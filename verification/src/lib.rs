//! Verified pixel-processing kernels of an AV1 decoder.
use vstd::prelude::*;

pub mod bitdepth;
pub mod cdef;
pub mod cdef_dir;
pub mod cdef_dsp;
pub mod cdf;
pub mod cdf_default_coef;
pub mod cdf_default_mode;
pub mod cdf_default_mv;
pub mod cdf_thread;
pub mod compound;
pub mod emu_edge;
pub mod intops;
pub mod mc;
pub mod mc_dsp;
pub mod plane;
pub mod tables;
pub mod warp;

verus! {

} // verus!
