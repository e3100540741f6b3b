//! The three pixel bit depths of the decoder and the constants derived from them.
use vstd::prelude::*;
use crate::intops::spec_iclip;

verus! {

/// The bit depth of a picture. Pixels of every depth are held as `u16`.
#[derive(Clone, Copy, PartialEq, Eq, Debug)]
pub enum BitDepth {
    Bpc8,
    Bpc10,
    Bpc12,
}

impl BitDepth {
    pub open spec fn spec_bitdepth(self) -> int {
        match self {
            BitDepth::Bpc8 => 8,
            BitDepth::Bpc10 => 10,
            BitDepth::Bpc12 => 12,
        }
    }

    /// The largest pixel value, `2^bitdepth - 1`.
    pub open spec fn spec_bitdepth_max(self) -> int {
        match self {
            BitDepth::Bpc8 => 255,
            BitDepth::Bpc10 => 1023,
            BitDepth::Bpc12 => 4095,
        }
    }

    /// The extra precision kept by the two-pass filters: 4 bits below 12 bits
    /// per component, 2 bits at 12 bits per component.
    pub open spec fn spec_intermediate_bits(self) -> int {
        match self {
            BitDepth::Bpc8 => 4,
            BitDepth::Bpc10 => 4,
            BitDepth::Bpc12 => 2,
        }
    }

    /// The bias subtracted from intermediate (prepared) values: 0 for 8-bit
    /// pictures, 8192 for high bit depth pictures.
    pub open spec fn spec_prep_bias(self) -> int {
        match self {
            BitDepth::Bpc8 => 0,
            _ => 8192,
        }
    }

    pub fn bitdepth(&self) -> (r: u32)
        ensures
            r == self.spec_bitdepth(),
    {
        match self {
            BitDepth::Bpc8 => 8,
            BitDepth::Bpc10 => 10,
            BitDepth::Bpc12 => 12,
        }
    }

    pub fn bitdepth_max(&self) -> (r: i32)
        ensures
            r == self.spec_bitdepth_max(),
    {
        match self {
            BitDepth::Bpc8 => 255,
            BitDepth::Bpc10 => 1023,
            BitDepth::Bpc12 => 4095,
        }
    }

    pub fn get_intermediate_bits(&self) -> (r: u32)
        ensures
            r == self.spec_intermediate_bits(),
    {
        match self {
            BitDepth::Bpc8 => 4,
            BitDepth::Bpc10 => 4,
            BitDepth::Bpc12 => 2,
        }
    }

    pub fn prep_bias(&self) -> (r: i32)
        ensures
            r == self.spec_prep_bias(),
    {
        match self {
            BitDepth::Bpc8 => 0,
            _ => 8192,
        }
    }

    /// The bit depth whose largest pixel value is `bitdepth_max`, if any.
    pub fn from_bitdepth_max(bitdepth_max: i32) -> (r: Option<BitDepth>)
        ensures
            r matches Some(bd) ==> bd.spec_bitdepth_max() == bitdepth_max,
            r is None <==> !(bitdepth_max == 255 || bitdepth_max == 1023 || bitdepth_max == 4095),
    {
        if bitdepth_max == 255 {
            Some(BitDepth::Bpc8)
        } else if bitdepth_max == 1023 {
            Some(BitDepth::Bpc10)
        } else if bitdepth_max == 4095 {
            Some(BitDepth::Bpc12)
        } else {
            None
        }
    }

    /// The pixel of value `v` as the pixel type stores it: the low 8 bits at
    /// 8 bits per component, the low 16 bits otherwise.
    pub open spec fn spec_pixel_cast(self, v: int) -> u16 {
        match self {
            BitDepth::Bpc8 => (v as u8) as u16,
            _ => v as u16,
        }
    }

    pub fn pixel_cast(&self, v: i32) -> (r: u16)
        ensures
            r == self.spec_pixel_cast(v as int),
    {
        match self {
            BitDepth::Bpc8 => (v as u8) as u16,
            _ => v as u16,
        }
    }

    /// The pixel value `v` clamped to `[0, bitdepth_max]`.
    pub open spec fn spec_iclip_pixel(self, v: int) -> u16 {
        spec_iclip(v, 0, self.spec_bitdepth_max()) as u16
    }

    pub fn iclip_pixel(&self, v: i32) -> (r: u16)
        ensures
            r == self.spec_iclip_pixel(v as int),
            r <= self.spec_bitdepth_max(),
    {
        let max = self.bitdepth_max();
        if v < 0 {
            0
        } else if v > max {
            max as u16
        } else {
            v as u16
        }
    }
}

} // verus!
