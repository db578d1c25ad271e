use vstd::prelude::*;
use crate::error::PipelineError;

verus! {

/// Number of bytes of a tightly packed RGBA8 image.
pub open spec fn byte_len(width: nat, height: nat) -> nat {
    width * height * 4
}

/// Number of bytes of one tightly packed RGBA8 row.
pub open spec fn row_len(width: nat) -> nat {
    width * 4
}

/// An RGBA8 image in host memory: rows top to bottom, pixels left to right,
/// four bytes each, no padding between rows.
#[derive(Clone, Debug)]
pub struct PixelBuffer {
    pub width: u32,
    pub height: u32,
    pub pixels: Vec<u8>,
}

impl PixelBuffer {
    /// The byte count matches the dimensions.
    pub open spec fn wf(&self) -> bool {
        self.pixels@.len() == byte_len(self.width as nat, self.height as nat)
    }

    /// Builds a pixel buffer, refusing a byte count that does not match.
    pub fn new(width: u32, height: u32, pixels: Vec<u8>) -> (r: Result<PixelBuffer, PipelineError>)
        ensures
            (pixels@.len() == byte_len(width as nat, height as nat)) <==> r is Ok,
            r matches Ok(pb) ==> pb.width == width && pb.height == height && pb.pixels@
                == pixels@ && pb.wf(),
            r matches Err(e) ==> e == (PipelineError::SizeMismatch {
                expected: byte_len(width as nat, height as nat) as u128,
                actual: pixels@.len() as u128,
            }),
    {
        let expected: u128 = image_byte_len(width, height);
        if pixels.len() as u128 == expected {
            Ok(PixelBuffer { width, height, pixels })
        } else {
            Err(PipelineError::SizeMismatch { expected, actual: pixels.len() as u128 })
        }
    }
}

/// Number of bytes of a tightly packed RGBA8 image, as a machine integer.
pub fn image_byte_len(width: u32, height: u32) -> (r: u128)
    ensures
        r == byte_len(width as nat, height as nat),
{
    proof {
        lemma_byte_len_fits(width, height);
    }
    width as u128 * height as u128 * 4
}

/// Number of bytes of one tightly packed RGBA8 row, as a machine integer.
pub fn row_byte_len(width: u32) -> (r: u64)
    ensures
        r == row_len(width as nat),
{
    width as u64 * 4
}

proof fn lemma_byte_len_fits(width: u32, height: u32)
    ensures
        byte_len(width as nat, height as nat) <= u128::MAX,
{
    assert((width as int) * (height as int) * 4 <= u128::MAX) by (nonlinear_arith)
        requires
            width <= u32::MAX,
            height <= u32::MAX,
    {
    }
}

} // verus!
