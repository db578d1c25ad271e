use vstd::prelude::*;
use crate::error::PipelineError;
use crate::pixels::{PixelBuffer, byte_len, row_len};

verus! {

/// Pixel formats a surface can have; this pipeline works in `Rgba8Unorm`.
#[derive(Clone, Copy, Debug, PartialEq, Eq, Structural)]
pub enum PixelFormat {
    Rgba8Unorm,
    Bgra8Unorm,
    R8Unorm,
    Rgba16Unorm,
}

/// What a compute kernel may do with a surface.
#[derive(Clone, Copy, Debug, PartialEq, Eq, Structural)]
pub struct TextureUsage {
    pub shader_read: bool,
    pub shader_write: bool,
}

/// The description of a two-dimensional surface on the device.
#[derive(Clone, Copy, Debug, PartialEq, Eq, Structural)]
pub struct TextureDesc {
    pub width: u32,
    pub height: u32,
    pub format: PixelFormat,
    pub usage: TextureUsage,
}

/// A full-surface copy between host memory and a surface.
#[derive(Clone, Copy, Debug, PartialEq, Eq, Structural)]
pub struct Region {
    pub width: u64,
    pub height: u64,
    pub bytes_per_row: u64,
}

impl TextureDesc {
    /// A surface of the pipeline's format, readable and writable by kernels.
    pub open spec fn is_pipeline_surface(&self) -> bool {
        &&& self.width > 0
        &&& self.height > 0
        &&& self.format == PixelFormat::Rgba8Unorm
        &&& self.usage == (TextureUsage { shader_read: true, shader_write: true })
    }

    /// Describes the input surface for an image of the given size.
    /// Fails with `EmptySurface` when either side is zero.
    pub fn for_image(width: u32, height: u32) -> (r: Result<TextureDesc, PipelineError>)
        ensures
            r is Ok <==> (width > 0 && height > 0),
            r matches Ok(d) ==> d.width == width && d.height == height && d.is_pipeline_surface(),
            r matches Err(e) ==> e == PipelineError::EmptySurface,
    {
        if width == 0 || height == 0 {
            return Err(PipelineError::EmptySurface);
        }
        Ok(TextureDesc {
            width,
            height,
            format: PixelFormat::Rgba8Unorm,
            usage: TextureUsage { shader_read: true, shader_write: true },
        })
    }

    /// Describes a surface of the same size, format and usage, for the output.
    pub fn create_like(&self) -> (r: TextureDesc)
        ensures
            r == *self,
    {
        TextureDesc {
            width: self.width,
            height: self.height,
            format: self.format,
            usage: self.usage,
        }
    }

    /// Checks that an output surface has the input's pixel format.
    pub fn check_same_format(&self, other: &TextureDesc) -> (r: Result<(), PipelineError>)
        ensures
            r is Ok <==> self.format == other.format,
            r matches Err(e) ==> e == PipelineError::FormatMismatch,
    {
        if self.format == other.format {
            Ok(())
        } else {
            Err(PipelineError::FormatMismatch)
        }
    }

    /// The region that replaces the whole surface with the bytes of `pb`, rows
    /// `width * 4` bytes apart. Fails with `FormatMismatch` when the surface is
    /// not RGBA8, and with `SizeMismatch` when `pb` does not hold exactly the
    /// surface's byte count.
    pub fn upload_region(&self, pb: &PixelBuffer) -> (r: Result<Region, PipelineError>)
        ensures
            r is Ok <==> (self.format == PixelFormat::Rgba8Unorm && pb.pixels@.len() == byte_len(
                self.width as nat,
                self.height as nat,
            )),
            r matches Ok(reg) ==> reg == (Region {
                width: self.width as u64,
                height: self.height as u64,
                bytes_per_row: row_len(self.width as nat) as u64,
            }),
            self.format != PixelFormat::Rgba8Unorm ==> r == Err::<Region, PipelineError>(
                PipelineError::FormatMismatch,
            ),
            self.format == PixelFormat::Rgba8Unorm && pb.pixels@.len() != byte_len(
                self.width as nat,
                self.height as nat,
            ) ==> r == Err::<Region, PipelineError>(
                PipelineError::SizeMismatch {
                    expected: byte_len(self.width as nat, self.height as nat) as u128,
                    actual: pb.pixels@.len() as u128,
                },
            ),
    {
        if self.format != PixelFormat::Rgba8Unorm {
            return Err(PipelineError::FormatMismatch);
        }
        let expected: u128 = crate::pixels::image_byte_len(self.width, self.height);
        let actual: u128 = pb.pixels.len() as u128;
        if actual != expected {
            return Err(PipelineError::SizeMismatch { expected, actual });
        }
        Ok(Region {
            width: self.width as u64,
            height: self.height as u64,
            bytes_per_row: crate::pixels::row_byte_len(self.width),
        })
    }
}

} // verus!
