//! Command-line configuration for the ray tracer, and its validation.

use vstd::prelude::*;

verus! {

/// Largest width or height the renderer accepts, a sanity bound that keeps
/// the pixel buffer from exhausting memory.
pub const MAX_DIMENSION: u32 = 8192;

/// Available camera types for rendering.
#[derive(Debug, Clone, PartialEq, Eq, Structural)]
pub enum ArgCamera {
    /// Simple pinhole camera model.
    Simple,
    /// Thin-lens camera model with depth-of-field effects.
    ThinLens,
}

/// Configuration options for the ray tracer.
#[derive(Debug, Clone)]
pub struct Args {
    /// Render a quick preview with minimal samples and depth.
    pub preview: bool,
    /// Width of the output image in pixels.
    pub width: u32,
    /// Height of the output image in pixels.
    pub height: u32,
    /// Camera type to use for rendering.
    pub camera: ArgCamera,
    /// Requested number of samples per pixel for antialiasing.
    pub samples: u8,
}

impl Args {
    /// Arguments the renderer may start with: nonzero dimensions within the
    /// sanity bound and a nonzero sample count.
    pub open spec fn valid(self) -> bool {
        &&& 1 <= self.width <= MAX_DIMENSION
        &&& 1 <= self.height <= MAX_DIMENSION
        &&& self.samples >= 1
    }

    /// Checks the configuration, returning `Ok` exactly on valid arguments
    /// and otherwise the message for the first failing check.
    pub fn validate(&self) -> (r: Result<(), String>)
        ensures
            r is Ok <==> self.valid(),
            (self.width == 0 || self.height == 0) ==> (r matches Err(m)
                && m@ == "Width and height must be greater than 0"@),
            (self.width >= 1 && self.height >= 1 && self.samples == 0) ==> (r matches Err(m)
                && m@ == "Sample count must be greater than 0"@),
            (self.width >= 1 && self.height >= 1 && self.samples >= 1 && (self.width
                > MAX_DIMENSION || self.height > MAX_DIMENSION)) ==> (r matches Err(m)
                && m@ == "Width and height must be 8192 or less"@),
    {
        if self.width == 0 || self.height == 0 {
            return Err("Width and height must be greater than 0".to_owned());
        }
        if self.samples == 0 {
            return Err("Sample count must be greater than 0".to_owned());
        }
        if self.width > MAX_DIMENSION || self.height > MAX_DIMENSION {
            return Err("Width and height must be 8192 or less".to_owned());
        }
        Ok(())
    }
}

} // verus!
