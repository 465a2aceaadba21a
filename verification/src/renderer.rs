//! The integer decisions of the rendering engine.
//!
//! The tracing itself works on floating-point rays and colors and lives
//! outside this crate; what is settled here is everything the renderer
//! decides before a ray is cast: the sampling and recursion limits it runs
//! with, the cut-off test that bounds the recursion, the row-major layout of
//! the pixel buffer, and the partition of pixels across workers.

use vstd::prelude::*;

use crate::args::Args;

verus! {

/// Maximum bounce depth for full-quality renders.
pub const DEFAULT_MAX_DEPTH: u8 = 5;

/// Bounce depth used when a preview is requested.
pub const PREVIEW_MAX_DEPTH: u8 = 1;

/// Per-pixel sample count used when a preview is requested.
pub const PREVIEW_SAMPLES: u8 = 1;

/// Sampling and recursion limits a render runs with.
#[derive(Debug, Clone, Copy, PartialEq, Eq, Structural)]
pub struct RenderSettings {
    /// Samples traced per pixel.
    pub samples: u8,
    /// Largest recursion depth at which `trace` still shades a hit.
    pub max_depth: u8,
}

impl RenderSettings {
    /// The sample count a render uses: a preview runs with
    /// [`PREVIEW_SAMPLES`] whatever count was requested.
    pub open spec fn spec_samples(preview: bool, requested: u8) -> u8 {
        if preview {
            PREVIEW_SAMPLES
        } else {
            requested
        }
    }

    /// The depth limit a render uses: a preview runs with
    /// [`PREVIEW_MAX_DEPTH`], any other render with [`DEFAULT_MAX_DEPTH`].
    pub open spec fn spec_max_depth(preview: bool) -> u8 {
        if preview {
            PREVIEW_MAX_DEPTH
        } else {
            DEFAULT_MAX_DEPTH
        }
    }

    /// The limits for the given arguments.
    pub fn new(args: &Args) -> (s: Self)
        ensures
            s.samples == Self::spec_samples(args.preview, args.samples),
            s.max_depth == Self::spec_max_depth(args.preview),
    {
        Self {
            samples: if args.preview {
                PREVIEW_SAMPLES
            } else {
                args.samples
            },
            max_depth: if args.preview {
                PREVIEW_MAX_DEPTH
            } else {
                DEFAULT_MAX_DEPTH
            },
        }
    }

    /// Returns the maximum ray tracing depth.
    pub fn max_depth(&self) -> (d: u8)
        ensures
            d == self.max_depth,
    {
        self.max_depth
    }

    /// The recursion cut-off of `trace`: at a depth beyond the limit it
    /// answers black immediately, without touching the scene.
    pub fn depth_exceeded(&self, depth: u8) -> (r: bool)
        ensures
            r == (depth > self.max_depth),
    {
        depth > self.max_depth
    }
}

/// A preview renders with exactly one sample per pixel and depth limit one,
/// however many samples were requested.
pub proof fn lemma_preview_override(requested: u8)
    ensures
        RenderSettings::spec_samples(true, requested) == 1,
        RenderSettings::spec_max_depth(true) == 1,
{
}

/// Number of entries in the pixel buffer: one per pixel.
pub fn pixel_count(width: u32, height: u32) -> (n: u32)
    requires
        width <= 8192,
        height <= 8192,
    ensures
        n == width * height,
{
    proof {
        assert(width * height <= 8192 * 8192) by (nonlinear_arith)
            requires
                width <= 8192,
                height <= 8192,
        ;
    }
    width * height
}

/// Column and row of the pixel at buffer index `n`, in the row-major order
/// the renderer enumerates: index 0 is column 0 of row 0, index `width` is
/// column 0 of row 1.
pub fn pixel_position(n: u32, width: u32) -> (p: (u32, u32))
    requires
        width >= 1,
    ensures
        p.0 == n % width,
        p.1 == n / width,
        p.0 < width,
        n == p.1 * width + p.0,
{
    proof {
        assert(n % width < width && n == (n / width) * width + n % width) by (nonlinear_arith)
            requires
                width >= 1,
        ;
    }
    (n % width, n / width)
}

/// Pixels handed to each worker: the pixel count divided by the worker
/// count, rounded up so that every pixel falls into some worker's chunk.
pub fn pixels_per_worker(total_pixels: usize, workers: usize) -> (k: usize)
    requires
        workers >= 1,
        total_pixels + workers <= usize::MAX,
    ensures
        k == (total_pixels + workers - 1) / (workers as int),
        k * workers >= total_pixels,
        total_pixels >= 1 ==> k >= 1,
        total_pixels == 0 ==> k == 0,
{
    let k: usize = (total_pixels + workers - 1) / workers;
    proof {
        let t = total_pixels as int;
        let w = workers as int;
        assert(k * w >= t && (t >= 1 ==> k >= 1) && (t == 0 ==> k == 0)) by (nonlinear_arith)
            requires
                w >= 1,
                k == (t + w - 1) / w,
        ;
    }
    k
}

} // verus!
