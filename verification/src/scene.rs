//! The scene factory's choices.
//!
//! Building a scene means loading assets and laying out floating-point
//! geometry, which happens outside this crate; the factory's own decisions —
//! which scene type the arguments select and at what view size it is built —
//! are settled here.

use vstd::prelude::*;

use crate::args::Args;

verus! {

/// Available scene types that the factory can create.
#[derive(Debug, Clone, PartialEq, Eq, Structural, Default)]
pub enum SceneType {
    /// Classic Cornell-box scene for testing global illumination.
    #[default]
    CornellBox,
}

/// Factory for creating scenes from configuration arguments.
pub struct SceneFactory;

impl SceneFactory {
    /// The scene type selected for the given arguments. Only the Cornell box
    /// is supported, so every configuration selects it.
    pub fn scene_type(_args: &Args) -> (t: SceneType)
        ensures
            t == SceneType::CornellBox,
    {
        SceneType::CornellBox
    }

    /// The view size the factory builds the scene with: the requested height
    /// for both dimensions, so the Cornell box renders as a square image.
    pub fn view_size(args: &Args) -> (v: (u32, u32))
        ensures
            v.0 == args.height,
            v.1 == args.height,
    {
        (args.height, args.height)
    }
}

} // verus!
