//! Keys of the render targets.

use vstd::prelude::*;

verus! {

/// Key of a colour render target.
#[derive(Copy, Clone, Hash, Eq, PartialEq, Debug, Structural)]
pub enum ColorRenderTargetKey {
    /// No render target.
    Invalid,
    /// The image of the window's surface for the current frame.
    Window,
    /// A render target of the user.
    Other(u32),
}

impl Default for ColorRenderTargetKey {
    fn default() -> (key: Self)
        ensures
            key == ColorRenderTargetKey::Invalid,
    {
        ColorRenderTargetKey::Invalid
    }
}

/// Key of a depth render target.
#[derive(Copy, Clone, Hash, Eq, PartialEq, Debug, Structural)]
pub enum DepthRenderTargetKey {
    /// No render target.
    Invalid,
    /// The depth buffer of the window.
    Window,
    /// A render target of the user.
    Other(u32),
}

impl Default for DepthRenderTargetKey {
    fn default() -> (key: Self)
        ensures
            key == DepthRenderTargetKey::Invalid,
    {
        DepthRenderTargetKey::Invalid
    }
}

/// Key of a render target: its kind and its key there.
#[derive(Copy, Clone, Hash, Eq, PartialEq, Debug, Structural)]
pub enum RenderTargetKey {
    /// A colour render target.
    Color(ColorRenderTargetKey),
    /// A depth render target.
    Depth(DepthRenderTargetKey),
}

} // verus!
