//! Error kinds of the graphics layer.

use vstd::prelude::*;

verus! {

/// What can go wrong while shaders are registered, compiled, looked up, or a
/// frame is driven.
#[derive(Copy, Clone, Debug, PartialEq, Eq, Hash, Structural)]
pub enum GfxError {
    /// The bytes of a shader source could not be loaded.
    UnreadableSource,
    /// The source is not in a supported shader language: the extension of its
    /// path is unknown, or its bytes are not text.
    UnsupportedShaderFormat,
    /// No vertex layout is known for a vertex shader's path and entry point.
    UnknownVertexLayout,
    /// The presentation surface could not produce an image for the frame.
    SurfaceAcquisitionFailed,
    /// No shader module handle is left to hand out.
    HandleExhausted,
    /// The shader key was never registered.
    ShaderNotFound,
}

impl GfxError {
    /// A short description for logs and panics.
    pub fn message(&self) -> (text: &'static str)
        ensures
            text@ == self.spec_message(),
    {
        match self {
            GfxError::UnreadableSource => "cannot read shader source",
            GfxError::UnsupportedShaderFormat => "unsupported shader format",
            GfxError::UnknownVertexLayout => "unsupported shader",
            GfxError::SurfaceAcquisitionFailed => "surface acquisition error",
            GfxError::HandleExhausted => "shader module handles exhausted",
            GfxError::ShaderNotFound => "shader not found",
        }
    }

    /// The text that `message` returns.
    pub open spec fn spec_message(&self) -> Seq<char> {
        match self {
            GfxError::UnreadableSource => "cannot read shader source"@,
            GfxError::UnsupportedShaderFormat => "unsupported shader format"@,
            GfxError::UnknownVertexLayout => "unsupported shader"@,
            GfxError::SurfaceAcquisitionFailed => "surface acquisition error"@,
            GfxError::HandleExhausted => "shader module handles exhausted"@,
            GfxError::ShaderNotFound => "shader not found"@,
        }
    }
}

} // verus!
