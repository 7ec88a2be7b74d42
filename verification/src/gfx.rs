//! Graphics state: the shader cache with its background compiler, the vertex
//! layouts of the built-in shaders, the keys of the render targets, and the
//! decision that opens each frame.

pub mod error;
pub mod rendertarget;
pub mod shader;
pub mod shader_attributes;
pub mod shader_fence;
pub mod shader_invariant;
pub mod shader_laws;
pub mod shader_model;
pub mod text;

use vstd::prelude::*;
use crate::gfx::error::GfxError;
use crate::gfx::shader::State;

verus! {

/// What the frame loop does with a frame.
#[derive(Copy, Clone, Debug, PartialEq, Eq, Structural)]
pub enum FrameAction {
    /// Nothing: the frame is skipped, and no image is acquired, recorded or
    /// presented.
    Skip,
    /// Acquire the next image of the surface, record the frame's commands,
    /// submit them and present the image.
    Render,
}

/// Opens a frame: gives the shader cache its frame, and decides from the frame
/// status whether the frame is rendered. While a fence waits for shaders, the
/// frame is skipped, so that no render pass meets a module that has not been
/// compiled: a frame is rendered only when every handle from before the last
/// fence has its module in the store or its failure on record.
pub fn do_frame<M>(state: &mut State<M>) -> (action: FrameAction)
    requires
        old(state).wf(),
    ensures
        final(state).wf(),
        final(state)@ == old(state)@.do_frame(),
        action == (if final(state)@.skips_frame() {
            FrameAction::Skip
        } else {
            FrameAction::Render
        }),
        action == FrameAction::Render ==> final(state)@.fence_is_satisfied(),
{
    let shader_cache_frame_status = state.shader_cache_mut().do_frame();
    if shader_cache_frame_status.contains(
        shader::ShaderCacheFrameStatus::skip_frame_for_shader_processing(),
    ) {
        FrameAction::Skip
    } else {
        FrameAction::Render
    }
}

/// The next step of a frame that is rendered, once the surface has been asked
/// for its next image: goes on with the image where there is one, and fails
/// with `SurfaceAcquisitionFailed` where the surface could not produce it.
/// The failure is handed on as it is; nothing is tried again.
pub fn surface_acquired<T>(surface_texture: Option<T>) -> (result: Result<T, GfxError>)
    ensures
        result == (match surface_texture {
            Some(texture) => Ok::<T, GfxError>(texture),
            None => Err::<T, GfxError>(GfxError::SurfaceAcquisitionFailed),
        }),
{
    match surface_texture {
        Some(texture) => Ok(texture),
        None => Err(GfxError::SurfaceAcquisitionFailed),
    }
}

} // verus!
