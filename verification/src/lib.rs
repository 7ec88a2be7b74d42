//! Verified core of a 3D rendering client.
//!
//! The client registers shaders, has them compiled in the background, and
//! renders a frame only when the shaders that it needs are there. This
//! library holds what decides that: the shader cache with its registry and
//! module store, the bookkeeping of the background compiler, the fence that
//! holds frames back until the compiles before it are done, the vertex
//! layouts of the built-in shaders, and the step that opens each frame.
//! Loading sources, compiling them on the GPU and presenting frames is left
//! to the program around it.
//!
//! The cache is a state machine. `gfx::shader_model` states what each
//! operation does to its state, `gfx::shader` implements the operations,
//! `gfx::shader_invariant` and `gfx::shader_fence` show that they keep the
//! invariants of the handles and of the fence, and `gfx::shader_laws` proves
//! what follows for every run of operations.

pub mod gfx;
