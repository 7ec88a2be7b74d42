use matono_client::gfx::error::GfxError;
use matono_client::gfx::shader::{
    CompileShaderTask, PixelShaderKey, ShaderCache, ShaderCacheFrameStatus, ShaderEntrypoints,
    ShaderKey, ShaderModuleConstant, ShaderModuleDescriptor, ShaderModuleHandle, ShaderProcessor,
    ShaderSource, State, VertexShaderKey, SKIP_FRAME_FOR_SHADER_PROCESSING,
};
use matono_client::gfx::{do_frame, surface_acquired, FrameAction};

fn descriptor(path: &str) -> ShaderModuleDescriptor {
    ShaderModuleDescriptor::new(path.to_string(), vec![])
}

fn skip() -> ShaderCacheFrameStatus {
    ShaderCacheFrameStatus::skip_frame_for_shader_processing()
}

/// Registers a module with one pixel shader under `Other(n)`.
fn add_pixel_shader(state: &mut State<String>, n: u32) -> ShaderModuleHandle {
    state
        .add_shader_module(
            descriptor(&format!("data/shaders/user{}.wgsl", n)),
            &[ShaderEntrypoints::PS((PixelShaderKey::Other(n), "ps_main"))],
        )
        .unwrap()
}

fn module_of(task: &CompileShaderTask) -> String {
    format!("compiled {}", task.descriptor.path())
}

#[test]
fn new_cache_is_empty_and_renders() {
    let mut state: State<String> = State::new();
    assert!(state.shader_cache().frame_status().is_empty());
    assert!(!state.is_shader_ready(ShaderKey::VS(VertexShaderKey::PassthroughVS)));
    assert!(state.shader_cache_mut().take_spawned().is_empty());
    assert_eq!(state.shader_cache_mut().do_frame(), ShaderCacheFrameStatus::ok());
    assert_eq!(do_frame(&mut state), FrameAction::Render);
}

#[test]
fn handles_are_issued_in_rising_order_from_one() {
    let mut state: State<String> = State::new();
    let h1 = add_pixel_shader(&mut state, 1);
    let h2 = add_pixel_shader(&mut state, 2);
    let h3 = add_pixel_shader(&mut state, 3);
    assert_eq!(h1.index(), 1);
    assert_eq!(h2.index(), 2);
    assert_eq!(h3.index(), 3);
    assert_ne!(h1, h2);
}

#[test]
fn vertex_and_pixel_shader_share_one_module() {
    let mut state: State<String> = State::new();
    let handle = state
        .add_shader_module(
            descriptor("data/shaders/passthrough.wgsl"),
            &[
                ShaderEntrypoints::VS((VertexShaderKey::PassthroughVS, "vs_passthrough")),
                ShaderEntrypoints::PS((PixelShaderKey::PassthroughPS, "ps_passthrough")),
            ],
        )
        .unwrap();
    assert!(state.is_shader_ready(ShaderKey::VS(VertexShaderKey::PassthroughVS)));
    assert!(state.is_shader_ready(ShaderKey::PS(PixelShaderKey::PassthroughPS)));
    assert!(!state.is_shader_ready(ShaderKey::VS(VertexShaderKey::GltfVS)));
    assert!(!state.is_shader_ready(ShaderKey::PS(PixelShaderKey::GltfPS)));

    // Exactly one compile task was queued, and it is for the handle.
    state.shader_cache_mut().process();
    let tasks = state.shader_cache_mut().take_spawned();
    assert_eq!(tasks.len(), 1);
    assert_eq!(tasks[0].handle, handle);
    assert_eq!(tasks[0].descriptor.path(), "data/shaders/passthrough.wgsl");
    assert!(tasks[0].descriptor.constants().is_empty());
    assert!(state.shader_cache().is_compile_in_flight(handle));

    // Both entries name the one module.
    assert!(state.shader_cache_mut().finish_compile(handle, Ok("the module".to_string())));
    state.shader_cache_mut().receive_processed_shaders();
    let vs = state.use_shader(ShaderKey::VS(VertexShaderKey::PassthroughVS)).ok().unwrap();
    let ps = state.use_shader(ShaderKey::PS(PixelShaderKey::PassthroughPS)).ok().unwrap();
    assert_eq!(vs.module, "the module");
    assert_eq!(vs.entrypoint, "vs_passthrough");
    assert_eq!(ps.module, "the module");
    assert_eq!(ps.entrypoint, "ps_passthrough");
    assert!(std::ptr::eq(vs.module, ps.module));
}

#[test]
fn unsupported_extension_is_refused_and_changes_nothing() {
    let mut state: State<String> = State::new();
    let result = state.add_shader_module(
        descriptor("data/shaders/passthrough.glsl"),
        &[
            ShaderEntrypoints::VS((VertexShaderKey::PassthroughVS, "vs_passthrough")),
            ShaderEntrypoints::PS((PixelShaderKey::PassthroughPS, "ps_passthrough")),
        ],
    );
    assert_eq!(result.err(), Some(GfxError::UnsupportedShaderFormat));
    assert!(!state.is_shader_ready(ShaderKey::VS(VertexShaderKey::PassthroughVS)));
    assert!(!state.is_shader_ready(ShaderKey::PS(PixelShaderKey::PassthroughPS)));
    assert_eq!(state.find_vertex_shader_stride(VertexShaderKey::PassthroughVS), None);
    // No task went into the channel, and no compile is counted.
    state.shader_cache_mut().process();
    assert!(state.shader_cache_mut().take_spawned().is_empty());
    // The handle was not used up.
    assert_eq!(add_pixel_shader(&mut state, 7).index(), 1);
}

#[test]
fn extension_must_be_the_end_of_the_path() {
    let mut state: State<String> = State::new();
    for path in ["", "wgsl", ".wgs", "shader.wgsl.bak", "shader.WGSL", "shader.wgsl "] {
        let result = state.add_shader_module(
            descriptor(path),
            &[ShaderEntrypoints::PS((PixelShaderKey::Other(0), "ps"))],
        );
        assert_eq!(result.err(), Some(GfxError::UnsupportedShaderFormat), "{:?}", path);
    }
    for path in [".wgsl", "a.wgsl", "répertoire/ombre.wgsl"] {
        let result = state.add_shader_module(
            descriptor(path),
            &[ShaderEntrypoints::PS((PixelShaderKey::Other(0), "ps"))],
        );
        assert!(result.is_ok(), "{:?}", path);
    }
}

#[test]
fn vertex_shader_without_layout_is_refused_and_changes_nothing() {
    let mut state: State<String> = State::new();
    let result = state.add_shader_module(
        descriptor("data/shaders/passthrough.wgsl"),
        &[
            ShaderEntrypoints::PS((PixelShaderKey::PassthroughPS, "ps_passthrough")),
            ShaderEntrypoints::VS((VertexShaderKey::PassthroughVS, "vs_unknown")),
        ],
    );
    assert_eq!(result.err(), Some(GfxError::UnknownVertexLayout));
    // Not even the pixel shader before it was entered.
    assert!(!state.is_shader_ready(ShaderKey::PS(PixelShaderKey::PassthroughPS)));
    assert!(!state.is_shader_ready(ShaderKey::VS(VertexShaderKey::PassthroughVS)));
    state.shader_cache_mut().process();
    assert!(state.shader_cache_mut().take_spawned().is_empty());

    let result = state.add_shader_module(
        descriptor("data/shaders/other.wgsl"),
        &[ShaderEntrypoints::VS((VertexShaderKey::Other(1), "vs_passthrough"))],
    );
    assert_eq!(result.err(), Some(GfxError::UnknownVertexLayout));
}

#[test]
fn the_format_is_checked_before_the_layout() {
    let mut state: State<String> = State::new();
    let result = state.add_shader_module(
        descriptor("data/shaders/passthrough.spv"),
        &[ShaderEntrypoints::VS((VertexShaderKey::PassthroughVS, "vs_unknown"))],
    );
    assert_eq!(result.err(), Some(GfxError::UnsupportedShaderFormat));
}

#[test]
fn a_module_without_entry_points_is_compiled_too() {
    let mut state: State<String> = State::new();
    let handle = state.add_shader_module(descriptor("lib.wgsl"), &[]).unwrap();
    state.shader_cache_mut().process();
    let tasks = state.shader_cache_mut().take_spawned();
    assert_eq!(tasks.len(), 1);
    assert_eq!(tasks[0].handle, handle);
}

#[test]
fn registering_again_replaces_the_entry() {
    let mut state: State<String> = State::new();
    let first = state
        .add_shader_module(
            descriptor("a.wgsl"),
            &[ShaderEntrypoints::PS((PixelShaderKey::Other(5), "ps_a"))],
        )
        .unwrap();
    let second = state
        .add_shader_module(
            descriptor("b.wgsl"),
            &[ShaderEntrypoints::PS((PixelShaderKey::Other(5), "ps_b"))],
        )
        .unwrap();
    state.shader_cache_mut().process();
    state.shader_cache_mut().take_spawned();
    assert!(state.shader_cache_mut().finish_compile(first, Ok("A".to_string())));
    state.shader_cache_mut().receive_processed_shaders();
    // The entry names the second module, which is not there yet.
    assert!(!state.can_use_shader(ShaderKey::PS(PixelShaderKey::Other(5))));
    assert!(state.shader_cache_mut().finish_compile(second, Ok("B".to_string())));
    state.shader_cache_mut().receive_processed_shaders();
    let shader = state.use_shader(ShaderKey::PS(PixelShaderKey::Other(5))).ok().unwrap();
    assert_eq!(shader.module, "B");
    assert_eq!(shader.entrypoint, "ps_b");
}

#[test]
fn the_last_of_two_entries_with_one_key_stays() {
    let mut state: State<String> = State::new();
    let handle = state
        .add_shader_module(
            descriptor("a.wgsl"),
            &[
                ShaderEntrypoints::PS((PixelShaderKey::Other(5), "first")),
                ShaderEntrypoints::PS((PixelShaderKey::Other(5), "second")),
            ],
        )
        .unwrap();
    state.shader_cache_mut().process();
    assert!(state.shader_cache_mut().finish_compile(handle, Ok("A".to_string())));
    state.shader_cache_mut().receive_processed_shaders();
    let shader = state.use_shader(ShaderKey::PS(PixelShaderKey::Other(5))).ok().unwrap();
    assert_eq!(shader.entrypoint, "second");
}

#[test]
fn keys_of_different_stages_and_numbers_are_kept_apart() {
    let mut state: State<String> = State::new();
    let vs = state
        .add_shader_module(
            descriptor("data/shaders/gltf.wgsl"),
            &[ShaderEntrypoints::VS((VertexShaderKey::Other(0), "vs"))],
        )
        .unwrap();
    let ps = state
        .add_shader_module(
            descriptor("p.wgsl"),
            &[
                ShaderEntrypoints::PS((PixelShaderKey::Other(0), "ps0")),
                ShaderEntrypoints::PS((PixelShaderKey::Other(u32::MAX), "ps_max")),
                ShaderEntrypoints::PS((PixelShaderKey::Invalid, "ps_invalid")),
            ],
        )
        .unwrap();
    assert!(state.is_shader_ready(ShaderKey::VS(VertexShaderKey::Other(0))));
    assert!(state.is_shader_ready(ShaderKey::PS(PixelShaderKey::Other(0))));
    assert!(state.is_shader_ready(ShaderKey::PS(PixelShaderKey::Other(u32::MAX))));
    assert!(state.is_shader_ready(ShaderKey::PS(PixelShaderKey::Invalid)));
    assert!(!state.is_shader_ready(ShaderKey::VS(VertexShaderKey::Invalid)));
    assert!(!state.is_shader_ready(ShaderKey::VS(VertexShaderKey::Other(1))));
    assert!(!state.is_shader_ready(ShaderKey::VS(VertexShaderKey::Other(u32::MAX))));
    assert!(!state.is_shader_ready(ShaderKey::PS(PixelShaderKey::Other(1))));
    assert!(!state.is_shader_ready(ShaderKey::PS(PixelShaderKey::PassthroughPS)));
    assert!(!state.is_shader_ready(ShaderKey::PS(PixelShaderKey::GltfPS)));

    state.shader_cache_mut().process();
    assert!(state.shader_cache_mut().finish_compile(vs, Ok("V".to_string())));
    assert!(state.shader_cache_mut().finish_compile(ps, Ok("P".to_string())));
    state.shader_cache_mut().receive_processed_shaders();
    let shader = state.use_shader(ShaderKey::VS(VertexShaderKey::Other(0))).ok().unwrap();
    assert_eq!((shader.module.as_str(), shader.entrypoint), ("V", "vs"));
    let shader = state.use_shader(ShaderKey::PS(PixelShaderKey::Other(0))).ok().unwrap();
    assert_eq!((shader.module.as_str(), shader.entrypoint), ("P", "ps0"));
    let shader = state.use_shader(ShaderKey::PS(PixelShaderKey::Other(u32::MAX))).ok().unwrap();
    assert_eq!((shader.module.as_str(), shader.entrypoint), ("P", "ps_max"));
    let shader = state.use_shader(ShaderKey::PS(PixelShaderKey::Invalid)).ok().unwrap();
    assert_eq!((shader.module.as_str(), shader.entrypoint), ("P", "ps_invalid"));
}

#[test]
fn lookup_of_an_unregistered_key_fails() {
    let mut state: State<String> = State::new();
    assert_eq!(
        state.use_shader(ShaderKey::VS(VertexShaderKey::PassthroughVS)).err(),
        Some(GfxError::ShaderNotFound)
    );
    assert_eq!(
        state.use_shader(ShaderKey::PS(PixelShaderKey::Other(9))).err(),
        Some(GfxError::ShaderNotFound)
    );
    let handle = add_pixel_shader(&mut state, 1);
    state.shader_cache_mut().process();
    assert!(state.shader_cache_mut().finish_compile(handle, Ok("M".to_string())));
    state.shader_cache_mut().receive_processed_shaders();
    // Again, and with other keys registered: the answer stays the same.
    for _ in 0..3 {
        assert_eq!(
            state.use_shader(ShaderKey::PS(PixelShaderKey::Other(9))).err(),
            Some(GfxError::ShaderNotFound)
        );
        assert_eq!(
            state.use_shader(ShaderKey::VS(VertexShaderKey::Other(1))).err(),
            Some(GfxError::ShaderNotFound)
        );
    }
    assert_eq!(state.find_vertex_shader_stride(VertexShaderKey::PassthroughVS), None);
    assert!(state.find_vertex_buffer_layout(VertexShaderKey::PassthroughVS).is_none());
}

#[test]
fn shader_cannot_be_used_before_its_module_is_received() {
    let mut state: State<String> = State::new();
    let handle = add_pixel_shader(&mut state, 1);
    let key = ShaderKey::PS(PixelShaderKey::Other(1));
    // A key that is not registered may be asked for: it is not found.
    assert!(state.can_use_shader(ShaderKey::PS(PixelShaderKey::Other(2))));
    assert!(!state.can_use_shader(key));
    state.shader_cache_mut().process();
    assert!(!state.can_use_shader(key));
    assert!(state.shader_cache_mut().finish_compile(handle, Ok("M".to_string())));
    // Finished, and not received yet.
    assert!(!state.can_use_shader(key));
    assert!(!state.is_module_stored(handle));
    state.shader_cache_mut().receive_processed_shaders();
    assert!(state.is_module_stored(handle));
    assert!(state.can_use_shader(key));
    assert_eq!(state.use_shader(key).ok().unwrap().module, "M");
}

#[test]
fn a_failed_compile_is_on_record_and_releases_the_fence() {
    let mut state: State<String> = State::new();
    let good = add_pixel_shader(&mut state, 1);
    let bad = add_pixel_shader(&mut state, 2);
    state.shader_cache_mut().wait_for_shader_processing();
    assert_eq!(do_frame(&mut state), FrameAction::Skip);
    assert!(state.shader_cache_mut().finish_compile(bad, Err(GfxError::UnreadableSource)));
    assert_eq!(do_frame(&mut state), FrameAction::Skip);
    assert_eq!(state.compile_failure(bad), Some(GfxError::UnreadableSource));
    assert_eq!(state.compile_failure(good), None);
    assert!(state.shader_cache_mut().finish_compile(good, Ok("M".to_string())));
    assert_eq!(do_frame(&mut state), FrameAction::Render);
    // The failed module cannot be used, and its failure is on record.
    assert!(!state.can_use_shader(ShaderKey::PS(PixelShaderKey::Other(2))));
    assert_eq!(state.compile_failure(bad), Some(GfxError::UnreadableSource));
    assert!(!state.is_module_stored(bad));
    assert!(state.can_use_shader(ShaderKey::PS(PixelShaderKey::Other(1))));
    assert_eq!(state.use_shader(ShaderKey::PS(PixelShaderKey::Other(1))).ok().unwrap().module, "M");
    assert_eq!(state.compile_failure(good), None);
}

#[test]
fn fence_holds_frames_back_until_every_module_is_stored() {
    for n in [1u32, 2, 5, 20] {
        let mut state: State<String> = State::new();
        let mut handles = Vec::new();
        for i in 0..n {
            handles.push(add_pixel_shader(&mut state, i));
        }
        assert!(state.shader_cache().frame_status().is_empty());
        state.shader_cache_mut().wait_for_shader_processing();
        assert_eq!(state.shader_cache().frame_status(), skip());

        assert_eq!(state.shader_cache_mut().do_frame(), skip());
        let tasks = state.shader_cache_mut().take_spawned();
        assert_eq!(tasks.len(), n as usize);
        // Finish in reverse order, with one or two frames in between.
        for (done, task) in tasks.iter().rev().enumerate() {
            assert_eq!(state.shader_cache_mut().do_frame(), skip());
            assert!(state.shader_cache_mut().finish_compile(task.handle, Ok(module_of(task))));
            let status = state.shader_cache_mut().do_frame();
            if done + 1 < n as usize {
                assert_eq!(status, skip(), "{} of {} done", done + 1, n);
            } else {
                assert_eq!(status, ShaderCacheFrameStatus::ok());
            }
            // Whenever frames are let through, every module is in the store.
            if status.is_empty() {
                for handle in &handles {
                    assert!(state.is_module_stored(*handle));
                }
            }
        }
        assert_eq!(state.shader_cache_mut().do_frame(), ShaderCacheFrameStatus::ok());
        for i in 0..n {
            let shader = state.use_shader(ShaderKey::PS(PixelShaderKey::Other(i))).ok().unwrap();
            assert_eq!(*shader.module, format!("compiled data/shaders/user{}.wgsl", i));
        }
    }
}

#[test]
fn fence_without_compiles_is_released_by_the_next_frame() {
    let mut state: State<String> = State::new();
    state.shader_cache_mut().wait_for_shader_processing();
    assert_eq!(state.shader_cache().frame_status(), skip());
    assert_eq!(state.shader_cache_mut().do_frame(), ShaderCacheFrameStatus::ok());
}

#[test]
fn receiving_twice_is_receiving_once() {
    let mut state: State<String> = State::new();
    let h1 = add_pixel_shader(&mut state, 1);
    let h2 = add_pixel_shader(&mut state, 2);
    state.shader_cache_mut().wait_for_shader_processing();
    state.shader_cache_mut().process();
    assert!(state.shader_cache_mut().finish_compile(h1, Ok("one".to_string())));

    state.shader_cache_mut().receive_processed_shaders();
    let status = state.shader_cache().frame_status();
    assert_eq!(status, skip());
    assert!(state.is_module_stored(h1));
    assert!(!state.is_module_stored(h2));
    state.shader_cache_mut().receive_processed_shaders();
    assert_eq!(state.shader_cache().frame_status(), status);
    assert!(state.is_module_stored(h1));
    assert!(!state.is_module_stored(h2));
    assert_eq!(state.use_shader(ShaderKey::PS(PixelShaderKey::Other(1))).ok().unwrap().module, "one");

    assert!(state.shader_cache_mut().finish_compile(h2, Ok("two".to_string())));
    state.shader_cache_mut().receive_processed_shaders();
    let status = state.shader_cache().frame_status();
    assert!(status.is_empty());
    state.shader_cache_mut().receive_processed_shaders();
    assert_eq!(state.shader_cache().frame_status(), status);
    assert!(state.is_module_stored(h1));
    assert!(state.is_module_stored(h2));
    assert_eq!(state.use_shader(ShaderKey::PS(PixelShaderKey::Other(2))).ok().unwrap().module, "two");
}

#[test]
fn compiles_are_dispatched_in_the_order_of_registration() {
    let mut state: State<String> = State::new();
    let h1 = add_pixel_shader(&mut state, 10);
    let h2 = add_pixel_shader(&mut state, 20);
    let h3 = add_pixel_shader(&mut state, 30);
    state.shader_cache_mut().wait_for_shader_processing();
    // Nothing is dispatched before the compiler has had its turn.
    assert!(state.shader_cache_mut().take_spawned().is_empty());
    assert!(!state.shader_cache().is_compile_in_flight(h1));

    state.shader_cache_mut().process();
    let tasks = state.shader_cache_mut().take_spawned();
    let order: Vec<ShaderModuleHandle> = tasks.iter().map(|task| task.handle).collect();
    assert_eq!(order, vec![h1, h2, h3]);
    let paths: Vec<&str> = tasks.iter().map(|task| task.descriptor.path()).collect();
    assert_eq!(
        paths,
        vec!["data/shaders/user10.wgsl", "data/shaders/user20.wgsl", "data/shaders/user30.wgsl"]
    );
    assert!(state.shader_cache_mut().take_spawned().is_empty());

    // The fence counted all three: two done do not release it.
    assert!(state.shader_cache_mut().finish_compile(h2, Ok("2".to_string())));
    assert_eq!(state.shader_cache_mut().do_frame(), skip());
    assert!(state.shader_cache_mut().finish_compile(h3, Ok("3".to_string())));
    assert_eq!(state.shader_cache_mut().do_frame(), skip());
    assert!(state.is_module_stored(h2) && state.is_module_stored(h3));
    assert!(!state.is_module_stored(h1));
    assert!(state.shader_cache_mut().finish_compile(h1, Ok("1".to_string())));
    // Finished, and the drain has not run: frames are still held back.
    assert_eq!(state.shader_cache().frame_status(), skip());
    assert!(!state.is_module_stored(h1));
    assert_eq!(state.shader_cache_mut().do_frame(), ShaderCacheFrameStatus::ok());
    assert!(state.is_module_stored(h1));
}

#[test]
fn a_compile_finishes_once_and_only_if_it_is_under_way() {
    let mut state: State<String> = State::new();
    let handle = add_pixel_shader(&mut state, 1);
    let other = add_pixel_shader(&mut state, 2);
    // Queued, not dispatched: not under way.
    assert!(!state.shader_cache().is_compile_in_flight(handle));
    assert!(!state.shader_cache_mut().finish_compile(handle, Ok("early".to_string())));
    state.shader_cache_mut().wait_for_shader_processing();
    state.shader_cache_mut().process();
    assert!(state.shader_cache().is_compile_in_flight(handle));
    assert!(state.shader_cache().is_compile_in_flight(other));
    assert!(state.shader_cache_mut().finish_compile(handle, Ok("first".to_string())));
    assert!(!state.shader_cache().is_compile_in_flight(handle));
    assert!(state.shader_cache().is_compile_in_flight(other));
    // A second report for the same handle is not counted: the fence still
    // waits for the other compile.
    assert!(!state.shader_cache_mut().finish_compile(handle, Ok("second".to_string())));
    assert!(!state.shader_cache_mut().finish_compile(handle, Err(GfxError::UnreadableSource)));
    assert_eq!(state.shader_cache_mut().do_frame(), skip());
    assert_eq!(state.use_shader(ShaderKey::PS(PixelShaderKey::Other(1))).ok().unwrap().module, "first");
    assert_eq!(state.compile_failure(handle), None);
    assert!(state.shader_cache_mut().finish_compile(other, Ok("other".to_string())));
    assert_eq!(state.shader_cache_mut().do_frame(), ShaderCacheFrameStatus::ok());
    assert!(!state.shader_cache_mut().finish_compile(other, Ok("again".to_string())));
    assert_eq!(state.shader_cache_mut().do_frame(), ShaderCacheFrameStatus::ok());
}

#[test]
fn a_compile_that_finishes_before_any_fence_is_counted_right() {
    let mut state: State<String> = State::new();
    let h1 = add_pixel_shader(&mut state, 1);
    let h2 = add_pixel_shader(&mut state, 2);
    assert_eq!(state.shader_cache_mut().do_frame(), ShaderCacheFrameStatus::ok());
    // No fence yet: the fence count is zero and stays there.
    assert!(state.shader_cache_mut().finish_compile(h1, Ok("1".to_string())));
    assert_eq!(state.shader_cache_mut().do_frame(), ShaderCacheFrameStatus::ok());
    state.shader_cache_mut().wait_for_shader_processing();
    assert_eq!(state.shader_cache_mut().do_frame(), skip());
    assert!(state.shader_cache_mut().finish_compile(h2, Ok("2".to_string())));
    assert_eq!(state.shader_cache_mut().do_frame(), ShaderCacheFrameStatus::ok());
}

#[test]
fn drain_after_the_last_compile_flips_the_status() {
    let mut state: State<String> = State::new();
    let handle = add_pixel_shader(&mut state, 1);
    state.shader_cache_mut().wait_for_shader_processing();
    assert_eq!(do_frame(&mut state), FrameAction::Skip);
    assert!(state.shader_cache_mut().finish_compile(handle, Ok("M".to_string())));
    // No compile is outstanding, the drain has not run.
    assert!(!state.shader_cache().is_compile_in_flight(handle));
    assert_eq!(state.shader_cache().frame_status(), skip());
    assert_eq!(state.shader_cache_mut().do_frame(), ShaderCacheFrameStatus::ok());
    assert_eq!(do_frame(&mut state), FrameAction::Render);
}

#[test]
fn frame_driver_skips_while_the_fence_waits() {
    let mut state: State<String> = State::new();
    assert_eq!(do_frame(&mut state), FrameAction::Render);
    let handle = add_pixel_shader(&mut state, 1);
    assert_eq!(do_frame(&mut state), FrameAction::Render);
    state.shader_cache_mut().wait_for_shader_processing();
    for _ in 0..4 {
        assert_eq!(do_frame(&mut state), FrameAction::Skip);
    }
    let tasks = state.shader_cache_mut().take_spawned();
    assert_eq!(tasks.len(), 1);
    assert!(state.shader_cache_mut().finish_compile(handle, Ok("M".to_string())));
    assert_eq!(do_frame(&mut state), FrameAction::Render);
    assert_eq!(do_frame(&mut state), FrameAction::Render);
}

#[test]
fn built_in_shaders_are_registered_and_fenced() {
    let mut state: State<String> = State::new();
    assert_eq!(state.init_shader_cache(), Ok(()));
    assert_eq!(state.shader_cache().frame_status(), skip());
    for key in [
        ShaderKey::VS(VertexShaderKey::PassthroughVS),
        ShaderKey::PS(PixelShaderKey::PassthroughPS),
        ShaderKey::VS(VertexShaderKey::GltfVS),
        ShaderKey::PS(PixelShaderKey::GltfPS),
    ] {
        assert!(state.is_shader_ready(key));
        assert!(!state.can_use_shader(key));
    }
    assert_eq!(state.find_vertex_shader_stride(VertexShaderKey::PassthroughVS), Some(28));
    assert_eq!(state.find_vertex_shader_stride(VertexShaderKey::GltfVS), Some(104));

    assert_eq!(do_frame(&mut state), FrameAction::Skip);
    let tasks = state.shader_cache_mut().take_spawned();
    assert_eq!(tasks.len(), 2);
    assert_eq!(tasks[0].handle.index(), 1);
    assert_eq!(tasks[0].descriptor.path(), "data/shaders/passthrough.wgsl");
    assert_eq!(tasks[1].handle.index(), 2);
    assert_eq!(tasks[1].descriptor.path(), "data/shaders/gltf.wgsl");
    for task in &tasks {
        assert!(state.shader_cache_mut().finish_compile(task.handle, Ok(module_of(task))));
    }
    assert_eq!(do_frame(&mut state), FrameAction::Render);
    let vs = state.use_shader(ShaderKey::VS(VertexShaderKey::GltfVS)).ok().unwrap();
    assert_eq!(vs.module, "compiled data/shaders/gltf.wgsl");
    assert_eq!(vs.entrypoint, "vs");
    let ps = state.use_shader(ShaderKey::PS(PixelShaderKey::GltfPS)).ok().unwrap();
    assert_eq!(ps.entrypoint, "ps");
    let vs = state.use_shader(ShaderKey::VS(VertexShaderKey::PassthroughVS)).ok().unwrap();
    assert_eq!(vs.module, "compiled data/shaders/passthrough.wgsl");
    assert_eq!(vs.entrypoint, "vs_passthrough");
}

#[test]
fn descriptor_keeps_path_and_constants() {
    let d = ShaderModuleDescriptor::new(
        "x.wgsl".to_string(),
        vec![
            ("shadows".to_string(), ShaderModuleConstant::Bool(true)),
            ("fog".to_string(), ShaderModuleConstant::Bool(false)),
        ],
    );
    assert_eq!(d.path(), "x.wgsl");
    assert_eq!(
        d.constants(),
        &vec![
            ("shadows".to_string(), ShaderModuleConstant::Bool(true)),
            ("fog".to_string(), ShaderModuleConstant::Bool(false)),
        ]
    );
    let mut state: State<String> = State::new();
    state.add_shader_module(d, &[]).unwrap();
    state.shader_cache_mut().process();
    let tasks = state.shader_cache_mut().take_spawned();
    assert_eq!(tasks[0].descriptor.constants().len(), 2);
    assert_eq!(tasks[0].descriptor.constants()[0].0, "shadows");
}

#[test]
fn compile_hands_wgsl_text_to_the_gpu() {
    let task = CompileShaderTask {
        handle: State::<String>::new().add_shader_module(descriptor("s.wgsl"), &[]).unwrap(),
        descriptor: descriptor("data/shaders/passthrough.wgsl"),
    };
    let source = "@vertex fn vs_passthrough() {} // ü";
    match ShaderProcessor::compile_shader(&task, Some(source.as_bytes().to_vec())) {
        Ok(ShaderSource::Wgsl(text)) => assert_eq!(text, source),
        Err(error) => panic!("{:?}", error),
    }
    match ShaderProcessor::compile_shader(&task, Some(vec![])) {
        Ok(ShaderSource::Wgsl(text)) => assert_eq!(text, ""),
        Err(error) => panic!("{:?}", error),
    }
}

#[test]
fn compile_reports_what_it_cannot_hand_on() {
    let handle = State::<String>::new().add_shader_module(descriptor("s.wgsl"), &[]).unwrap();
    let wgsl = CompileShaderTask { handle, descriptor: descriptor("a.wgsl") };
    let spirv = CompileShaderTask { handle, descriptor: descriptor("a.spv") };
    assert!(matches!(
        ShaderProcessor::compile_shader(&wgsl, None),
        Err(GfxError::UnreadableSource)
    ));
    // Not loaded comes before the wrong extension.
    assert!(matches!(
        ShaderProcessor::compile_shader(&spirv, None),
        Err(GfxError::UnreadableSource)
    ));
    assert!(matches!(
        ShaderProcessor::compile_shader(&spirv, Some(b"fn main() {}".to_vec())),
        Err(GfxError::UnsupportedShaderFormat)
    ));
    // Bytes that are not UTF-8 are no text.
    assert!(matches!(
        ShaderProcessor::compile_shader(&wgsl, Some(vec![0x66, 0x6e, 0xff, 0xfe])),
        Err(GfxError::UnsupportedShaderFormat)
    ));
    assert!(matches!(
        ShaderProcessor::compile_shader(&wgsl, Some(vec![0xc3])),
        Err(GfxError::UnsupportedShaderFormat)
    ));
}

#[test]
fn frame_status_is_a_set_of_flags() {
    assert_eq!(SKIP_FRAME_FOR_SHADER_PROCESSING, 0x01);
    let ok = ShaderCacheFrameStatus::ok();
    assert_eq!(ok.bits(), 0);
    assert!(ok.is_empty());
    assert!(ok.contains(ok));
    assert!(!ok.contains(skip()));
    assert_eq!(skip().bits(), 1);
    assert!(!skip().is_empty());
    assert!(skip().contains(skip()));
    assert!(skip().contains(ok));

    let mut status = ShaderCacheFrameStatus::from_bits(0b110);
    assert_eq!(status.bits(), 6);
    assert!(!status.contains(skip()));
    status.insert(skip());
    assert_eq!(status.bits(), 7);
    assert!(status.contains(skip()));
    status.insert(skip());
    assert_eq!(status.bits(), 7);
    status.remove(skip());
    assert_eq!(status.bits(), 6);
    status.remove(skip());
    assert_eq!(status.bits(), 6);
    status.remove(ShaderCacheFrameStatus::from_bits(0xff));
    assert!(status.is_empty());
    assert_eq!(status, ok);
}

#[test]
fn cache_can_be_used_without_a_state() {
    let mut cache: ShaderCache<u8> = ShaderCache::new();
    assert!(cache.frame_status().is_empty());
    cache.wait_for_shader_processing();
    assert_eq!(cache.frame_status(), skip());
    assert!(cache.has_queued_fence());
    cache.receive_processed_shaders();
    // The fence has not been answered: frames stay held back.
    assert_eq!(cache.frame_status(), skip());
    cache.process();
    assert!(!cache.has_queued_fence());
    assert_eq!(cache.frame_status(), skip());
    cache.receive_processed_shaders();
    assert!(cache.frame_status().is_empty());
}

#[test]
fn error_messages() {
    assert_eq!(GfxError::UnreadableSource.message(), "cannot read shader source");
    assert_eq!(GfxError::UnsupportedShaderFormat.message(), "unsupported shader format");
    assert_eq!(GfxError::UnknownVertexLayout.message(), "unsupported shader");
    assert_eq!(GfxError::SurfaceAcquisitionFailed.message(), "surface acquisition error");
    assert_eq!(GfxError::HandleExhausted.message(), "shader module handles exhausted");
    assert_eq!(GfxError::ShaderNotFound.message(), "shader not found");
}

#[test]
fn counter_follows_dispatch_and_completion() {
    let mut state: State<String> = State::new();
    assert_eq!(state.shader_cache().outstanding_compiles(), 0);
    let h1 = add_pixel_shader(&mut state, 1);
    let h2 = add_pixel_shader(&mut state, 2);
    // Queued compiles are not counted before they are dispatched.
    assert_eq!(state.shader_cache().outstanding_compiles(), 0);
    state.shader_cache_mut().process();
    assert_eq!(state.shader_cache().outstanding_compiles(), 2);
    let h3 = add_pixel_shader(&mut state, 3);
    assert_eq!(state.shader_cache().outstanding_compiles(), 2);
    assert!(state.shader_cache_mut().finish_compile(h2, Ok("2".to_string())));
    assert_eq!(state.shader_cache().outstanding_compiles(), 1);
    // Reports for compiles that are not under way leave the counter alone.
    assert!(!state.shader_cache_mut().finish_compile(h2, Ok("2".to_string())));
    assert!(!state.shader_cache_mut().finish_compile(h3, Ok("3".to_string())));
    assert_eq!(state.shader_cache().outstanding_compiles(), 1);
    state.shader_cache_mut().process();
    assert_eq!(state.shader_cache().outstanding_compiles(), 2);
    assert!(state.shader_cache_mut().finish_compile(h1, Err(GfxError::UnreadableSource)));
    assert!(state.shader_cache_mut().finish_compile(h3, Ok("3".to_string())));
    assert_eq!(state.shader_cache().outstanding_compiles(), 0);
    assert!(!state.shader_cache_mut().finish_compile(h1, Ok("1".to_string())));
    assert!(!state.shader_cache_mut().finish_compile(h3, Ok("3".to_string())));
    assert_eq!(state.shader_cache().outstanding_compiles(), 0);
    // Receiving does not touch the counter.
    state.shader_cache_mut().receive_processed_shaders();
    assert_eq!(state.shader_cache().outstanding_compiles(), 0);
}

#[test]
fn refused_registration_leaves_the_counter_alone() {
    let mut state: State<String> = State::new();
    let handle = add_pixel_shader(&mut state, 1);
    state.shader_cache_mut().process();
    assert_eq!(state.shader_cache().outstanding_compiles(), 1);
    let result = state.add_shader_module(
        descriptor("data/shaders/effect.glsl"),
        &[ShaderEntrypoints::PS((PixelShaderKey::Other(2), "ps"))],
    );
    assert_eq!(result.err(), Some(GfxError::UnsupportedShaderFormat));
    assert_eq!(state.shader_cache().outstanding_compiles(), 1);
    state.shader_cache_mut().process();
    assert_eq!(state.shader_cache().outstanding_compiles(), 1);
    assert!(state.shader_cache_mut().take_spawned().len() == 1);
    assert!(state.shader_cache().is_compile_in_flight(handle));
}

#[test]
fn fence_count_is_the_number_of_compiles_before_the_fence() {
    let mut state: State<String> = State::new();
    let h0 = add_pixel_shader(&mut state, 0);
    state.shader_cache_mut().process();
    assert_eq!(state.shader_cache().fence_count(), 0);
    let h1 = add_pixel_shader(&mut state, 1);
    let h2 = add_pixel_shader(&mut state, 2);
    let h3 = add_pixel_shader(&mut state, 3);
    state.shader_cache_mut().wait_for_shader_processing();
    // The fence is queued, and not answered yet.
    assert_eq!(state.shader_cache().fence_count(), 0);
    state.shader_cache_mut().process();
    // One compile from before, and the three in front of the fence.
    assert_eq!(state.shader_cache().fence_count(), 4);
    assert_eq!(state.shader_cache().outstanding_compiles(), 4);
    for (done, handle) in [h2, h0, h3, h1].into_iter().enumerate() {
        assert_eq!(state.shader_cache_mut().do_frame(), skip());
        assert!(state.shader_cache_mut().finish_compile(handle, Ok(format!("{}", done))));
        assert_eq!(state.shader_cache().fence_count(), 3 - done as u32);
        assert_eq!(state.shader_cache().outstanding_compiles(), 3 - done as u32);
    }
    // The count is zero, and all four have reached the result channel.
    assert_eq!(state.shader_cache().frame_status(), skip());
    assert_eq!(state.shader_cache_mut().do_frame(), ShaderCacheFrameStatus::ok());
    for handle in [h0, h1, h2, h3] {
        assert!(state.is_module_stored(handle));
    }
}

#[test]
fn a_second_fence_counts_anew() {
    let mut state: State<String> = State::new();
    let h1 = add_pixel_shader(&mut state, 1);
    state.shader_cache_mut().wait_for_shader_processing();
    assert_eq!(state.shader_cache_mut().do_frame(), skip());
    assert_eq!(state.shader_cache().fence_count(), 1);
    let h2 = add_pixel_shader(&mut state, 2);
    state.shader_cache_mut().wait_for_shader_processing();
    assert_eq!(state.shader_cache_mut().do_frame(), skip());
    assert_eq!(state.shader_cache().fence_count(), 2);
    assert!(state.shader_cache_mut().finish_compile(h1, Ok("1".to_string())));
    assert_eq!(state.shader_cache_mut().do_frame(), skip());
    assert!(state.shader_cache_mut().finish_compile(h2, Ok("2".to_string())));
    assert_eq!(state.shader_cache_mut().do_frame(), ShaderCacheFrameStatus::ok());
    assert!(state.is_module_stored(h1) && state.is_module_stored(h2));
}

#[test]
fn frame_fails_when_the_surface_has_no_image() {
    assert_eq!(surface_acquired(Some("image")), Ok("image"));
    assert_eq!(surface_acquired::<u32>(None), Err(GfxError::SurfaceAcquisitionFailed));
    assert_eq!(surface_acquired(Some(7u32)), Ok(7));
}

#[test]
fn receiving_before_the_fence_is_answered_keeps_frames_back() {
    let mut state: State<String> = State::new();
    let h1 = add_pixel_shader(&mut state, 1);
    let h2 = add_pixel_shader(&mut state, 2);
    let h3 = add_pixel_shader(&mut state, 3);
    state.shader_cache_mut().wait_for_shader_processing();
    assert_eq!(state.shader_cache().fence_mark(), 4);
    // Neither the compiles nor the fence have reached the compiler.
    for _ in 0..3 {
        state.shader_cache_mut().receive_processed_shaders();
        assert_eq!(state.shader_cache().frame_status(), skip());
    }
    assert!(!state.is_module_stored(h1));
    assert_eq!(state.shader_cache_mut().do_frame(), skip());
    for handle in [h3, h1] {
        assert!(state.shader_cache_mut().finish_compile(handle, Ok("M".to_string())));
        state.shader_cache_mut().receive_processed_shaders();
        assert_eq!(state.shader_cache().frame_status(), skip());
    }
    assert!(state.shader_cache_mut().finish_compile(h2, Ok("M".to_string())));
    assert_eq!(state.shader_cache().frame_status(), skip());
    state.shader_cache_mut().receive_processed_shaders();
    assert!(state.shader_cache().frame_status().is_empty());
    for handle in [h1, h2, h3] {
        assert!(state.is_module_stored(handle));
    }
}

#[test]
fn a_compile_from_after_the_fence_does_not_release_it() {
    let mut state: State<String> = State::new();
    let a = add_pixel_shader(&mut state, 1);
    state.shader_cache_mut().wait_for_shader_processing();
    assert_eq!(do_frame(&mut state), FrameAction::Skip);
    assert_eq!(state.shader_cache().fence_count(), 1);
    let b = add_pixel_shader(&mut state, 2);
    assert_eq!(do_frame(&mut state), FrameAction::Skip);
    assert!(state.shader_cache_mut().finish_compile(b, Ok("B".to_string())));
    // The fence did not count B: its count stays, and frames stay held back.
    assert_eq!(state.shader_cache().fence_count(), 1);
    assert_eq!(state.shader_cache().outstanding_compiles(), 1);
    assert_eq!(do_frame(&mut state), FrameAction::Skip);
    assert!(state.is_module_stored(b));
    assert!(!state.is_module_stored(a));
    assert!(state.shader_cache_mut().finish_compile(a, Ok("A".to_string())));
    assert_eq!(state.shader_cache().fence_count(), 0);
    assert_eq!(do_frame(&mut state), FrameAction::Render);
    assert!(state.is_module_stored(a));
}

#[test]
fn a_fence_does_not_wait_for_later_registrations() {
    let mut state: State<String> = State::new();
    let a = add_pixel_shader(&mut state, 1);
    state.shader_cache_mut().wait_for_shader_processing();
    let b = add_pixel_shader(&mut state, 2);
    assert_eq!(do_frame(&mut state), FrameAction::Skip);
    assert_eq!(state.shader_cache().outstanding_compiles(), 2);
    assert_eq!(state.shader_cache().fence_count(), 1);
    assert!(state.shader_cache_mut().finish_compile(a, Ok("A".to_string())));
    // B is still under way, and was registered after the fence.
    assert_eq!(do_frame(&mut state), FrameAction::Render);
    assert!(state.shader_cache().is_compile_in_flight(b));
    assert!(state.can_use_shader(ShaderKey::PS(PixelShaderKey::Other(1))));
    assert!(!state.can_use_shader(ShaderKey::PS(PixelShaderKey::Other(2))));
}

#[test]
fn a_compile_that_finishes_while_the_fence_is_queued_is_counted_right() {
    let mut state: State<String> = State::new();
    let a = add_pixel_shader(&mut state, 1);
    let b = add_pixel_shader(&mut state, 2);
    state.shader_cache_mut().process();
    state.shader_cache_mut().wait_for_shader_processing();
    assert!(state.shader_cache_mut().finish_compile(a, Ok("A".to_string())));
    state.shader_cache_mut().receive_processed_shaders();
    assert_eq!(state.shader_cache().frame_status(), skip());
    // The compiler answers with the one compile that is still under way.
    assert_eq!(do_frame(&mut state), FrameAction::Skip);
    assert_eq!(state.shader_cache().fence_count(), 1);
    assert!(state.shader_cache_mut().finish_compile(b, Ok("B".to_string())));
    assert_eq!(do_frame(&mut state), FrameAction::Render);
}
