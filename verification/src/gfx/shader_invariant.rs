//! Every operation of the shader cache keeps the invariant of the handles.
//! The lemmas of this file show it operation by operation, and say what each
//! operation leaves alone.

use vstd::prelude::*;
use crate::gfx::error::GfxError;
use crate::gfx::shader::{
    ShaderEntrypoints, ShaderModuleDescriptor, SKIP_FRAME_FOR_SHADER_PROCESSING,
};
use crate::gfx::shader_attributes::{
    lemma_stride_bound, packed_attributes, spec_find_vertex_attributes, spec_stride,
    spec_vertex_formats, MAX_VERTEX_ATTRIBUTES,
};
use crate::gfx::shader_model::{
    compile_count, lacks_layout, task_handle, CacheOp, CompileRequest, ShaderCacheModel,
    TaskModel,
};

verus! {

/// `add_shader_module` keeps the invariant.
pub proof fn lemma_add_shader_module_inv<M>(
    s: ShaderCacheModel<M>,
    descriptor: ShaderModuleDescriptor,
    entrypoints: Seq<ShaderEntrypoints>,
)
    requires
        s.inv(),
    ensures
        s.add_shader_module(descriptor, entrypoints).inv(),
{
    let path = descriptor.spec_path();
    if s.registration_error(path, entrypoints) is None {
        let handle = s.shader_module_handle_counter;
        let task = TaskModel::CompileShader(CompileRequest { handle, descriptor });
        let queued = ShaderCacheModel {
            shader_module_handle_counter: (handle + 1) as u32,
            shaders_to_process: s.shaders_to_process.push(task),
            ..s
        };
        let after = s.add_shader_module(descriptor, entrypoints);
        lemma_compile_count_push(s.shaders_to_process, task);
        lemma_queued_after_push(s, queued, task);
        lemma_results_agree(s, queued);
        assert forall|h: u32| !(queued.is_pending(h) && queued.is_completed(h)) by {}
        assert forall|h: u32| !(queued.is_queued(h) && queued.is_in_flight(h)) by {
            if h == handle {
                assert(!s.is_pending(h));
            }
        }
        assert(queued.queue_is_distinct()) by {
            assert forall|i: int, j: int|
                0 <= i < j < queued.shaders_to_process.len() && task_handle(
                    #[trigger] queued.shaders_to_process[i],
                ) is Some implies task_handle(queued.shaders_to_process[i]) != task_handle(
                #[trigger] queued.shaders_to_process[j],
            ) by {
                if j == s.shaders_to_process.len() {
                    let h = task_handle(s.shaders_to_process[i])->0;
                    assert(s.is_issued(h));
                }
            }
        }
        lemma_register_all_frame(queued, handle, path, entrypoints);
        lemma_register_all_sound(queued, handle, path, entrypoints);
        lemma_same_phases(queued, after);
    }
}

/// What an accepted registration changes: the handle counter, the task
/// channel, the registry and the layouts, and nothing else.
pub proof fn lemma_add_shader_module_frame<M>(
    s: ShaderCacheModel<M>,
    descriptor: ShaderModuleDescriptor,
    entrypoints: Seq<ShaderEntrypoints>,
)
    requires
        s.registration_error(descriptor.spec_path(), entrypoints) is None,
    ensures
        s.add_shader_module(descriptor, entrypoints) == (ShaderCacheModel {
            shader_module_handle_counter: (s.shader_module_handle_counter + 1) as u32,
            shaders_to_process: s.shaders_to_process.push(
                TaskModel::CompileShader(
                    CompileRequest { handle: s.shader_module_handle_counter, descriptor },
                ),
            ),
            shaders: s.add_shader_module(descriptor, entrypoints).shaders,
            vertex_shader_details: s.add_shader_module(
                descriptor,
                entrypoints,
            ).vertex_shader_details,
            ..s
        }),
        s.shader_module_handle_counter < u32::MAX,
{
    let handle = s.shader_module_handle_counter;
    let queued = ShaderCacheModel {
        shader_module_handle_counter: (handle + 1) as u32,
        shaders_to_process: s.shaders_to_process.push(
            TaskModel::CompileShader(CompileRequest { handle, descriptor }),
        ),
        ..s
    };
    lemma_register_all_frame(queued, handle, descriptor.spec_path(), entrypoints);
}

/// `wait_for_shader_processing` keeps the invariant.
pub proof fn lemma_wait_for_shader_processing_inv<M>(s: ShaderCacheModel<M>)
    requires
        s.inv(),
    ensures
        s.wait_for_shader_processing().inv(),
        s.wait_for_shader_processing().skips_frame(),
{
    let t = s.wait_for_shader_processing();
    lemma_status_bits(s.frame_status);
    lemma_compile_count_push(s.shaders_to_process, TaskModel::Fence);
    lemma_queued_after_push(s, t, TaskModel::Fence);
    let u = ShaderCacheModel { shaders_to_process: s.shaders_to_process, ..t };
    lemma_phases_agree(s, u);
    lemma_results_agree(s, t);
    assert forall|h: u32|
        #![trigger t.is_issued(h)]
        #![trigger t.is_queued(h)]
        #![trigger t.is_in_flight(h)]
        #![trigger t.is_pending(h)]
        #![trigger t.is_completed(h)]
        {
            &&& s.is_issued(h) == t.is_issued(h)
            &&& s.is_queued(h) == t.is_queued(h)
            &&& s.is_in_flight(h) == t.is_in_flight(h)
            &&& s.is_pending(h) == t.is_pending(h)
            &&& s.is_completed(h) == t.is_completed(h)
        } by {}
    lemma_status_bits(t.frame_status);
}

/// Taking one task from the queue keeps the invariant.
pub proof fn lemma_process_one_inv<M>(s: ShaderCacheModel<M>)
    requires
        s.inv(),
        s.shaders_to_process.len() > 0,
    ensures
        s.process_one().inv(),
        forall|h: u32| #[trigger] s.process_one().is_pending(h) == s.is_pending(h),
        forall|h: u32| #[trigger] s.process_one().is_completed(h) == s.is_completed(h),
        forall|h: u32| s.is_in_flight(h) ==> #[trigger] s.process_one().is_in_flight(h),
{
    let t = s.process_one();
    lemma_queued_after_take(s, t);
    let u = ShaderCacheModel { shaders_to_process: s.shaders_to_process, in_flight: s.in_flight, ..t };
    lemma_phases_agree(s, u);
    lemma_results_agree(s, t);
    match s.shaders_to_process[0] {
        TaskModel::CompileShader(request) => {
            let handle = request.handle;
            assert(!s.is_in_flight(handle));
            assert forall|h: u32| #[trigger]
                t.is_in_flight(h) <==> s.is_in_flight(h) || h == handle by {
                if s.is_in_flight(h) {
                    let i = choose|i: int| 0 <= i < s.in_flight.len() && s.in_flight[i] == h;
                    assert(t.in_flight[i] == h);
                }
                if h == handle {
                    assert(t.in_flight[s.in_flight.len() as int] == h);
                }
            }
        },
        TaskModel::Fence => {},
    }
    assert forall|h: u32|
        #![trigger t.is_pending(h)]
        #![trigger t.is_completed(h)]
        !(t.is_pending(h) && t.is_completed(h)) by {}
}

/// What taking every task from the queue does and leaves alone.
///
/// The queue is empty afterwards, every compile that waited in it is
/// dispatched, in the order of the queue, and the counter has grown by their
/// number. If the last task was a fence, the fence count is the counter.
/// The invariant is kept.
pub proof fn lemma_process<M>(s: ShaderCacheModel<M>)
    requires
        s.inv(),
    ensures
        s.process().inv(),
        s.process().shaders_to_process.len() == 0,
        s.process().compile_task_counter == s.compile_task_counter + compile_count(
            s.shaders_to_process,
        ),
        s.process().spawned.len() == s.spawned.len() + compile_count(s.shaders_to_process),
        s.spawned.is_prefix_of(s.process().spawned),
        s.shaders_to_process.len() > 0 && s.shaders_to_process.last() is Fence
            ==> s.process().fence_count == s.process().compile_task_counter,
        s.shaders_to_process.len() == 0 ==> s.process() == s,
        forall|h: u32| #[trigger] s.process().is_in_flight(h) == s.is_pending(h),
        forall|h: u32| #[trigger] s.process().is_completed(h) == s.is_completed(h),
        s.process() == (ShaderCacheModel {
            shaders_to_process: s.process().shaders_to_process,
            spawned: s.process().spawned,
            in_flight: s.process().in_flight,
            compile_task_counter: s.process().compile_task_counter,
            fence_count: s.process().fence_count,
            ..s
        }),
    decreases s.shaders_to_process.len(),
{
    if s.shaders_to_process.len() > 0 {
        lemma_process_one_inv(s);
        lemma_process(s.process_one());
    }
}

/// Handing the dispatched compiles out keeps the invariant.
pub proof fn lemma_take_spawned_inv<M>(s: ShaderCacheModel<M>)
    requires
        s.inv(),
    ensures
        s.take_spawned().inv(),
{
    let t = s.take_spawned();
    lemma_phases_agree(s, t);
}

/// `finish_compile` keeps the invariant: the counter stays the number of
/// compiles under way, and does not fall below zero.
pub proof fn lemma_finish_compile_inv<M>(
    s: ShaderCacheModel<M>,
    handle: u32,
    outcome: Result<M, GfxError>,
)
    requires
        s.inv(),
        s.is_in_flight(handle),
    ensures
        s.finish_compile(handle, outcome).inv(),
        !s.finish_compile(handle, outcome).is_in_flight(handle),
        s.finish_compile(handle, outcome).is_processed(handle),
        forall|h: u32|
            h != handle ==> #[trigger] s.finish_compile(handle, outcome).is_in_flight(h)
                == s.is_in_flight(h),
{
    let t = s.finish_compile(handle, outcome);
    let at = s.in_flight.index_of(handle);
    assert forall|h: u32| #[trigger] t.is_in_flight(h) <==> s.is_in_flight(h) && h != handle by {
        if s.is_in_flight(h) && h != handle {
            let k = choose|k: int| 0 <= k < s.in_flight.len() && s.in_flight[k] == h;
            if k < at {
                assert(t.in_flight[k] == h);
            } else {
                assert(t.in_flight[k - 1] == h);
            }
        }
    }
    assert forall|h: u32| #[trigger] t.is_processed(h) <==> s.is_processed(h) || h == handle by {
        if s.is_processed(h) {
            let i = choose|i: int|
                0 <= i < s.processed_shaders.len() && (#[trigger] s.processed_shaders[i]).0 == h;
            assert(t.processed_shaders[i].0 == h);
        }
        if h == handle {
            assert(t.processed_shaders[s.processed_shaders.len() as int].0 == h);
        }
    }
    assert forall|h: u32|
        #![trigger t.is_issued(h)]
        #![trigger t.is_pending(h)]
        #![trigger t.is_completed(h)]
        t.is_issued(h) <==> t.is_pending(h) || t.is_completed(h) by {
        assert(s.is_issued(h) <==> s.is_pending(h) || s.is_completed(h));
    }
    assert forall|h: u32|
        #![trigger t.is_pending(h)]
        #![trigger t.is_completed(h)]
        !(t.is_pending(h) && t.is_completed(h)) by {
        assert(!(s.is_pending(h) && s.is_completed(h)));
    }
    assert(!s.is_completed(handle));
}

/// Receiving one outcome keeps the invariant.
pub proof fn lemma_receive_one_inv<M>(s: ShaderCacheModel<M>)
    requires
        s.inv(),
        s.processed_shaders.len() > 0,
    ensures
        s.receive_one().inv(),
        forall|h: u32| #[trigger] s.receive_one().is_completed(h) == s.is_completed(h),
        forall|h: u32| #[trigger] s.receive_one().is_pending(h) == s.is_pending(h),
{
    let t = s.receive_one();
    let handle = s.processed_shaders[0].0;
    assert forall|h: u32| #[trigger] t.is_completed(h) == s.is_completed(h) by {
        if s.is_processed(h) && h != handle {
            let i = choose|i: int|
                0 <= i < s.processed_shaders.len() && (#[trigger] s.processed_shaders[i]).0 == h;
            assert(t.processed_shaders[i - 1].0 == h);
        }
    }
    assert forall|h: u32|
        #![trigger t.is_queued(h)]
        #![trigger t.is_in_flight(h)]
        #![trigger t.is_pending(h)]
        {
            &&& s.is_queued(h) == t.is_queued(h)
            &&& s.is_in_flight(h) == t.is_in_flight(h)
            &&& s.is_pending(h) == t.is_pending(h)
        } by {}
    assert forall|h: u32| #[trigger] t.is_processed(h) <==> s.is_processed(h) && h != handle by {
        if s.is_processed(h) && h != handle {
            let i = choose|i: int|
                0 <= i < s.processed_shaders.len() && (#[trigger] s.processed_shaders[i]).0 == h;
            assert(t.processed_shaders[i - 1] == s.processed_shaders[i]);
        }
    }
}

/// What receiving every outcome does and leaves alone.
///
/// The result channel is empty afterwards, every outcome that waited in it
/// is in the store or in the record of failures, and nothing else changed.
/// The invariant is kept.
pub proof fn lemma_drain<M>(s: ShaderCacheModel<M>)
    requires
        s.inv(),
    ensures
        s.drain().inv(),
        s.drain().processed_shaders.len() == 0,
        forall|h: u32| #[trigger] s.drain().is_completed(h) == s.is_completed(h),
        forall|h: u32| #[trigger] s.drain().is_pending(h) == s.is_pending(h),
        forall|h: u32| s.is_stored(h) ==> #[trigger] s.drain().is_stored(h),
        forall|h: u32| s.is_failed(h) ==> #[trigger] s.drain().is_failed(h),
        s.processed_shaders.len() == 0 ==> s.drain() == s,
        s.drain() == (ShaderCacheModel {
            processed_shaders: s.drain().processed_shaders,
            shader_modules: s.drain().shader_modules,
            compile_errors: s.drain().compile_errors,
            ..s
        }),
    decreases s.processed_shaders.len(),
{
    if s.processed_shaders.len() > 0 {
        lemma_receive_one_inv(s);
        lemma_drain(s.receive_one());
    }
}

/// `receive_processed_shaders` keeps the invariant.
pub proof fn lemma_receive_processed_shaders_inv<M>(s: ShaderCacheModel<M>)
    requires
        s.inv(),
    ensures
        s.receive_processed_shaders().inv(),
{
    let d = s.drain();
    let t = s.receive_processed_shaders();
    lemma_drain(s);
    lemma_status_bits(d.frame_status);
    lemma_phases_agree(d, t);
}

/// `do_frame` keeps the invariant.
pub proof fn lemma_do_frame_inv<M>(s: ShaderCacheModel<M>)
    requires
        s.inv(),
    ensures
        s.do_frame().inv(),
{
    lemma_process(s);
    lemma_receive_processed_shaders_inv(s.process());
}

/// Every operation keeps the invariant.
pub proof fn lemma_apply_inv<M>(s: ShaderCacheModel<M>, op: CacheOp<M>)
    requires
        s.inv(),
    ensures
        s.apply(op).inv(),
{
    match op {
        CacheOp::AddShaderModule(descriptor, entrypoints) => {
            lemma_add_shader_module_inv(s, descriptor, entrypoints);
        },
        CacheOp::WaitForShaderProcessing => {
            lemma_wait_for_shader_processing_inv(s);
        },
        CacheOp::Process => {
            lemma_process(s);
        },
        CacheOp::TakeSpawned => {
            lemma_take_spawned_inv(s);
        },
        CacheOp::FinishCompile(handle, outcome) => {
            if s.is_in_flight(handle) {
                lemma_finish_compile_inv(s, handle, outcome);
            }
        },
        CacheOp::ReceiveProcessedShaders => {
            lemma_receive_processed_shaders_inv(s);
        },
        CacheOp::DoFrame => {
            lemma_do_frame_inv(s);
        },
    }
}

/// The flag of the frame status is set by `|` and cleared by `& !`.
pub proof fn lemma_status_bits(bits: u8)
    requires
        bits == 0 || bits == SKIP_FRAME_FOR_SHADER_PROCESSING,
    ensures
        bits | SKIP_FRAME_FOR_SHADER_PROCESSING == SKIP_FRAME_FOR_SHADER_PROCESSING,
        bits & !SKIP_FRAME_FOR_SHADER_PROCESSING == 0,
        (bits & SKIP_FRAME_FOR_SHADER_PROCESSING == SKIP_FRAME_FOR_SHADER_PROCESSING) <==> bits
            == SKIP_FRAME_FOR_SHADER_PROCESSING,
{
    assert(0u8 | 1u8 == 1u8) by (bit_vector);
    assert(1u8 | 1u8 == 1u8) by (bit_vector);
    assert(0u8 & !1u8 == 0u8) by (bit_vector);
    assert(1u8 & !1u8 == 0u8) by (bit_vector);
    assert(0u8 & 1u8 == 0u8) by (bit_vector);
    assert(1u8 & 1u8 == 1u8) by (bit_vector);
}

/// One more task at the end of the queue is one more compile task, if it is one.
pub proof fn lemma_compile_count_push(tasks: Seq<TaskModel>, task: TaskModel)
    ensures
        compile_count(tasks.push(task)) == compile_count(tasks) + if task is CompileShader {
            1nat
        } else {
            0nat
        },
    decreases tasks.len(),
{
    if tasks.len() == 0 {
        assert(compile_count(tasks.push(task).drop_first()) == 0);
    } else {
        assert(tasks.push(task).drop_first() =~= tasks.drop_first().push(task));
        lemma_compile_count_push(tasks.drop_first(), task);
    }
}

/// Two states with the same channels, the same compiles under way, the same
/// stored and failed modules and the same handle counter agree on what is
/// known of every handle.
pub proof fn lemma_phases_agree<M>(a: ShaderCacheModel<M>, b: ShaderCacheModel<M>)
    requires
        a.shaders_to_process == b.shaders_to_process,
        a.in_flight == b.in_flight,
        a.processed_shaders == b.processed_shaders,
        a.shader_modules == b.shader_modules,
        a.compile_errors == b.compile_errors,
        a.shader_module_handle_counter == b.shader_module_handle_counter,
    ensures
        forall|h: u32|
            #![trigger b.is_issued(h)]
            #![trigger b.is_queued(h)]
            #![trigger b.is_in_flight(h)]
            #![trigger b.is_processed(h)]
            #![trigger b.is_stored(h)]
            #![trigger b.is_failed(h)]
            #![trigger b.is_pending(h)]
            #![trigger b.is_completed(h)]
            {
                &&& a.is_issued(h) == b.is_issued(h)
                &&& a.is_queued(h) == b.is_queued(h)
                &&& a.is_in_flight(h) == b.is_in_flight(h)
                &&& a.is_processed(h) == b.is_processed(h)
                &&& a.is_stored(h) == b.is_stored(h)
                &&& a.is_failed(h) == b.is_failed(h)
                &&& a.is_pending(h) == b.is_pending(h)
                &&& a.is_completed(h) == b.is_completed(h)
            },
        a.queue_is_distinct() == b.queue_is_distinct(),
        a.results_are_distinct() == b.results_are_distinct(),
        a.spawned == b.spawned ==> a.sources_are_wgsl() == b.sources_are_wgsl(),
{
}

/// Two states with the same result channel, the same stored and the same
/// failed modules agree on which compiles are completed, and how.
pub proof fn lemma_results_agree<M>(a: ShaderCacheModel<M>, b: ShaderCacheModel<M>)
    requires
        a.processed_shaders == b.processed_shaders,
        a.shader_modules == b.shader_modules,
        a.compile_errors == b.compile_errors,
    ensures
        forall|h: u32|
            #![trigger b.is_processed(h)]
            #![trigger b.is_stored(h)]
            #![trigger b.is_failed(h)]
            #![trigger b.is_completed(h)]
            {
                &&& a.is_processed(h) == b.is_processed(h)
                &&& a.is_stored(h) == b.is_stored(h)
                &&& a.is_failed(h) == b.is_failed(h)
                &&& a.is_completed(h) == b.is_completed(h)
            },
        a.results_are_distinct() == b.results_are_distinct(),
{
}

/// Two states that differ in the registry and the layouts alone agree on the
/// rest of the invariant.
pub proof fn lemma_same_phases<M>(a: ShaderCacheModel<M>, b: ShaderCacheModel<M>)
    requires
        a.inv(),
        b.registry_is_sound(),
        b == (ShaderCacheModel {
            shaders: b.shaders,
            vertex_shader_details: b.vertex_shader_details,
            ..a
        }),
    ensures
        b.inv(),
{
    lemma_phases_agree(a, b);
}

/// After a task is put at the end of the queue, the compile tasks in the
/// queue are those from before and the new one, if it is one.
pub proof fn lemma_queued_after_push<M>(
    s: ShaderCacheModel<M>,
    t: ShaderCacheModel<M>,
    task: TaskModel,
)
    requires
        t.shaders_to_process == s.shaders_to_process.push(task),
    ensures
        forall|h: u32| #[trigger]
            t.is_queued(h) <==> s.is_queued(h) || task_handle(task) == Some(h),
{
    assert forall|h: u32| #[trigger] t.is_queued(h) <==> s.is_queued(h) || task_handle(task)
        == Some(h) by {
        if s.is_queued(h) {
            let i = choose|i: int|
                0 <= i < s.shaders_to_process.len() && task_handle(
                    #[trigger] s.shaders_to_process[i],
                ) == Some(h);
            assert(t.shaders_to_process[i] == s.shaders_to_process[i]);
        }
        if task_handle(task) == Some(h) {
            assert(t.shaders_to_process[s.shaders_to_process.len() as int] == task);
        }
    }
}

/// After the oldest task is taken from the queue, the compile tasks in the
/// queue are those from before but the one taken.
pub proof fn lemma_queued_after_take<M>(s: ShaderCacheModel<M>, t: ShaderCacheModel<M>)
    requires
        s.shaders_to_process.len() > 0,
        s.queue_is_distinct(),
        t.shaders_to_process == s.shaders_to_process.drop_first(),
    ensures
        t.queue_is_distinct(),
        forall|h: u32| #[trigger]
            t.is_queued(h) <==> s.is_queued(h) && task_handle(s.shaders_to_process[0]) != Some(h),
{
    assert forall|h: u32| #[trigger]
        t.is_queued(h) <==> s.is_queued(h) && task_handle(s.shaders_to_process[0]) != Some(
            h,
        ) by {
        if s.is_queued(h) && task_handle(s.shaders_to_process[0]) != Some(h) {
            let i = choose|i: int|
                0 <= i < s.shaders_to_process.len() && task_handle(
                    #[trigger] s.shaders_to_process[i],
                ) == Some(h);
            assert(t.shaders_to_process[i - 1] == s.shaders_to_process[i]);
        }
    }
}

/// Every row of the table of layouts has few inputs, and a stride that fits.
pub proof fn lemma_table_layouts_small(path: Seq<char>, name: Seq<char>)
    requires
        spec_find_vertex_attributes(path, name) is Some,
    ensures
        spec_find_vertex_attributes(path, name)->0.len() <= MAX_VERTEX_ATTRIBUTES,
        spec_stride(spec_find_vertex_attributes(path, name)->0) <= 16 * MAX_VERTEX_ATTRIBUTES,
{
    let formats = spec_vertex_formats(path, name)->0;
    lemma_stride_bound(packed_attributes(formats));
}

/// Entering shaders in the registry changes the registry and the layouts, and
/// nothing else.
pub proof fn lemma_register_all_frame<M>(
    s: ShaderCacheModel<M>,
    handle: u32,
    path: Seq<char>,
    entrypoints: Seq<ShaderEntrypoints>,
)
    ensures
        s.register_all(handle, path, entrypoints) == (ShaderCacheModel {
            shaders: s.register_all(handle, path, entrypoints).shaders,
            vertex_shader_details: s.register_all(handle, path, entrypoints).vertex_shader_details,
            ..s
        }),
    decreases entrypoints.len(),
{
    if entrypoints.len() > 0 {
        lemma_register_all_frame(
            s.register(handle, path, entrypoints[0]),
            handle,
            path,
            entrypoints.drop_first(),
        );
    }
}

/// Entering shaders of an issued handle, each vertex shader with a known
/// layout, keeps the registry sound.
pub proof fn lemma_register_all_sound<M>(
    s: ShaderCacheModel<M>,
    handle: u32,
    path: Seq<char>,
    entrypoints: Seq<ShaderEntrypoints>,
)
    requires
        s.registry_is_sound(),
        s.is_issued(handle),
        forall|i: int| 0 <= i < entrypoints.len() ==> !lacks_layout(path, #[trigger] entrypoints[i]),
    ensures
        s.register_all(handle, path, entrypoints).registry_is_sound(),
    decreases entrypoints.len(),
{
    if entrypoints.len() > 0 {
        let entry = entrypoints[0];
        let next = s.register(handle, path, entry);
        match entry {
            ShaderEntrypoints::VS((key, name)) => {
                lemma_table_layouts_small(path, name@);
            },
            ShaderEntrypoints::PS((key, name)) => {},
        }
        lemma_register_all_sound(next, handle, path, entrypoints.drop_first());
    }
}

} // verus!
