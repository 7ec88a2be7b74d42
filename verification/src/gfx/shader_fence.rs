//! Every operation of the shader cache keeps the invariant of the fence:
//! frames are let through only when every compile from before the last fence
//! is done. The lemmas of this file show it operation by operation.

use vstd::prelude::*;
use crate::gfx::error::GfxError;
use crate::gfx::shader::{ShaderEntrypoints, ShaderModuleDescriptor};
use crate::gfx::shader_invariant::{
    lemma_add_shader_module_frame, lemma_add_shader_module_inv, lemma_drain,
    lemma_finish_compile_inv, lemma_process_one_inv, lemma_receive_one_inv,
    lemma_receive_processed_shaders_inv, lemma_take_spawned_inv,
    lemma_wait_for_shader_processing_inv,
};
use crate::gfx::shader_model::{
    count_below, task_handle, CacheOp, CompileRequest, ShaderCacheModel, TaskModel,
};

verus! {

/// No more handles are below a mark than there are handles.
pub proof fn lemma_count_below_bound(handles: Seq<u32>, mark: u32)
    ensures
        count_below(handles, mark) <= handles.len(),
    decreases handles.len(),
{
    if handles.len() > 0 {
        lemma_count_below_bound(handles.drop_last(), mark);
    }
}

/// Where all handles are below the mark, their number is the count.
pub proof fn lemma_count_below_all(handles: Seq<u32>, mark: u32)
    requires
        forall|k: int| 0 <= k < handles.len() ==> #[trigger] handles[k] < mark,
    ensures
        count_below(handles, mark) == handles.len(),
    decreases handles.len(),
{
    if handles.len() > 0 {
        lemma_count_below_all(handles.drop_last(), mark);
    }
}

/// Where the count is zero, no handle is below the mark.
pub proof fn lemma_count_below_none(handles: Seq<u32>, mark: u32)
    requires
        count_below(handles, mark) == 0,
    ensures
        forall|k: int| 0 <= k < handles.len() ==> #[trigger] handles[k] >= mark,
    decreases handles.len(),
{
    if handles.len() > 0 {
        lemma_count_below_none(handles.drop_last(), mark);
        assert forall|k: int| 0 <= k < handles.len() implies #[trigger] handles[k] >= mark by {
            if k < handles.len() - 1 {
                assert(handles.drop_last()[k] == handles[k]);
            }
        }
    }
}

/// Taking a handle out lowers the count by one if the handle is below the
/// mark, and leaves it alone else.
pub proof fn lemma_count_below_remove(handles: Seq<u32>, at: int, mark: u32)
    requires
        0 <= at < handles.len(),
    ensures
        count_below(handles.remove(at), mark) + (if handles[at] < mark {
            1nat
        } else {
            0nat
        }) == count_below(handles, mark),
    decreases handles.len(),
{
    if at == handles.len() - 1 {
    } else {
        assert(handles.remove(at).drop_last() =~= handles.drop_last().remove(at));
        lemma_count_below_remove(handles.drop_last(), at, mark);
    }
}

/// After a task is put at the end of the queue, a fence is queued, or queued
/// behind a task, if it was before or the new task is one.
pub proof fn lemma_fences_after_push<M>(
    s: ShaderCacheModel<M>,
    t: ShaderCacheModel<M>,
    task: TaskModel,
)
    requires
        t.shaders_to_process == s.shaders_to_process.push(task),
    ensures
        t.fence_queued() <==> s.fence_queued() || task is Fence,
        forall|i: int|
            0 <= i < s.shaders_to_process.len() ==> (#[trigger] t.fence_behind(i)
                <==> s.fence_behind(i) || task is Fence),
        !t.fence_behind(s.shaders_to_process.len() as int),
{
    let n = s.shaders_to_process.len() as int;
    if s.fence_queued() {
        let j = choose|j: int| 0 <= j < n && (#[trigger] s.shaders_to_process[j]) is Fence;
        assert(t.shaders_to_process[j] is Fence);
    }
    assert forall|i: int| 0 <= i < n implies (#[trigger] t.fence_behind(i) <==> s.fence_behind(i)
        || task is Fence) by {
        if s.fence_behind(i) {
            let j = choose|j: int| i < j < n && (#[trigger] s.shaders_to_process[j]) is Fence;
            assert(t.shaders_to_process[j] is Fence);
        }
        if task is Fence {
            assert(t.shaders_to_process[n] is Fence);
        }
    }
}

/// After the oldest task is taken from the queue, a fence is queued if one
/// was queued behind the task, and behind each task as before.
pub proof fn lemma_fences_after_take<M>(s: ShaderCacheModel<M>, t: ShaderCacheModel<M>)
    requires
        s.shaders_to_process.len() > 0,
        t.shaders_to_process == s.shaders_to_process.drop_first(),
    ensures
        t.fence_queued() <==> s.fence_behind(0),
        s.fence_queued() <==> s.shaders_to_process[0] is Fence || s.fence_behind(0),
        forall|i: int|
            0 <= i < t.shaders_to_process.len() ==> (#[trigger] t.fence_behind(i)
                <==> s.fence_behind(i + 1)),
{
    let n = t.shaders_to_process.len() as int;
    if s.fence_behind(0) {
        let j = choose|j: int|
            0 < j < s.shaders_to_process.len() && (#[trigger] s.shaders_to_process[j]) is Fence;
        assert(t.shaders_to_process[j - 1] is Fence);
    }
    assert forall|i: int| 0 <= i < n implies (#[trigger] t.fence_behind(i) <==> s.fence_behind(
        i + 1,
    )) by {
        if s.fence_behind(i + 1) {
            let j = choose|j: int|
                i + 1 < j < s.shaders_to_process.len() && (
                #[trigger] s.shaders_to_process[j]) is Fence;
            assert(t.shaders_to_process[j - 1] is Fence);
        }
    }
}

/// A new cache is valid.
pub proof fn lemma_init_valid<M>()
    ensures
        ShaderCacheModel::<M>::init().valid(),
{
}

/// `add_shader_module` keeps a valid state valid.
pub proof fn lemma_add_shader_module_valid<M>(
    s: ShaderCacheModel<M>,
    descriptor: ShaderModuleDescriptor,
    entrypoints: Seq<ShaderEntrypoints>,
)
    requires
        s.valid(),
    ensures
        s.add_shader_module(descriptor, entrypoints).valid(),
{
    lemma_add_shader_module_inv(s, descriptor, entrypoints);
    if s.registration_error(descriptor.spec_path(), entrypoints) is None {
        let t = s.add_shader_module(descriptor, entrypoints);
        let handle = s.shader_module_handle_counter;
        let task = TaskModel::CompileShader(CompileRequest { handle, descriptor });
        lemma_add_shader_module_frame(s, descriptor, entrypoints);
        lemma_fences_after_push(s, t, task);
        assert forall|h: u32| #[trigger] t.is_fenced(h) implies (t.is_stored(h) == s.is_stored(h)
            && t.is_failed(h) == s.is_failed(h) && s.is_fenced(h)) by {}
    }
}

/// `wait_for_shader_processing` keeps a valid state valid.
pub proof fn lemma_wait_for_shader_processing_valid<M>(s: ShaderCacheModel<M>)
    requires
        s.valid(),
    ensures
        s.wait_for_shader_processing().valid(),
{
    let t = s.wait_for_shader_processing();
    lemma_wait_for_shader_processing_inv(s);
    lemma_fences_after_push(s, t, TaskModel::Fence);
    assert forall|i: int|
        0 <= i < t.shaders_to_process.len() && task_handle(
            #[trigger] t.shaders_to_process[i],
        ) is Some implies (task_handle(t.shaders_to_process[i])->0 < t.fence_mark
        <==> t.fence_behind(i)) by {
        let h = task_handle(s.shaders_to_process[i])->0;
        assert(s.is_issued(h));
    }
    assert forall|k: int| 0 <= k < t.in_flight.len() implies #[trigger] t.in_flight[k]
        < t.fence_mark by {
        let h = s.in_flight[k];
        assert(s.is_issued(h));
    }
}

/// Taking one task from the queue keeps a valid state valid.
pub proof fn lemma_process_one_valid<M>(s: ShaderCacheModel<M>)
    requires
        s.valid(),
        s.shaders_to_process.len() > 0,
    ensures
        s.process_one().valid(),
{
    let t = s.process_one();
    lemma_process_one_inv(s);
    lemma_fences_after_take(s, t);
    assert forall|h: u32| #[trigger] t.is_fenced(h) implies (t.is_stored(h) == s.is_stored(h)
        && t.is_failed(h) == s.is_failed(h) && s.is_fenced(h)) by {}
    match s.shaders_to_process[0] {
        TaskModel::CompileShader(request) => {
            assert(t.in_flight.drop_last() =~= s.in_flight);
        },
        TaskModel::Fence => {
            if !t.fence_queued() {
                lemma_count_below_all(s.in_flight, s.fence_mark);
            }
        },
    }
}

/// Taking every task from the queue keeps a valid state valid.
pub proof fn lemma_process_valid<M>(s: ShaderCacheModel<M>)
    requires
        s.valid(),
    ensures
        s.process().valid(),
    decreases s.shaders_to_process.len(),
{
    if s.shaders_to_process.len() > 0 {
        lemma_process_one_valid(s);
        lemma_process_valid(s.process_one());
    }
}

/// Handing the dispatched compiles out keeps a valid state valid.
pub proof fn lemma_take_spawned_valid<M>(s: ShaderCacheModel<M>)
    requires
        s.valid(),
    ensures
        s.take_spawned().valid(),
{
    let t = s.take_spawned();
    lemma_take_spawned_inv(s);
    lemma_same_fence(s, t);
}

/// Two states that agree in all that the fence rests on are sound together.
pub proof fn lemma_same_fence<M>(s: ShaderCacheModel<M>, t: ShaderCacheModel<M>)
    requires
        s.fence_is_sound(),
        t.shaders_to_process == s.shaders_to_process,
        t.in_flight == s.in_flight,
        t.fence_mark == s.fence_mark,
        t.fence_count == s.fence_count,
        t.compile_task_counter == s.compile_task_counter,
        t.shader_module_handle_counter == s.shader_module_handle_counter,
        s.skips_frame() ==> t.skips_frame(),
        forall|h: u32| s.is_stored(h) ==> #[trigger] t.is_stored(h),
        forall|h: u32| s.is_failed(h) ==> #[trigger] t.is_failed(h),
    ensures
        t.fence_is_sound(),
{
    if !t.skips_frame() {
        assert forall|h: u32| #[trigger] t.is_fenced(h) implies t.is_stored(h) || t.is_failed(
            h,
        ) by {
            assert(s.is_fenced(h));
        }
    }
}

/// `finish_compile` keeps a valid state valid.
pub proof fn lemma_finish_compile_valid<M>(
    s: ShaderCacheModel<M>,
    handle: u32,
    outcome: Result<M, GfxError>,
)
    requires
        s.valid(),
        s.is_in_flight(handle),
    ensures
        s.finish_compile(handle, outcome).valid(),
{
    let t = s.finish_compile(handle, outcome);
    lemma_finish_compile_inv(s, handle, outcome);
    let at = s.in_flight.index_of(handle);
    lemma_count_below_remove(s.in_flight, at, s.fence_mark);
    lemma_count_below_bound(t.in_flight, s.fence_mark);
    assert forall|h: u32| #[trigger] t.is_fenced(h) implies (t.is_stored(h) == s.is_stored(h)
        && t.is_failed(h) == s.is_failed(h) && s.is_fenced(h)) by {}
}

/// Receiving one outcome keeps a valid state valid.
pub proof fn lemma_receive_one_valid<M>(s: ShaderCacheModel<M>)
    requires
        s.valid(),
        s.processed_shaders.len() > 0,
    ensures
        s.receive_one().valid(),
{
    let t = s.receive_one();
    lemma_receive_one_inv(s);
    lemma_same_fence(s, t);
}

/// Receiving every outcome keeps a valid state valid.
pub proof fn lemma_drain_valid<M>(s: ShaderCacheModel<M>)
    requires
        s.valid(),
    ensures
        s.drain().valid(),
    decreases s.processed_shaders.len(),
{
    if s.processed_shaders.len() > 0 {
        lemma_receive_one_valid(s);
        lemma_drain_valid(s.receive_one());
    }
}

/// `receive_processed_shaders` keeps a valid state valid: it lets frames
/// through only when every compile from before the last fence is done.
pub proof fn lemma_receive_processed_shaders_valid<M>(s: ShaderCacheModel<M>)
    requires
        s.valid(),
    ensures
        s.receive_processed_shaders().valid(),
{
    let d = s.drain();
    let t = s.receive_processed_shaders();
    lemma_receive_processed_shaders_inv(s);
    lemma_drain_valid(s);
    lemma_drain(s);
    if d.fence_count == 0 && !d.fence_queued() {
        lemma_count_below_none(d.in_flight, d.fence_mark);
        assert forall|h: u32| #[trigger] t.is_fenced(h) implies t.is_stored(h) || t.is_failed(
            h,
        ) by {
            assert(d.is_pending(h) || d.is_completed(h));
        }
    }
}

/// `do_frame` keeps a valid state valid.
pub proof fn lemma_do_frame_valid<M>(s: ShaderCacheModel<M>)
    requires
        s.valid(),
    ensures
        s.do_frame().valid(),
{
    lemma_process_valid(s);
    lemma_receive_processed_shaders_valid(s.process());
}

/// Every operation keeps a valid state valid.
pub proof fn lemma_apply_valid<M>(s: ShaderCacheModel<M>, op: CacheOp<M>)
    requires
        s.valid(),
    ensures
        s.apply(op).valid(),
{
    match op {
        CacheOp::AddShaderModule(descriptor, entrypoints) => {
            lemma_add_shader_module_valid(s, descriptor, entrypoints);
        },
        CacheOp::WaitForShaderProcessing => {
            lemma_wait_for_shader_processing_valid(s);
        },
        CacheOp::Process => {
            lemma_process_valid(s);
        },
        CacheOp::TakeSpawned => {
            lemma_take_spawned_valid(s);
        },
        CacheOp::FinishCompile(handle, outcome) => {
            if s.is_in_flight(handle) {
                lemma_finish_compile_valid(s, handle, outcome);
            }
        },
        CacheOp::ReceiveProcessedShaders => {
            lemma_receive_processed_shaders_valid(s);
        },
        CacheOp::DoFrame => {
            lemma_do_frame_valid(s);
        },
    }
}

} // verus!
