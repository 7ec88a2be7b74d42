//! What holds of the shader cache whatever is done with it: the counter of
//! outstanding compiles never falls below zero, handles are never reused, a
//! fence lets frames through exactly when the compiles before it are done,
//! whatever else is done after it, and receiving twice is receiving once.

use vstd::prelude::*;
use crate::gfx::error::GfxError;
use crate::gfx::shader::{ShaderEntrypoints, ShaderKey, ShaderModuleDescriptor};
use crate::gfx::shader_fence::{
    lemma_apply_valid, lemma_count_below_none, lemma_do_frame_valid, lemma_process_valid,
    lemma_wait_for_shader_processing_valid,
};
use crate::gfx::shader_invariant::{
    lemma_add_shader_module_frame, lemma_apply_inv, lemma_compile_count_push, lemma_drain,
    lemma_process, lemma_queued_after_push, lemma_receive_one_inv, lemma_status_bits,
};
use crate::gfx::shader_model::{
    compile_count, compile_requests, count_below, CacheOp, CompileRequest, ShaderCacheModel,
    ShaderEntry, TaskModel,
};

verus! {

/// Whatever is done with a cache, in whatever order, the invariants hold:
/// the outstanding-compile counter is the number of compiles that are
/// dispatched and not finished, and so never negative; the fence count lies
/// between zero and the counter; and a module is in the store only if its
/// compile is neither queued nor under way.
pub proof fn lemma_counter_never_negative<M>(s: ShaderCacheModel<M>, ops: Seq<CacheOp<M>>)
    requires
        s.valid(),
    ensures
        s.apply_all(ops).valid(),
        0 <= s.apply_all(ops).compile_task_counter,
        s.apply_all(ops).compile_task_counter == s.apply_all(ops).in_flight.len(),
        0 <= s.apply_all(ops).fence_count <= s.apply_all(ops).compile_task_counter,
        s.apply_all(ops).fence_mark >= s.fence_mark,
        forall|h: u32| #[trigger]
            s.apply_all(ops).is_stored(h) ==> s.apply_all(ops).is_issued(h) && !s.apply_all(
                ops,
            ).is_pending(h),
    decreases ops.len(),
{
    if ops.len() > 0 {
        lemma_apply_valid(s, ops[0]);
        lemma_apply_keeps_mark(s, ops[0]);
        lemma_counter_never_negative(s.apply(ops[0]), ops.drop_first());
    }
}

/// No operation lowers the fence mark.
pub proof fn lemma_apply_keeps_mark<M>(s: ShaderCacheModel<M>, op: CacheOp<M>)
    requires
        s.valid(),
    ensures
        s.apply(op).fence_mark >= s.fence_mark,
{
    match op {
        CacheOp::AddShaderModule(descriptor, entrypoints) => {
            if s.registration_error(descriptor.spec_path(), entrypoints) is None {
                lemma_add_shader_module_frame(s, descriptor, entrypoints);
            }
        },
        CacheOp::WaitForShaderProcessing => {},
        CacheOp::Process => {
            lemma_process(s);
        },
        CacheOp::TakeSpawned => {},
        CacheOp::FinishCompile(handle, outcome) => {},
        CacheOp::ReceiveProcessedShaders => {
            lemma_drain(s);
        },
        CacheOp::DoFrame => {
            lemma_process(s);
            lemma_drain(s.process());
        },
    }
}

/// Handles are never reused: no operation lowers the handle counter, so a
/// handle that was issued once stays issued, and a later registration gets
/// another.
pub proof fn lemma_handles_are_never_reused<M>(s: ShaderCacheModel<M>, ops: Seq<CacheOp<M>>)
    ensures
        s.apply_all(ops).shader_module_handle_counter >= s.shader_module_handle_counter,
        forall|h: u32| s.is_issued(h) ==> #[trigger] s.apply_all(ops).is_issued(h),
    decreases ops.len(),
{
    if ops.len() > 0 {
        let t = s.apply(ops[0]);
        match ops[0] {
            CacheOp::AddShaderModule(descriptor, entrypoints) => {
                if s.registration_error(descriptor.spec_path(), entrypoints) is None {
                    lemma_add_shader_module_frame(s, descriptor, entrypoints);
                }
            },
            CacheOp::WaitForShaderProcessing => {},
            CacheOp::Process => {
                lemma_process_frame(s);
            },
            CacheOp::TakeSpawned => {},
            CacheOp::FinishCompile(handle, outcome) => {},
            CacheOp::ReceiveProcessedShaders => {
                lemma_drain_frame(s);
            },
            CacheOp::DoFrame => {
                lemma_process_frame(s);
                lemma_drain_frame(s.process());
            },
        }
        lemma_handles_are_never_reused(t, ops.drop_first());
    }
}

/// An accepted registration issues one new handle, queues exactly one compile
/// task, for that handle, and enters every shader of the module in the
/// registry under that handle. The entries of all other keys stay as they
/// are.
pub proof fn lemma_add_shader_module_registers<M>(
    s: ShaderCacheModel<M>,
    descriptor: ShaderModuleDescriptor,
    entrypoints: Seq<ShaderEntrypoints>,
)
    requires
        s.inv(),
        s.registration_error(descriptor.spec_path(), entrypoints) is None,
    ensures
        ({
            let t = s.add_shader_module(descriptor, entrypoints);
            let handle = s.shader_module_handle_counter;
            &&& !s.is_issued(handle)
            &&& t.is_issued(handle)
            &&& t.is_queued(handle)
            &&& t.shaders_to_process == s.shaders_to_process.push(
                TaskModel::CompileShader(CompileRequest { handle, descriptor }),
            )
            &&& compile_count(t.shaders_to_process) == compile_count(s.shaders_to_process) + 1
            &&& t.compile_task_counter == s.compile_task_counter
            &&& forall|i: int|
                0 <= i < entrypoints.len() ==> {
                    let key = (#[trigger] entrypoints[i]).spec_key();
                    &&& t.shaders.contains_key(key)
                    &&& t.shaders[key].module_handle == handle
                }
            &&& forall|key: ShaderKey|
                (forall|i: int|
                    0 <= i < entrypoints.len() ==> (#[trigger] entrypoints[i]).spec_key() != key)
                    ==> {
                    &&& #[trigger] t.shaders.contains_key(key) == s.shaders.contains_key(key)
                    &&& s.shaders.contains_key(key) ==> t.shaders[key] == s.shaders[key]
                }
        }),
{
    let handle = s.shader_module_handle_counter;
    let task = TaskModel::CompileShader(CompileRequest { handle, descriptor });
    let queued = ShaderCacheModel {
        shader_module_handle_counter: (handle + 1) as u32,
        shaders_to_process: s.shaders_to_process.push(task),
        ..s
    };
    let t = s.add_shader_module(descriptor, entrypoints);
    lemma_add_shader_module_frame(s, descriptor, entrypoints);
    lemma_register_all_entries(queued, handle, descriptor.spec_path(), entrypoints);
    lemma_compile_count_push(s.shaders_to_process, task);
    assert(t.shaders_to_process[s.shaders_to_process.len() as int] == task);
}

/// A key that was never registered is not found: in a new cache, and after
/// any run of operations among which no registration names the key,
/// `use_shader` answers `ShaderNotFound` for it.
pub proof fn lemma_unregistered_is_not_found<M>(ops: Seq<CacheOp<M>>, key: ShaderKey)
    requires
        forall|i: int| 0 <= i < ops.len() ==> !(#[trigger] ops[i]).registers(key),
    ensures
        ShaderCacheModel::<M>::init().apply_all(ops).lookup(key) == Err::<ShaderEntry, GfxError>(
            GfxError::ShaderNotFound,
        ),
{
    lemma_registry_keeps_other_keys(ShaderCacheModel::<M>::init(), ops, key);
}

/// Operations among which no registration names a key leave the registry
/// entry of the key as it is: absent, or the one that is there.
pub proof fn lemma_registry_keeps_other_keys<M>(
    s: ShaderCacheModel<M>,
    ops: Seq<CacheOp<M>>,
    key: ShaderKey,
)
    requires
        forall|i: int| 0 <= i < ops.len() ==> !(#[trigger] ops[i]).registers(key),
    ensures
        s.apply_all(ops).shaders.contains_key(key) == s.shaders.contains_key(key),
        s.shaders.contains_key(key) ==> s.apply_all(ops).shaders[key] == s.shaders[key],
    decreases ops.len(),
{
    if ops.len() > 0 {
        let t = s.apply(ops[0]);
        match ops[0] {
            CacheOp::AddShaderModule(descriptor, entrypoints) => {
                if s.registration_error(descriptor.spec_path(), entrypoints) is None {
                    let handle = s.shader_module_handle_counter;
                    let queued = ShaderCacheModel {
                        shader_module_handle_counter: (handle + 1) as u32,
                        shaders_to_process: s.shaders_to_process.push(
                            TaskModel::CompileShader(CompileRequest { handle, descriptor }),
                        ),
                        ..s
                    };
                    lemma_register_all_entries(queued, handle, descriptor.spec_path(), entrypoints);
                }
            },
            CacheOp::WaitForShaderProcessing => {},
            CacheOp::Process => {
                lemma_process_frame(s);
            },
            CacheOp::TakeSpawned => {},
            CacheOp::FinishCompile(handle, outcome) => {},
            CacheOp::ReceiveProcessedShaders => {
                lemma_drain_frame(s);
            },
            CacheOp::DoFrame => {
                lemma_process_frame(s);
                lemma_drain_frame(s.process());
            },
        }
        lemma_registry_keeps_other_keys(t, ops.drop_first(), key);
    }
}

/// Every issued handle, and no other, is in exactly one of five places: its
/// compile task is queued, its compile is under way, its outcome waits in
/// the result channel, its module is in the store, or its failure is on
/// record. So a module is in the store only if its compile has finished,
/// and whatever is done with a cache, it stays that way.
pub proof fn lemma_every_handle_has_one_place<M>(
    s: ShaderCacheModel<M>,
    ops: Seq<CacheOp<M>>,
    handle: u32,
)
    requires
        s.valid(),
    ensures
        ({
            let t = s.apply_all(ops);
            let places = (if t.is_queued(handle) {
                1int
            } else {
                0int
            }) + (if t.is_in_flight(handle) {
                1int
            } else {
                0int
            }) + (if t.is_processed(handle) {
                1int
            } else {
                0int
            }) + (if t.is_stored(handle) {
                1int
            } else {
                0int
            }) + (if t.is_failed(handle) {
                1int
            } else {
                0int
            });
            places == if t.is_issued(handle) {
                1int
            } else {
                0int
            }
        }),
{
    lemma_counter_never_negative(s, ops);
}

/// The module store only grows: a module that is in the store stays there
/// and is never replaced, whatever is done with the cache. The same holds of
/// the failures on record.
pub proof fn lemma_store_only_grows<M>(s: ShaderCacheModel<M>, ops: Seq<CacheOp<M>>)
    requires
        s.inv(),
    ensures
        forall|h: u32| #[trigger]
            s.is_stored(h) ==> s.apply_all(ops).is_stored(h) && s.apply_all(ops).shader_modules[h]
                == s.shader_modules[h],
        forall|h: u32| #[trigger]
            s.is_failed(h) ==> s.apply_all(ops).is_failed(h) && s.apply_all(ops).compile_errors[h]
                == s.compile_errors[h],
    decreases ops.len(),
{
    if ops.len() > 0 {
        let t = s.apply(ops[0]);
        lemma_apply_inv(s, ops[0]);
        lemma_apply_keeps_store(s, ops[0]);
        lemma_store_only_grows(t, ops.drop_first());
    }
}

/// What `receive_processed_shaders` receives: every module that waits in the
/// result channel is in the store afterwards, under its handle, and every
/// failure is on record.
pub proof fn lemma_receive_stores_outcomes<M>(s: ShaderCacheModel<M>, i: int)
    requires
        s.inv(),
        0 <= i < s.processed_shaders.len(),
    ensures
        ({
            let t = s.receive_processed_shaders();
            let handle = s.processed_shaders[i].0;
            match s.processed_shaders[i].1 {
                Ok(module) => t.is_stored(handle) && t.shader_modules[handle] == module,
                Err(error) => t.is_failed(handle) && t.compile_errors[handle] == error,
            }
        }),
{
    lemma_drain_stores_outcomes(s, i);
}

/// Receiving twice is receiving once: a second `receive_processed_shaders`
/// with no compile finished in between changes neither the module store nor
/// the frame status, nor anything else.
pub proof fn lemma_receive_is_idempotent<M>(s: ShaderCacheModel<M>)
    ensures
        s.receive_processed_shaders().receive_processed_shaders()
            == s.receive_processed_shaders(),
{
    lemma_drain_empties(s);
    let bits = s.drain().frame_status;
    assert((bits & !1u8) & !1u8 == bits & !1u8) by (bit_vector);
}

/// The fence holds frames back until the compiles before it are done.
///
/// Take a cache, do with it whatever `before` says, registrations among it,
/// and call `wait_for_shader_processing`. Then do with it whatever `after`
/// says: frames, completions, receiving with or without the compiler's turn,
/// more registrations, more fences, in any order and number. Whenever the
/// frame status then lets frames through, the module of every handle that
/// was issued before the fence is in the module store, unless its compile
/// failed and the failure is on record.
pub proof fn lemma_fence_holds_frames_back<M>(
    s: ShaderCacheModel<M>,
    before: Seq<CacheOp<M>>,
    after: Seq<CacheOp<M>>,
    handle: u32,
)
    requires
        s.valid(),
        s.apply_all(before).is_issued(handle),
        !s.apply_all(before).wait_for_shader_processing().apply_all(after).skips_frame(),
    ensures
        s.apply_all(before).wait_for_shader_processing().apply_all(after).is_stored(handle)
            || s.apply_all(before).wait_for_shader_processing().apply_all(after).is_failed(
            handle,
        ),
{
    let registered = s.apply_all(before);
    let fenced = registered.wait_for_shader_processing();
    let t = fenced.apply_all(after);
    lemma_counter_never_negative(s, before);
    lemma_wait_for_shader_processing_valid(registered);
    lemma_counter_never_negative(fenced, after);
    assert(t.is_fenced(handle));
}

/// A frame that is rendered finds the module of every shader that was
/// registered before the fence.
///
/// In such a run, whenever the frame status lets frames through, a key whose
/// entry names a handle from before the fence may be handed to `use_shader`
/// unless the compile of its module failed, and then the failure is on
/// record. The module is never one that is still to be compiled.
pub proof fn lemma_rendered_frames_find_shaders<M>(
    s: ShaderCacheModel<M>,
    before: Seq<CacheOp<M>>,
    after: Seq<CacheOp<M>>,
    key: ShaderKey,
)
    requires
        s.valid(),
        !s.apply_all(before).wait_for_shader_processing().apply_all(after).skips_frame(),
        s.apply_all(before).wait_for_shader_processing().apply_all(after).shaders.contains_key(key),
        s.apply_all(before).is_issued(
            s.apply_all(before).wait_for_shader_processing().apply_all(
                after,
            ).shaders[key].module_handle,
        ),
    ensures
        ({
            let t = s.apply_all(before).wait_for_shader_processing().apply_all(after);
            let handle = t.shaders[key].module_handle;
            &&& t.is_stored(handle) || t.is_failed(handle)
            &&& t.is_stored(handle) ==> t.can_use_shader(key) && t.lookup(key) == Ok::<
                ShaderEntry,
                GfxError,
            >(t.shaders[key])
        }),
{
    let t = s.apply_all(before).wait_for_shader_processing().apply_all(after);
    lemma_fence_holds_frames_back(s, before, after, t.shaders[key].module_handle);
}

/// The fence lets frames through as soon as the compiles before it are done.
///
/// In every state that the operations of the cache lead to, `do_frame`
/// answers that the frame is to be skipped exactly if, when it is called,
/// the compile of some handle from before the last fence is queued or under
/// way. So it lets the frame through exactly if, when it returns, the module
/// of every handle from before the last fence is in the module store or its
/// failure is on record.
pub proof fn lemma_fence_releases_frames<M>(s: ShaderCacheModel<M>)
    requires
        s.valid(),
    ensures
        s.do_frame().skips_frame() <==> exists|h: u32|
            s.is_fenced(h) && #[trigger] s.is_pending(h),
        !s.do_frame().skips_frame() <==> forall|h: u32| #[trigger]
            s.is_fenced(h) ==> s.do_frame().is_stored(h) || s.do_frame().is_failed(h),
        s.do_frame().fence_mark == s.fence_mark,
{
    let p = s.process();
    let d = p.drain();
    let t = s.do_frame();
    lemma_process(s);
    lemma_process_valid(s);
    lemma_drain(p);
    lemma_do_frame_valid(s);
    lemma_status_bits(d.frame_status);
    lemma_status_bits(t.frame_status);
    if exists|h: u32| s.is_fenced(h) && #[trigger] s.is_pending(h) {
        let h = choose|h: u32| s.is_fenced(h) && #[trigger] s.is_pending(h);
        assert(p.is_in_flight(h));
        if d.fence_count == 0 {
            lemma_count_below_none(p.in_flight, s.fence_mark);
        }
        assert(!t.is_completed(h));
    } else {
        assert forall|k: int| 0 <= k < p.in_flight.len() implies #[trigger] p.in_flight[k]
            >= s.fence_mark by {
            let h = p.in_flight[k];
            assert(p.is_in_flight(h));
        }
        lemma_count_below_zero(p.in_flight, s.fence_mark);
        assert forall|h: u32| #[trigger] s.is_fenced(h) implies t.is_stored(h) || t.is_failed(
            h,
        ) by {
            assert(t.is_fenced(h));
        }
    }
}

/// Where no handle is below the mark, the count is zero.
pub proof fn lemma_count_below_zero(handles: Seq<u32>, mark: u32)
    requires
        forall|k: int| 0 <= k < handles.len() ==> #[trigger] handles[k] >= mark,
    ensures
        count_below(handles, mark) == 0,
    decreases handles.len(),
{
    if handles.len() > 0 {
        lemma_count_below_zero(handles.drop_last(), mark);
    }
}

/// A fence counts the compiles that were queued before it.
///
/// When the compiler answers a fence that was queued behind all other
/// tasks, its answer is the number of compiles under way, every compile
/// that was queued or under way before the fence is among them, and they
/// were dispatched in the order of their registration. The fence count is
/// then zero only if no compile is under way: the outcome of each has
/// reached the result channel, the store or the record of failures.
pub proof fn lemma_fence_counts_compiles_before_it<M>(s: ShaderCacheModel<M>)
    requires
        s.valid(),
    ensures
        ({
            let t = s.wait_for_shader_processing().process();
            &&& t.fence_count == t.in_flight.len()
            &&& t.fence_count == s.in_flight.len() + compile_count(s.shaders_to_process)
            &&& forall|h: u32| s.is_pending(h) ==> #[trigger] t.is_in_flight(h)
            &&& t.spawned == s.spawned + compile_requests(s.shaders_to_process)
            &&& t.fence_mark == s.shader_module_handle_counter
            &&& forall|h: u32|
                t.fence_count == 0 && s.is_issued(h) ==> #[trigger] t.is_completed(h)
        }),
{
    let w = s.wait_for_shader_processing();
    lemma_wait_for_shader_processing_valid(s);
    lemma_process(w);
    lemma_process_keeps_order(w);
    lemma_compile_count_push(s.shaders_to_process, TaskModel::Fence);
    lemma_compile_requests_push(s.shaders_to_process, TaskModel::Fence);
    lemma_queued_after_push(s, w, TaskModel::Fence);
}

/// The answer to a fence is at least the number of compiles queued before
/// it that are not done: of any set of handles whose compiles are queued
/// or under way when the fence is queued, each is among the compiles under
/// way when the fence is answered, so their number is no more than the
/// fence count.
pub proof fn lemma_fence_count_bounds_pending<M>(s: ShaderCacheModel<M>, handles: Set<u32>)
    requires
        s.valid(),
        handles.finite(),
        forall|h: u32| handles.contains(h) ==> s.is_pending(h),
    ensures
        handles.len() <= s.wait_for_shader_processing().process().fence_count,
{
    let t = s.wait_for_shader_processing().process();
    lemma_wait_for_shader_processing_valid(s);
    lemma_process(s.wait_for_shader_processing());
    assert(handles.subset_of(t.in_flight.to_set())) by {
        assert forall|h: u32| handles.contains(h) implies t.in_flight.to_set().contains(h) by {
            assert(t.is_in_flight(h));
        }
    }
    t.in_flight.unique_seq_to_set();
    vstd::set_lib::lemma_len_subset(handles, t.in_flight.to_set());
}

/// The compiler dispatches compiles in the order in which they were queued.
pub proof fn lemma_process_keeps_order<M>(s: ShaderCacheModel<M>)
    ensures
        s.process().spawned == s.spawned + compile_requests(s.shaders_to_process),
    decreases s.shaders_to_process.len(),
{
    if s.shaders_to_process.len() > 0 {
        lemma_process_keeps_order(s.process_one());
    }
}

/// Receiving every outcome leaves none to receive.
pub proof fn lemma_drain_empties<M>(s: ShaderCacheModel<M>)
    ensures
        s.drain().processed_shaders.len() == 0,
        s.drain().fence_count == s.fence_count,
        s.drain().frame_status == s.frame_status,
    decreases s.processed_shaders.len(),
{
    if s.processed_shaders.len() > 0 {
        lemma_drain_empties(s.receive_one());
    }
}

/// One more task at the end of the queue is one more compile request, if it
/// is one.
pub proof fn lemma_compile_requests_push(tasks: Seq<TaskModel>, task: TaskModel)
    ensures
        compile_requests(tasks.push(task)) == compile_requests(tasks) + (match task {
            TaskModel::CompileShader(request) => seq![request],
            TaskModel::Fence => Seq::empty(),
        }),
    decreases tasks.len(),
{
    if tasks.len() == 0 {
        assert(compile_requests(tasks.push(task).drop_first()) =~= Seq::empty());
    } else {
        assert(tasks.push(task).drop_first() =~= tasks.drop_first().push(task));
        lemma_compile_requests_push(tasks.drop_first(), task);
    }
}

/// Entering shaders in the registry enters each of them under the handle,
/// and leaves the entries of all other keys alone.
pub proof fn lemma_register_all_entries<M>(
    s: ShaderCacheModel<M>,
    handle: u32,
    path: Seq<char>,
    entrypoints: Seq<ShaderEntrypoints>,
)
    ensures
        forall|i: int|
            0 <= i < entrypoints.len() ==> {
                let key = (#[trigger] entrypoints[i]).spec_key();
                &&& s.register_all(handle, path, entrypoints).shaders.contains_key(key)
                &&& s.register_all(handle, path, entrypoints).shaders[key].module_handle == handle
            },
        forall|key: ShaderKey|
            (forall|i: int| 0 <= i < entrypoints.len() ==> (#[trigger] entrypoints[i]).spec_key() != key)
                ==> {
                &&& #[trigger] s.register_all(handle, path, entrypoints).shaders.contains_key(key)
                    == s.shaders.contains_key(key)
                &&& s.shaders.contains_key(key) ==> s.register_all(
                    handle,
                    path,
                    entrypoints,
                ).shaders[key] == s.shaders[key]
            },
    decreases entrypoints.len(),
{
    let t = s.register_all(handle, path, entrypoints);
    if entrypoints.len() > 0 {
        let first = s.register(handle, path, entrypoints[0]);
        let rest = entrypoints.drop_first();
        lemma_register_all_entries(first, handle, path, rest);
        let u = first.register_all(handle, path, rest);
        assert forall|i: int| 0 <= i < entrypoints.len() implies {
            let key = (#[trigger] entrypoints[i]).spec_key();
            &&& t.shaders.contains_key(key)
            &&& t.shaders[key].module_handle == handle
        } by {
            if i > 0 {
                assert(u.shaders.contains_key(rest[i - 1].spec_key()));
            }
        }
    }
}

/// The compiler's turn leaves the handle counter and the registry alone.
pub proof fn lemma_process_frame<M>(s: ShaderCacheModel<M>)
    ensures
        s.process().shader_module_handle_counter == s.shader_module_handle_counter,
        s.process().shaders == s.shaders,
    decreases s.shaders_to_process.len(),
{
    if s.shaders_to_process.len() > 0 {
        lemma_process_frame(s.process_one());
    }
}

/// Receiving leaves the handle counter and the registry alone.
pub proof fn lemma_drain_frame<M>(s: ShaderCacheModel<M>)
    ensures
        s.drain().shader_module_handle_counter == s.shader_module_handle_counter,
        s.drain().shaders == s.shaders,
    decreases s.processed_shaders.len(),
{
    if s.processed_shaders.len() > 0 {
        lemma_drain_frame(s.receive_one());
    }
}

/// No operation takes a module out of the store or replaces it, and none
/// takes a failure off the record or replaces it.
pub proof fn lemma_apply_keeps_store<M>(s: ShaderCacheModel<M>, op: CacheOp<M>)
    requires
        s.inv(),
    ensures
        forall|h: u32| #[trigger]
            s.is_stored(h) ==> s.apply(op).is_stored(h) && s.apply(op).shader_modules[h]
                == s.shader_modules[h],
        forall|h: u32| #[trigger]
            s.is_failed(h) ==> s.apply(op).is_failed(h) && s.apply(op).compile_errors[h]
                == s.compile_errors[h],
{
    let t = s.apply(op);
    match op {
        CacheOp::AddShaderModule(descriptor, entrypoints) => {
            if s.registration_error(descriptor.spec_path(), entrypoints) is None {
                lemma_add_shader_module_frame(s, descriptor, entrypoints);
            }
        },
        CacheOp::WaitForShaderProcessing => {},
        CacheOp::Process => {
            lemma_process(s);
        },
        CacheOp::TakeSpawned => {},
        CacheOp::FinishCompile(handle, outcome) => {},
        CacheOp::ReceiveProcessedShaders => {
            lemma_drain_keeps_store(s);
        },
        CacheOp::DoFrame => {
            lemma_process(s);
            let p = s.process();
            lemma_drain_keeps_store(p);
            assert forall|h: u32| #[trigger] s.is_stored(h) implies t.is_stored(h)
                && t.shader_modules[h] == s.shader_modules[h] by {
                assert(p.is_stored(h));
            }
            assert forall|h: u32| #[trigger] s.is_failed(h) implies t.is_failed(h)
                && t.compile_errors[h] == s.compile_errors[h] by {
                assert(p.is_failed(h));
            }
        },
    }
}

/// Receiving takes no module out of the store and replaces none, and
/// likewise for the failures on record.
pub proof fn lemma_drain_keeps_store<M>(s: ShaderCacheModel<M>)
    requires
        s.inv(),
    ensures
        forall|h: u32| #[trigger]
            s.is_stored(h) ==> s.drain().is_stored(h) && s.drain().shader_modules[h]
                == s.shader_modules[h],
        forall|h: u32| #[trigger]
            s.is_failed(h) ==> s.drain().is_failed(h) && s.drain().compile_errors[h]
                == s.compile_errors[h],
    decreases s.processed_shaders.len(),
{
    if s.processed_shaders.len() > 0 {
        let t = s.receive_one();
        lemma_receive_one_inv(s);
        lemma_drain_keeps_store(t);
        assert forall|h: u32| #[trigger] s.is_stored(h) implies s.drain().is_stored(h)
            && s.drain().shader_modules[h] == s.shader_modules[h] by {
            assert(t.is_stored(h) && t.shader_modules[h] == s.shader_modules[h]);
        }
        assert forall|h: u32| #[trigger] s.is_failed(h) implies s.drain().is_failed(h)
            && s.drain().compile_errors[h] == s.compile_errors[h] by {
            assert(t.is_failed(h) && t.compile_errors[h] == s.compile_errors[h]);
        }
    }
}

/// Receiving every outcome puts each module that waits in the result
/// channel into the store, and each failure on record.
pub proof fn lemma_drain_stores_outcomes<M>(s: ShaderCacheModel<M>, i: int)
    requires
        s.inv(),
        0 <= i < s.processed_shaders.len(),
    ensures
        ({
            let t = s.receive_processed_shaders();
            let handle = s.processed_shaders[i].0;
            &&& t.shader_modules == s.drain().shader_modules
            &&& t.compile_errors == s.drain().compile_errors
            &&& match s.processed_shaders[i].1 {
                Ok(module) => s.drain().is_stored(handle) && s.drain().shader_modules[handle]
                    == module,
                Err(error) => s.drain().is_failed(handle) && s.drain().compile_errors[handle]
                    == error,
            }
        }),
    decreases s.processed_shaders.len(),
{
    let t = s.receive_one();
    lemma_receive_one_inv(s);
    if i == 0 {
        lemma_drain_keeps_store(t);
        let handle = s.processed_shaders[0].0;
        match s.processed_shaders[0].1 {
            Ok(module) => {
                assert(t.is_stored(handle));
            },
            Err(error) => {
                assert(t.is_failed(handle));
            },
        }
    } else {
        lemma_drain_stores_outcomes(t, i - 1);
    }
}

} // verus!
