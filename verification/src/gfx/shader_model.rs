//! The shader cache as a state machine: its state as plain mathematical
//! values, one function for each operation, and the invariant that every
//! operation keeps.

use vstd::prelude::*;
use vstd::utf8::{decode_utf8, valid_utf8};
use crate::gfx::error::GfxError;
use crate::gfx::shader::{
    ShaderEntrypoints, ShaderKey, ShaderModuleDescriptor, VertexShaderKey,
    SKIP_FRAME_FOR_SHADER_PROCESSING,
};
use crate::gfx::shader_attributes::{
    spec_find_vertex_attributes, spec_stride, VertexAttribute, MAX_VERTEX_ATTRIBUTES,
};
use crate::gfx::text::spec_ends_with;

verus! {

/// What the registry holds for a shader key.
pub struct ShaderEntry {
    /// Number of the handle of the module that holds the shader.
    pub module_handle: u32,
    /// Name of the shader's entry point in the module.
    pub entrypoint: Seq<char>,
}

/// The vertex buffer layout of a vertex shader.
pub struct VertexLayout {
    /// Bytes from one vertex to the next.
    pub stride: u64,
    /// The inputs of a vertex, in order.
    pub attributes: Seq<VertexAttribute>,
}

/// A compile task: the number of the module's handle and what to compile.
pub struct CompileRequest {
    pub handle: u32,
    pub descriptor: ShaderModuleDescriptor,
}

/// A task in the queue to the background compiler.
pub enum TaskModel {
    CompileShader(CompileRequest),
    Fence,
}

/// The number of the handle that a task is to compile, if it is a compile task.
pub open spec fn task_handle(task: TaskModel) -> Option<u32> {
    match task {
        TaskModel::CompileShader(request) => Some(request.handle),
        TaskModel::Fence => None,
    }
}

/// The task is a fence, or a compile of a WGSL source.
pub open spec fn task_is_wgsl(task: TaskModel) -> bool {
    match task {
        TaskModel::CompileShader(request) => is_wgsl_path(request.descriptor.spec_path()),
        TaskModel::Fence => true,
    }
}

/// Number of compile tasks among the given tasks.
pub open spec fn compile_count(tasks: Seq<TaskModel>) -> nat
    decreases tasks.len(),
{
    if tasks.len() == 0 {
        0
    } else if tasks[0] is CompileShader {
        1 + compile_count(tasks.drop_first())
    } else {
        compile_count(tasks.drop_first())
    }
}

/// The extension of the paths of WGSL sources.
pub open spec fn wgsl_extension() -> Seq<char> {
    seq!['.', 'w', 'g', 's', 'l']
}

/// The path names a source in WGSL, the one shader language that is supported.
pub open spec fn is_wgsl_path(path: Seq<char>) -> bool {
    spec_ends_with(path, wgsl_extension())
}

/// What a compile hands to the GPU: the text of the source, or why there is
/// none. The source could not be loaded (`UnreadableSource`); else its path
/// does not name a WGSL source, or its bytes are not text
/// (`UnsupportedShaderFormat`).
pub open spec fn spec_compile_shader(path: Seq<char>, shader_buf: Option<Seq<u8>>) -> Result<
    Seq<char>,
    GfxError,
> {
    match shader_buf {
        None => Err(GfxError::UnreadableSource),
        Some(bytes) => if !is_wgsl_path(path) || !valid_utf8(bytes) {
            Err(GfxError::UnsupportedShaderFormat)
        } else {
            Ok(decode_utf8(bytes))
        },
    }
}

/// The layout of a vertex buffer that holds exactly the given inputs.
pub open spec fn layout_of(attributes: Seq<VertexAttribute>) -> VertexLayout {
    VertexLayout { stride: spec_stride(attributes) as u64, attributes }
}

/// State of the shader cache and of its background compiler.
#[verifier::ext_equal]
pub struct ShaderCacheModel<M> {
    /// Flags of the frame status.
    pub frame_status: u8,
    /// Number of the handle that the next registration gets.
    pub shader_module_handle_counter: u32,
    /// The registry: what is known of each registered shader.
    pub shaders: Map<ShaderKey, ShaderEntry>,
    /// The vertex buffer layout of each registered vertex shader.
    pub vertex_shader_details: Map<VertexShaderKey, VertexLayout>,
    /// The module store: the compiled modules by the numbers of their handles.
    pub shader_modules: Map<u32, M>,
    /// Why the compile of a module failed, by the number of its handle.
    pub compile_errors: Map<u32, GfxError>,
    /// The task channel: tasks that the compiler has not taken yet, oldest first.
    pub shaders_to_process: Seq<TaskModel>,
    /// Compiles that the compiler has dispatched and nobody has taken up yet.
    pub spawned: Seq<CompileRequest>,
    /// Numbers of the handles whose compile is dispatched and not finished.
    pub in_flight: Seq<u32>,
    /// The outstanding-compile counter.
    pub compile_task_counter: int,
    /// The handle counter at the last call of `wait_for_shader_processing`:
    /// the last fence is for the handles below it.
    pub fence_mark: u32,
    /// What the compiler answered to the last fence, less the compiles of
    /// handles below the fence mark that finished since.
    pub fence_count: int,
    /// The result channel: outcomes that the cache has not received yet,
    /// oldest first.
    pub processed_shaders: Seq<(u32, Result<M, GfxError>)>,
}

impl<M> ShaderCacheModel<M> {
    /// The state of a new cache.
    pub open spec fn init() -> Self {
        ShaderCacheModel {
            frame_status: 0,
            shader_module_handle_counter: 1,
            shaders: Map::empty(),
            vertex_shader_details: Map::empty(),
            shader_modules: Map::empty(),
            compile_errors: Map::empty(),
            shaders_to_process: Seq::empty(),
            spawned: Seq::empty(),
            in_flight: Seq::empty(),
            compile_task_counter: 0,
            fence_mark: 1,
            fence_count: 0,
            processed_shaders: Seq::empty(),
        }
    }

    // ----- What is known of a handle -----

    /// The frame status says that frames are to be skipped.
    pub open spec fn skips_frame(self) -> bool {
        self.frame_status & SKIP_FRAME_FOR_SHADER_PROCESSING == SKIP_FRAME_FOR_SHADER_PROCESSING
    }

    /// A registration got the handle.
    pub open spec fn is_issued(self, handle: u32) -> bool {
        1 <= handle < self.shader_module_handle_counter
    }

    /// The compile task of the handle waits in the task channel.
    pub open spec fn is_queued(self, handle: u32) -> bool {
        exists|i: int|
            0 <= i < self.shaders_to_process.len() && task_handle(
                #[trigger] self.shaders_to_process[i],
            ) == Some(handle)
    }

    /// The compile of the handle is dispatched and not finished.
    pub open spec fn is_in_flight(self, handle: u32) -> bool {
        self.in_flight.contains(handle)
    }

    /// The outcome of the handle's compile waits in the result channel.
    pub open spec fn is_processed(self, handle: u32) -> bool {
        exists|i: int|
            0 <= i < self.processed_shaders.len() && (#[trigger] self.processed_shaders[i]).0
                == handle
    }

    /// The module of the handle is in the module store.
    pub open spec fn is_stored(self, handle: u32) -> bool {
        self.shader_modules.contains_key(handle)
    }

    /// The compile of the handle failed, and the cache has received the failure.
    pub open spec fn is_failed(self, handle: u32) -> bool {
        self.compile_errors.contains_key(handle)
    }

    /// The compile of the handle is not finished.
    pub open spec fn is_pending(self, handle: u32) -> bool {
        self.is_queued(handle) || self.is_in_flight(handle)
    }

    /// The compile of the handle is finished.
    pub open spec fn is_completed(self, handle: u32) -> bool {
        self.is_processed(handle) || self.is_stored(handle) || self.is_failed(handle)
    }

    /// The last fence is for the handle: it was issued before the last call
    /// of `wait_for_shader_processing`.
    pub open spec fn is_fenced(self, handle: u32) -> bool {
        1 <= handle < self.fence_mark
    }

    /// Every compile from before the last fence is done: each handle that was
    /// issued before the last call of `wait_for_shader_processing` has its
    /// module in the store or its failure on record.
    pub open spec fn fence_is_satisfied(self) -> bool {
        forall|handle: u32| #[trigger]
            self.is_fenced(handle) ==> self.is_stored(handle) || self.is_failed(handle)
    }

    /// A fence waits in the task channel, unanswered.
    pub open spec fn fence_queued(self) -> bool {
        exists|i: int|
            0 <= i < self.shaders_to_process.len() && (#[trigger] self.shaders_to_process[i]) is Fence
    }

    /// A fence waits in the task channel behind the task at place `i`.
    pub open spec fn fence_behind(self, i: int) -> bool {
        exists|j: int|
            i < j < self.shaders_to_process.len() && (#[trigger] self.shaders_to_process[j]) is Fence
    }

    // ----- The invariant -----

    /// No two compile tasks in the task channel are for the same handle.
    pub open spec fn queue_is_distinct(self) -> bool {
        forall|i: int, j: int|
            0 <= i < j < self.shaders_to_process.len() && task_handle(
                #[trigger] self.shaders_to_process[i],
            ) is Some ==> task_handle(self.shaders_to_process[i]) != task_handle(
                #[trigger] self.shaders_to_process[j],
            )
    }

    /// No two outcomes in the result channel are for the same handle.
    pub open spec fn results_are_distinct(self) -> bool {
        forall|i: int, j: int|
            0 <= i < j < self.processed_shaders.len() ==> (#[trigger] self.processed_shaders[i]).0
                != (#[trigger] self.processed_shaders[j]).0
    }

    /// Every compile that is queued or dispatched is of a WGSL source.
    pub open spec fn sources_are_wgsl(self) -> bool {
        &&& forall|i: int|
            0 <= i < self.shaders_to_process.len() ==> task_is_wgsl(
                #[trigger] self.shaders_to_process[i],
            )
        &&& forall|i: int|
            0 <= i < self.spawned.len() ==> is_wgsl_path(
                (#[trigger] self.spawned[i]).descriptor.spec_path(),
            )
    }

    /// The registry names issued handles only, every registered vertex shader
    /// has its layout, and the stride of each layout is the size of its inputs.
    pub open spec fn registry_is_sound(self) -> bool {
        &&& forall|key: ShaderKey| #[trigger]
            self.shaders.contains_key(key) ==> self.is_issued(self.shaders[key].module_handle)
        &&& forall|key: VertexShaderKey| #[trigger]
            self.shaders.contains_key(ShaderKey::VS(key))
                ==> self.vertex_shader_details.contains_key(key)
        &&& forall|key: VertexShaderKey| #[trigger]
            self.vertex_shader_details.contains_key(key) ==> {
                &&& self.vertex_shader_details[key].attributes.len() <= MAX_VERTEX_ATTRIBUTES
                &&& self.vertex_shader_details[key].stride == spec_stride(
                    self.vertex_shader_details[key].attributes,
                )
            }
    }

    /// What holds of the fence at all times.
    ///
    /// The fence mark is a handle counter of the past. A queued compile is
    /// for a handle below the mark exactly if a fence is queued behind it.
    /// While a fence is queued, every compile under way is for a handle
    /// below the mark. Once the fences are answered, the fence count is the
    /// number of compiles under way for handles below the mark. And frames
    /// are let through only if every handle below the mark has its module in
    /// the store or its failure on record.
    pub open spec fn fence_is_sound(self) -> bool {
        &&& 1 <= self.fence_mark <= self.shader_module_handle_counter
        &&& self.fence_count <= self.compile_task_counter
        &&& forall|i: int|
            0 <= i < self.shaders_to_process.len() && task_handle(
                #[trigger] self.shaders_to_process[i],
            ) is Some ==> (task_handle(self.shaders_to_process[i])->0 < self.fence_mark
                <==> self.fence_behind(i))
        &&& self.fence_queued() ==> forall|k: int|
            0 <= k < self.in_flight.len() ==> #[trigger] self.in_flight[k] < self.fence_mark
        &&& !self.fence_queued() ==> self.fence_count == count_below(
            self.in_flight,
            self.fence_mark,
        )
        &&& !self.skips_frame() ==> self.fence_is_satisfied()
    }

    /// The state is one that the operations of the cache lead to: it
    /// satisfies the invariant of the handles and that of the fence.
    pub open spec fn valid(self) -> bool {
        self.inv() && self.fence_is_sound()
    }

    /// What holds of the handles at all times.
    ///
    /// The outstanding-compile counter is the number of compiles that are
    /// dispatched and not finished. Every issued handle, and no other, is in
    /// exactly one of five places: its compile task is queued, its compile is
    /// under way, its outcome waits in the result channel, its module is in
    /// the store, or its failure is on record. Only WGSL sources are queued
    /// for compiling.
    pub open spec fn inv(self) -> bool {
        &&& self.frame_status == 0 || self.frame_status == SKIP_FRAME_FOR_SHADER_PROCESSING
        &&& 1 <= self.shader_module_handle_counter
        &&& self.compile_task_counter == self.in_flight.len()
        &&& 0 <= self.fence_count
        &&& self.in_flight.len() + compile_count(self.shaders_to_process)
            < self.shader_module_handle_counter
        &&& self.in_flight.no_duplicates()
        &&& self.queue_is_distinct()
        &&& forall|handle: u32|
            #![trigger self.is_issued(handle)]
            #![trigger self.is_pending(handle)]
            #![trigger self.is_completed(handle)]
            self.is_issued(handle) <==> self.is_pending(handle) || self.is_completed(handle)
        &&& forall|handle: u32|
            #![trigger self.is_pending(handle)]
            #![trigger self.is_completed(handle)]
            !(self.is_pending(handle) && self.is_completed(handle))
        &&& forall|handle: u32|
            #![trigger self.is_queued(handle)]
            #![trigger self.is_in_flight(handle)]
            !(self.is_queued(handle) && self.is_in_flight(handle))
        &&& forall|handle: u32|
            #![trigger self.is_processed(handle)]
            #![trigger self.is_stored(handle)]
            #![trigger self.is_failed(handle)]
            {
                &&& !(self.is_processed(handle) && self.is_stored(handle))
                &&& !(self.is_processed(handle) && self.is_failed(handle))
                &&& !(self.is_stored(handle) && self.is_failed(handle))
            }
        &&& self.results_are_distinct()
        &&& self.registry_is_sound()
        &&& self.sources_are_wgsl()
    }

    // ----- Registration -----

    /// Why a registration is refused, if it is: the source is not WGSL; else,
    /// a vertex shader among the entry points has no known layout; else, no
    /// handle is left.
    pub open spec fn registration_error(
        self,
        path: Seq<char>,
        entrypoints: Seq<ShaderEntrypoints>,
    ) -> Option<GfxError> {
        if !is_wgsl_path(path) {
            Some(GfxError::UnsupportedShaderFormat)
        } else if exists|i: int|
            0 <= i < entrypoints.len() && lacks_layout(path, #[trigger] entrypoints[i]) {
            Some(GfxError::UnknownVertexLayout)
        } else if self.shader_module_handle_counter == u32::MAX {
            Some(GfxError::HandleExhausted)
        } else {
            None
        }
    }

    /// The registry after one shader of the module `handle` with source `path`
    /// is entered: an earlier entry under the same key is replaced.
    pub open spec fn register(self, handle: u32, path: Seq<char>, entry: ShaderEntrypoints) -> Self {
        let registered = ShaderEntry { module_handle: handle, entrypoint: entry.spec_entrypoint() };
        match entry {
            ShaderEntrypoints::VS((key, name)) => ShaderCacheModel {
                vertex_shader_details: self.vertex_shader_details.insert(
                    key,
                    layout_of(spec_find_vertex_attributes(path, name@)->0),
                ),
                shaders: self.shaders.insert(ShaderKey::VS(key), registered),
                ..self
            },
            ShaderEntrypoints::PS((key, _)) => ShaderCacheModel {
                shaders: self.shaders.insert(ShaderKey::PS(key), registered),
                ..self
            },
        }
    }

    /// The registry after the given shaders are entered in order.
    pub open spec fn register_all(
        self,
        handle: u32,
        path: Seq<char>,
        entrypoints: Seq<ShaderEntrypoints>,
    ) -> Self
        decreases entrypoints.len(),
    {
        if entrypoints.len() == 0 {
            self
        } else {
            self.register(handle, path, entrypoints[0]).register_all(
                handle,
                path,
                entrypoints.drop_first(),
            )
        }
    }

    /// The state after `add_shader_module`: unchanged where the registration is
    /// refused; else the next handle is issued, one compile task for it is
    /// queued, and the shaders are entered in the registry under it.
    pub open spec fn add_shader_module(
        self,
        descriptor: ShaderModuleDescriptor,
        entrypoints: Seq<ShaderEntrypoints>,
    ) -> Self {
        if self.registration_error(descriptor.spec_path(), entrypoints) is Some {
            self
        } else {
            let handle = self.shader_module_handle_counter;
            let queued = ShaderCacheModel {
                shader_module_handle_counter: (handle + 1) as u32,
                shaders_to_process: self.shaders_to_process.push(
                    TaskModel::CompileShader(CompileRequest { handle, descriptor }),
                ),
                ..self
            };
            queued.register_all(handle, descriptor.spec_path(), entrypoints)
        }
    }

    /// What `add_shader_module` returns.
    pub open spec fn add_shader_module_result(
        self,
        descriptor: ShaderModuleDescriptor,
        entrypoints: Seq<ShaderEntrypoints>,
    ) -> Result<u32, GfxError> {
        match self.registration_error(descriptor.spec_path(), entrypoints) {
            Some(error) => Err(error),
            None => Ok(self.shader_module_handle_counter),
        }
    }

    // ----- Fencing -----

    /// The state after `wait_for_shader_processing`: a fence is queued behind
    /// the tasks that are in the task channel, the fence mark is the handle
    /// counter, and frames are skipped.
    pub open spec fn wait_for_shader_processing(self) -> Self {
        ShaderCacheModel {
            shaders_to_process: self.shaders_to_process.push(TaskModel::Fence),
            frame_status: self.frame_status | SKIP_FRAME_FOR_SHADER_PROCESSING,
            fence_mark: self.shader_module_handle_counter,
            ..self
        }
    }

    // ----- The background compiler -----

    /// The state after the compiler has taken the oldest task: a compile is
    /// dispatched and counted; a fence is answered with the counter.
    pub open spec fn process_one(self) -> Self
        recommends
            self.shaders_to_process.len() > 0,
    {
        let rest = self.shaders_to_process.drop_first();
        match self.shaders_to_process[0] {
            TaskModel::CompileShader(request) => ShaderCacheModel {
                shaders_to_process: rest,
                compile_task_counter: self.compile_task_counter + 1,
                in_flight: self.in_flight.push(request.handle),
                spawned: self.spawned.push(request),
                ..self
            },
            TaskModel::Fence => ShaderCacheModel {
                shaders_to_process: rest,
                fence_count: self.compile_task_counter,
                ..self
            },
        }
    }

    /// The state after the compiler has taken every task of the task channel,
    /// oldest first.
    pub open spec fn process(self) -> Self
        decreases self.shaders_to_process.len(),
    {
        if self.shaders_to_process.len() == 0 {
            self
        } else {
            self.process_one().process()
        }
    }

    /// The state after the dispatched compiles have been handed out.
    pub open spec fn take_spawned(self) -> Self {
        ShaderCacheModel { spawned: Seq::empty(), ..self }
    }

    /// The state after the compile of `handle` has finished with `outcome`:
    /// the outcome is in the result channel, and the compile is no longer
    /// counted. The fence count falls only for a handle below the fence
    /// mark.
    pub open spec fn finish_compile(self, handle: u32, outcome: Result<M, GfxError>) -> Self
        recommends
            self.is_in_flight(handle),
    {
        ShaderCacheModel {
            processed_shaders: self.processed_shaders.push((handle, outcome)),
            compile_task_counter: self.compile_task_counter - 1,
            fence_count: if handle < self.fence_mark && self.fence_count > 0 {
                self.fence_count - 1
            } else {
                self.fence_count
            },
            in_flight: self.in_flight.remove(self.in_flight.index_of(handle)),
            ..self
        }
    }

    /// The state after `finish_compile` is called for `handle`: as
    /// `finish_compile` where the compile is under way, unchanged else.
    pub open spec fn try_finish_compile(self, handle: u32, outcome: Result<M, GfxError>) -> Self {
        if self.is_in_flight(handle) {
            self.finish_compile(handle, outcome)
        } else {
            self
        }
    }

    // ----- Receiving -----

    /// The state after the oldest outcome of the result channel is received: a
    /// module goes to the store, a failure to the record of failures.
    pub open spec fn receive_one(self) -> Self
        recommends
            self.processed_shaders.len() > 0,
    {
        let rest = self.processed_shaders.drop_first();
        let handle = self.processed_shaders[0].0;
        match self.processed_shaders[0].1 {
            Ok(module) => ShaderCacheModel {
                processed_shaders: rest,
                shader_modules: self.shader_modules.insert(handle, module),
                ..self
            },
            Err(error) => ShaderCacheModel {
                processed_shaders: rest,
                compile_errors: self.compile_errors.insert(handle, error),
                ..self
            },
        }
    }

    /// The state after every outcome of the result channel is received, oldest
    /// first.
    pub open spec fn drain(self) -> Self
        decreases self.processed_shaders.len(),
    {
        if self.processed_shaders.len() == 0 {
            self
        } else {
            self.receive_one().drain()
        }
    }

    /// The state after `receive_processed_shaders`: the result channel is
    /// drained; then, if no fence waits for its answer and the fence count is
    /// zero, frames are no longer skipped.
    pub open spec fn receive_processed_shaders(self) -> Self {
        let drained = self.drain();
        if drained.fence_count == 0 && !drained.fence_queued() {
            ShaderCacheModel {
                frame_status: drained.frame_status & !SKIP_FRAME_FOR_SHADER_PROCESSING,
                ..drained
            }
        } else {
            drained
        }
    }

    /// The state after `do_frame`: the compiler takes all queued tasks, then
    /// the cache receives what has been processed.
    pub open spec fn do_frame(self) -> Self {
        self.process().receive_processed_shaders()
    }

    // ----- Runs of operations -----

    /// The state after one operation.
    pub open spec fn apply(self, op: CacheOp<M>) -> Self {
        match op {
            CacheOp::AddShaderModule(descriptor, entrypoints) => self.add_shader_module(
                descriptor,
                entrypoints,
            ),
            CacheOp::WaitForShaderProcessing => self.wait_for_shader_processing(),
            CacheOp::Process => self.process(),
            CacheOp::TakeSpawned => self.take_spawned(),
            CacheOp::FinishCompile(handle, outcome) => self.try_finish_compile(handle, outcome),
            CacheOp::ReceiveProcessedShaders => self.receive_processed_shaders(),
            CacheOp::DoFrame => self.do_frame(),
        }
    }

    /// The state after the given operations, in order.
    pub open spec fn apply_all(self, ops: Seq<CacheOp<M>>) -> Self
        decreases ops.len(),
    {
        if ops.len() == 0 {
            self
        } else {
            self.apply(ops[0]).apply_all(ops.drop_first())
        }
    }

    // ----- Lookup -----

    /// The module of the shader under the key is in the store, if a shader is
    /// registered under the key at all.
    pub open spec fn can_use_shader(self, key: ShaderKey) -> bool {
        self.shaders.contains_key(key) ==> self.shader_modules.contains_key(
            self.shaders[key].module_handle,
        )
    }

    /// What `use_shader` finds under a key: the handle and entry point of the
    /// shader that is registered under it, if there is one.
    pub open spec fn lookup(self, key: ShaderKey) -> Result<ShaderEntry, GfxError> {
        if self.shaders.contains_key(key) {
            Ok(self.shaders[key])
        } else {
            Err(GfxError::ShaderNotFound)
        }
    }
}

/// An operation on the shader cache.
pub enum CacheOp<'a, M> {
    /// `add_shader_module` with a descriptor and entry points.
    AddShaderModule(ShaderModuleDescriptor, Seq<ShaderEntrypoints<'a>>),
    /// `wait_for_shader_processing`.
    WaitForShaderProcessing,
    /// `process`: the background compiler's turn.
    Process,
    /// `take_spawned`.
    TakeSpawned,
    /// `finish_compile` for a handle, with an outcome.
    FinishCompile(u32, Result<M, GfxError>),
    /// `receive_processed_shaders`.
    ReceiveProcessedShaders,
    /// `do_frame`.
    DoFrame,
}

impl<'a, M> CacheOp<'a, M> {
    /// The operation is a registration with a shader under the key among its
    /// entry points.
    pub open spec fn registers(self, key: ShaderKey) -> bool {
        match self {
            CacheOp::AddShaderModule(_, entrypoints) => exists|i: int|
                0 <= i < entrypoints.len() && (#[trigger] entrypoints[i]).spec_key() == key,
            _ => false,
        }
    }
}

/// Number of the handles among the given ones that are below `mark`.
pub open spec fn count_below(handles: Seq<u32>, mark: u32) -> nat
    decreases handles.len(),
{
    if handles.len() == 0 {
        0
    } else if handles.last() < mark {
        count_below(handles.drop_last(), mark) + 1
    } else {
        count_below(handles.drop_last(), mark)
    }
}

/// The compile tasks among the given tasks, in their order.
pub open spec fn compile_requests(tasks: Seq<TaskModel>) -> Seq<CompileRequest>
    decreases tasks.len(),
{
    if tasks.len() == 0 {
        Seq::empty()
    } else {
        match tasks[0] {
            TaskModel::CompileShader(request) => seq![request] + compile_requests(
                tasks.drop_first(),
            ),
            TaskModel::Fence => compile_requests(tasks.drop_first()),
        }
    }
}

/// The entry is a vertex shader for which the table of layouts has no row
/// under the given source path.
pub open spec fn lacks_layout(path: Seq<char>, entry: ShaderEntrypoints) -> bool {
    match entry {
        ShaderEntrypoints::VS((_, name)) => spec_find_vertex_attributes(path, name@) is None,
        ShaderEntrypoints::PS(_) => false,
    }
}

} // verus!
