//! Shader keys, descriptors and the shader cache.
//!
//! A shader is registered under a key together with the descriptor of the
//! module that holds it. Registration queues a compile task; the background
//! compiler dispatches queued tasks, whoever runs a dispatched task reports
//! its outcome, and the cache receives the outcomes once per frame. A fence
//! makes the frames that follow wait until the compiles before it are done.

use std::collections::HashMap;
use std::collections::VecDeque;
use vstd::prelude::*;
use crate::gfx::error::GfxError;
use crate::gfx::shader_attributes::{find_vertex_attributes, vertex_stride, VertexAttribute};
use crate::gfx::shader_fence::{
    lemma_add_shader_module_valid, lemma_finish_compile_valid, lemma_process_one_valid,
    lemma_receive_one_valid, lemma_receive_processed_shaders_valid, lemma_take_spawned_valid,
    lemma_wait_for_shader_processing_valid,
};
use crate::gfx::shader_invariant::lemma_add_shader_module_frame;
use crate::gfx::shader_model::{
    is_wgsl_path, lacks_layout, spec_compile_shader, wgsl_extension, CompileRequest,
    ShaderCacheModel, ShaderEntry, TaskModel, VertexLayout,
};
use crate::gfx::text::{str_ends_with, text_from_utf8};

verus! {

/// Key of a vertex shader.
#[derive(Copy, Clone, Hash, Eq, PartialEq, Debug, Structural)]
pub enum VertexShaderKey {
    /// No shader.
    Invalid,
    /// The built-in shader that passes position and colour through.
    PassthroughVS,
    /// The built-in shader for glTF meshes.
    GltfVS,
    /// A shader of the user.
    Other(u32),
}

impl Default for VertexShaderKey {
    fn default() -> (key: Self)
        ensures
            key == VertexShaderKey::Invalid,
    {
        VertexShaderKey::Invalid
    }
}

/// Key of a pixel shader.
#[derive(Copy, Clone, Hash, Eq, PartialEq, Debug, Structural)]
pub enum PixelShaderKey {
    /// No shader.
    Invalid,
    /// The built-in shader that passes the colour through.
    PassthroughPS,
    /// The built-in shader for glTF meshes.
    GltfPS,
    /// A shader of the user.
    Other(u32),
}

impl Default for PixelShaderKey {
    fn default() -> (key: Self)
        ensures
            key == PixelShaderKey::Invalid,
    {
        PixelShaderKey::Invalid
    }
}

/// Key under which the cache finds a shader: its stage and its key there.
#[derive(Copy, Clone, Hash, Eq, PartialEq, Debug, Structural)]
pub enum ShaderKey {
    /// A vertex shader.
    VS(VertexShaderKey),
    /// A pixel shader.
    PS(PixelShaderKey),
}

/// A shader of a module that is being registered: its key and the name of its
/// entry point in the module's source.
pub enum ShaderEntrypoints<'a> {
    /// A vertex shader.
    VS((VertexShaderKey, &'a str)),
    /// A pixel shader.
    PS((PixelShaderKey, &'a str)),
}

impl<'a> ShaderEntrypoints<'a> {
    /// The key under which the shader is registered.
    pub open spec fn spec_key(self) -> ShaderKey {
        match self {
            ShaderEntrypoints::VS((key, _)) => ShaderKey::VS(key),
            ShaderEntrypoints::PS((key, _)) => ShaderKey::PS(key),
        }
    }

    /// The name of the shader's entry point.
    pub open spec fn spec_entrypoint(self) -> Seq<char> {
        match self {
            ShaderEntrypoints::VS((_, name)) => name@,
            ShaderEntrypoints::PS((_, name)) => name@,
        }
    }
}

/// Handle of a shader module. The cache hands out each handle once, in
/// rising order from 1.
#[derive(Copy, Clone, Hash, Eq, PartialEq, Debug, Structural)]
pub struct ShaderModuleHandle(u32);

impl View for ShaderModuleHandle {
    type V = u32;

    closed spec fn view(&self) -> u32 {
        self.0
    }
}

impl ShaderModuleHandle {
    /// The number of the handle.
    pub fn index(&self) -> (number: u32)
        ensures
            number == self@,
    {
        self.0
    }

    /// Handles with the same number are the same handle.
    pub proof fn lemma_same_number(self, other: ShaderModuleHandle)
        ensures
            self@ == other@ <==> self == other,
    {
    }
}

/// Value of a compile-time constant of a shader module.
#[derive(Copy, Clone, Debug, PartialEq, Eq, Hash, Structural)]
pub enum ShaderModuleConstant {
    /// A truth value.
    Bool(bool),
}

/// What to compile: the path of the source and the compile-time constants, in
/// order, each with its name.
pub struct ShaderModuleDescriptor {
    path: String,
    constants: Vec<(String, ShaderModuleConstant)>,
}

impl ShaderModuleDescriptor {
    /// The path of the source.
    pub closed spec fn spec_path(&self) -> Seq<char> {
        self.path@
    }

    /// The compile-time constants.
    pub closed spec fn spec_constants(&self) -> Seq<(String, ShaderModuleConstant)> {
        self.constants@
    }

    /// A descriptor of the source at `path` with the given constants.
    pub fn new(path: String, constants: Vec<(String, ShaderModuleConstant)>) -> (descriptor: Self)
        ensures
            descriptor.spec_path() == path@,
            descriptor.spec_constants() == constants@,
    {
        ShaderModuleDescriptor { path, constants }
    }

    /// The path of the source.
    pub fn path(&self) -> (path: &str)
        ensures
            path@ == self.spec_path(),
    {
        self.path.as_str()
    }

    /// The compile-time constants.
    pub fn constants(&self) -> (constants: &Vec<(String, ShaderModuleConstant)>)
        ensures
            constants@ == self.spec_constants(),
    {
        &self.constants
    }
}

/// Bit of a frame status: the frame is to be skipped, because a fence waits
/// for shaders that are still being compiled.
pub const SKIP_FRAME_FOR_SHADER_PROCESSING: u8 = 0x01;

/// What the shader cache says of a frame: a set of flags, empty when the
/// frame may be rendered.
#[derive(Copy, Clone, Debug, PartialEq, Eq, Hash, Structural)]
pub struct ShaderCacheFrameStatus {
    bits: u8,
}

impl View for ShaderCacheFrameStatus {
    type V = u8;

    closed spec fn view(&self) -> u8 {
        self.bits
    }
}

impl ShaderCacheFrameStatus {
    /// The flags as bits.
    pub fn bits(&self) -> (bits: u8)
        ensures
            bits == self@,
    {
        self.bits
    }

    /// The status with exactly the given bits.
    pub fn from_bits(bits: u8) -> (status: Self)
        ensures
            status@ == bits,
    {
        ShaderCacheFrameStatus { bits }
    }

    /// The status without flags: the frame may be rendered.
    pub fn ok() -> (status: Self)
        ensures
            status@ == 0,
    {
        ShaderCacheFrameStatus { bits: 0 }
    }

    /// The status whose only flag says that the frame is to be skipped.
    pub fn skip_frame_for_shader_processing() -> (status: Self)
        ensures
            status@ == SKIP_FRAME_FOR_SHADER_PROCESSING,
    {
        ShaderCacheFrameStatus { bits: SKIP_FRAME_FOR_SHADER_PROCESSING }
    }

    /// Tells whether no flag is set.
    pub fn is_empty(&self) -> (empty: bool)
        ensures
            empty == (self@ == 0),
    {
        self.bits == 0
    }

    /// Tells whether every flag of `other` is set in `self`.
    pub fn contains(&self, other: ShaderCacheFrameStatus) -> (all: bool)
        ensures
            all == (self@ & other@ == other@),
    {
        self.bits & other.bits == other.bits
    }

    /// Sets the flags of `other`.
    pub fn insert(&mut self, other: ShaderCacheFrameStatus)
        ensures
            final(self)@ == old(self)@ | other@,
    {
        self.bits = self.bits | other.bits;
    }

    /// Clears the flags of `other`.
    pub fn remove(&mut self, other: ShaderCacheFrameStatus)
        ensures
            final(self)@ == old(self)@ & !other@,
    {
        self.bits = self.bits & !other.bits;
    }
}

/// A shader module to compile, and the handle under which the module will be
/// stored.
pub struct CompileShaderTask {
    /// The handle of the module.
    pub handle: ShaderModuleHandle,
    /// What to compile.
    pub descriptor: ShaderModuleDescriptor,
}

/// A fence: the compiler answers it with the number of compiles that are
/// under way when it gets there.
pub struct FenceTask {}

/// What the cache asks of the background compiler.
pub enum ShaderProcessorTask {
    /// Compile a shader module.
    CompileShader(CompileShaderTask),
    /// Report the compiles under way.
    Fence(FenceTask),
}

impl View for CompileShaderTask {
    type V = CompileRequest;

    open spec fn view(&self) -> CompileRequest {
        CompileRequest { handle: self.handle@, descriptor: self.descriptor }
    }
}

impl View for ShaderProcessorTask {
    type V = TaskModel;

    open spec fn view(&self) -> TaskModel {
        match self {
            ShaderProcessorTask::CompileShader(task) => TaskModel::CompileShader(task@),
            ShaderProcessorTask::Fence(_) => TaskModel::Fence,
        }
    }
}

/// A shader that is ready for use: its compiled module and the name of its
/// entry point.
pub struct ShaderRef<'a, M> {
    /// The compiled module.
    pub module: &'a M,
    /// The name of the entry point.
    pub entrypoint: &'a str,
}

struct ShaderDetails {
    module_handle: ShaderModuleHandle,
    entrypoint: String,
}

impl View for ShaderDetails {
    type V = ShaderEntry;

    closed spec fn view(&self) -> ShaderEntry {
        ShaderEntry { module_handle: self.module_handle@, entrypoint: self.entrypoint@ }
    }
}

/// The vertex buffer layout of a registered vertex shader.
pub struct VertexShaderDetails {
    stride: u64,
    attributes: Vec<VertexAttribute>,
}

impl View for VertexShaderDetails {
    type V = VertexLayout;

    closed spec fn view(&self) -> VertexLayout {
        VertexLayout { stride: self.stride, attributes: self.attributes@ }
    }
}

impl VertexShaderDetails {
    /// Bytes from one vertex to the next.
    pub fn stride(&self) -> (stride: u64)
        ensures
            stride == self@.stride,
    {
        self.stride
    }

    /// The inputs of a vertex, in order.
    pub fn attributes(&self) -> (attributes: &Vec<VertexAttribute>)
        ensures
            attributes@ == self@.attributes,
    {
        &self.attributes
    }
}

/// The number under which the cache files a vertex shader key.
spec fn vs_code(key: VertexShaderKey) -> u64 {
    match key {
        VertexShaderKey::Invalid => 0,
        VertexShaderKey::PassthroughVS => 1,
        VertexShaderKey::GltfVS => 2,
        VertexShaderKey::Other(n) => (3 + n) as u64,
    }
}

/// The number under which the cache files a pixel shader key.
spec fn ps_code(key: PixelShaderKey) -> u64 {
    match key {
        PixelShaderKey::Invalid => 0,
        PixelShaderKey::PassthroughPS => 1,
        PixelShaderKey::GltfPS => 2,
        PixelShaderKey::Other(n) => (3 + n) as u64,
    }
}

/// The number under which the cache files a shader key. No two keys have the
/// same number.
spec fn shader_code(key: ShaderKey) -> u64 {
    match key {
        ShaderKey::VS(vs) => (2 * vs_code(vs)) as u64,
        ShaderKey::PS(ps) => (2 * ps_code(ps) + 1) as u64,
    }
}

fn vertex_shader_code(key: VertexShaderKey) -> (code: u64)
    ensures
        code == vs_code(key),
{
    match key {
        VertexShaderKey::Invalid => 0,
        VertexShaderKey::PassthroughVS => 1,
        VertexShaderKey::GltfVS => 2,
        VertexShaderKey::Other(n) => 3 + n as u64,
    }
}

fn pixel_shader_code(key: PixelShaderKey) -> (code: u64)
    ensures
        code == ps_code(key),
{
    match key {
        PixelShaderKey::Invalid => 0,
        PixelShaderKey::PassthroughPS => 1,
        PixelShaderKey::GltfPS => 2,
        PixelShaderKey::Other(n) => 3 + n as u64,
    }
}

fn shader_key_code(key: ShaderKey) -> (code: u64)
    ensures
        code == shader_code(key),
{
    match key {
        ShaderKey::VS(vs) => 2 * vertex_shader_code(vs),
        ShaderKey::PS(ps) => 2 * pixel_shader_code(ps) + 1,
    }
}

/// What the background compiler keeps: the compiles that it has dispatched,
/// their number, and its answer to the last fence.
pub struct ShaderProcessor {
    spawned: Vec<CompileShaderTask>,
    in_flight: Vec<u32>,
    compile_task_counter: u32,
    fence_count: u32,
}

/// The source of a shader module, ready to be compiled.
pub enum ShaderSource {
    /// The text of a source in WGSL.
    Wgsl(String),
}

impl ShaderProcessor {
    /// The part of a compile between loading and the GPU: decides from the
    /// path of the source and from what was loaded what is handed to the GPU.
    /// `shader_buf` holds the bytes of the source, or `None` where they could
    /// not be loaded.
    ///
    /// The result is the text of the source, where the bytes were loaded,
    /// the path ends in `.wgsl` and the bytes are UTF-8. Else it is
    /// `UnreadableSource` where nothing was loaded, and
    /// `UnsupportedShaderFormat` for another extension or for bytes that are
    /// not text.
    pub fn compile_shader(
        shader_to_process: &CompileShaderTask,
        shader_buf: Option<Vec<u8>>,
    ) -> (source: Result<ShaderSource, GfxError>)
        ensures
            match spec_compile_shader(
                shader_to_process.descriptor.spec_path(),
                match shader_buf {
                    Some(bytes) => Some(bytes@),
                    None => None,
                },
            ) {
                Ok(text) => source matches Ok(ShaderSource::Wgsl(wgsl)) && wgsl@ == text,
                Err(error) => source matches Err(e) && e == error,
            },
    {
        let path = shader_to_process.descriptor.path();
        let shader_buf = match shader_buf {
            None => {
                return Err(GfxError::UnreadableSource);
            },
            Some(shader_buf) => shader_buf,
        };
        proof {
            reveal_strlit(".wgsl");
            assert(".wgsl"@ =~= wgsl_extension());
        }
        if str_ends_with(path, ".wgsl") {
            match text_from_utf8(shader_buf) {
                Some(text) => Ok(ShaderSource::Wgsl(text)),
                None => Err(GfxError::UnsupportedShaderFormat),
            }
        } else {
            Err(GfxError::UnsupportedShaderFormat)
        }
    }
}

/// The shader cache: the registry of shaders, the store of compiled modules,
/// the channels to and from the background compiler, and the compiler's own
/// state.
///
/// `M` is the type of a compiled module; the cache stores modules and hands
/// out references to them, and never looks into one.
pub struct ShaderCache<M> {
    frame_status: ShaderCacheFrameStatus,
    shader_module_handle_counter: u32,
    fence_mark: u32,
    shaders: HashMap<u64, ShaderDetails>,
    shader_modules: HashMap<u32, M>,
    compile_errors: HashMap<u32, GfxError>,
    vertex_shader_details: HashMap<u64, VertexShaderDetails>,
    shader_processor: ShaderProcessor,
    shaders_to_process: VecDeque<ShaderProcessorTask>,
    processed_shaders: VecDeque<(ShaderModuleHandle, Result<M, GfxError>)>,
}

impl<M> View for ShaderCache<M> {
    type V = ShaderCacheModel<M>;

    closed spec fn view(&self) -> ShaderCacheModel<M> {
        ShaderCacheModel {
            frame_status: self.frame_status@,
            shader_module_handle_counter: self.shader_module_handle_counter,
            shaders: Map::new(
                |key: ShaderKey| self.shaders@.contains_key(shader_code(key)),
                |key: ShaderKey| self.shaders@[shader_code(key)]@,
            ),
            vertex_shader_details: Map::new(
                |key: VertexShaderKey| self.vertex_shader_details@.contains_key(vs_code(key)),
                |key: VertexShaderKey| self.vertex_shader_details@[vs_code(key)]@,
            ),
            shader_modules: self.shader_modules@,
            compile_errors: self.compile_errors@,
            shaders_to_process: self.shaders_to_process@.map_values(
                |task: ShaderProcessorTask| task@,
            ),
            spawned: self.shader_processor.spawned@.map_values(|task: CompileShaderTask| task@),
            in_flight: self.shader_processor.in_flight@,
            compile_task_counter: self.shader_processor.compile_task_counter as int,
            fence_mark: self.fence_mark,
            fence_count: self.shader_processor.fence_count as int,
            processed_shaders: self.processed_shaders@.map_values(
                |result: (ShaderModuleHandle, Result<M, GfxError>)| (result.0@, result.1),
            ),
        }
    }
}

impl<M> ShaderCache<M> {
    /// The cache is well formed: its state satisfies the invariants of the
    /// state machine.
    pub closed spec fn wf(&self) -> bool {
        self@.valid()
    }

    /// A well-formed cache satisfies the invariants.
    pub proof fn lemma_wf_inv(&self)
        requires
            self.wf(),
        ensures
            self@.valid(),
    {
    }

    /// A cache without shaders. The first handle that it will issue is 1.
    pub fn new() -> (cache: Self)
        ensures
            cache.wf(),
            cache@ == ShaderCacheModel::<M>::init(),
    {
        let cache = ShaderCache {
            frame_status: ShaderCacheFrameStatus::ok(),
            shader_module_handle_counter: 1,
            fence_mark: 1,
            shaders: HashMap::new(),
            shader_modules: HashMap::new(),
            compile_errors: HashMap::new(),
            vertex_shader_details: HashMap::new(),
            shader_processor: ShaderProcessor {
                spawned: Vec::new(),
                in_flight: Vec::new(),
                compile_task_counter: 0,
                fence_count: 0,
            },
            shaders_to_process: VecDeque::new(),
            processed_shaders: VecDeque::new(),
        };
        cache
    }

    /// Puts a task into the channel to the background compiler.
    fn submit_shader_processor_task(&mut self, task: ShaderProcessorTask)
        ensures
            final(self)@ == (ShaderCacheModel {
                shaders_to_process: old(self)@.shaders_to_process.push(task@),
                ..old(self)@
            }),
    {
        self.shaders_to_process.push_back(task);
    }

    /// Queues a fence behind the tasks that are queued, and has frames skipped
    /// until the compiler has answered it and every compile that is queued
    /// or under way now is done: its module in the store, or its failure on
    /// record. The fence is for the handles issued so far.
    pub fn wait_for_shader_processing(&mut self)
        requires
            old(self).wf(),
        ensures
            final(self).wf(),
            final(self)@ == old(self)@.wait_for_shader_processing(),
    {
        self.submit_shader_processor_task(ShaderProcessorTask::Fence(FenceTask {  }));
        self.fence_mark = self.shader_module_handle_counter;
        self.frame_status.insert(ShaderCacheFrameStatus::skip_frame_for_shader_processing());
        proof {
            lemma_wait_for_shader_processing_valid(old(self)@);
        }
    }

    /// The frame status as the last call of `do_frame` or
    /// `receive_processed_shaders` left it.
    pub fn frame_status(&self) -> (status: ShaderCacheFrameStatus)
        ensures
            status@ == self@.frame_status,
    {
        self.frame_status
    }

    /// Takes the oldest task out of the channel to the background compiler,
    /// if there is one.
    fn get_next_task(&mut self) -> (task: Option<ShaderProcessorTask>)
        ensures
            task is None <==> old(self)@.shaders_to_process.len() == 0,
            task is None ==> final(self)@ == old(self)@,
            task matches Some(next) ==> {
                &&& next@ == old(self)@.shaders_to_process[0]
                &&& final(self)@ == (ShaderCacheModel {
                    shaders_to_process: old(self)@.shaders_to_process.drop_first(),
                    ..old(self)@
                })
            },
    {
        let task = self.shaders_to_process.pop_front();
        task
    }

    /// The background compiler's turn: takes every task out of the channel,
    /// oldest first. A compile task is counted as under way and put with the
    /// dispatched compiles, for `take_spawned` to hand out; a fence is
    /// answered with the number of compiles under way.
    pub fn process(&mut self)
        requires
            old(self).wf(),
        ensures
            final(self).wf(),
            final(self)@ == old(self)@.process(),
    {
        loop
            invariant
                self.wf(),
                self@.process() == old(self)@.process(),
            ensures
                self.wf(),
                self@ == old(self)@.process(),
            decreases self@.shaders_to_process.len(),
        {
            let ghost before = self@;
            match self.get_next_task() {
                None => {
                    break ;
                },
                Some(ShaderProcessorTask::CompileShader(compile_shader_task)) => {
                    proof {
                        lemma_process_one_valid(before);
                    }
                    self.shader_processor.compile_task_counter =
                        self.shader_processor.compile_task_counter + 1;
                    self.shader_processor.in_flight.push(compile_shader_task.handle.index());
                    self.shader_processor.spawned.push(compile_shader_task);
                    assert(self@ =~= before.process_one());
                },
                Some(ShaderProcessorTask::Fence(_)) => {
                    proof {
                        lemma_process_one_valid(before);
                    }
                    self.shader_processor.fence_count = self.shader_processor.compile_task_counter;
                },
            }
        }
    }

    /// Hands out the compiles that the background compiler has dispatched
    /// since the last call, in the order of their registration. Whoever takes
    /// them loads and compiles each source and reports the outcome with
    /// `finish_compile`. Each of them is of a WGSL source: no other gets
    /// past the registration.
    pub fn take_spawned(&mut self) -> (tasks: Vec<CompileShaderTask>)
        requires
            old(self).wf(),
        ensures
            final(self).wf(),
            final(self)@ == old(self)@.take_spawned(),
            tasks@.map_values(|task: CompileShaderTask| task@) == old(self)@.spawned,
            forall|i: int|
                0 <= i < tasks.len() ==> is_wgsl_path(
                    (#[trigger] tasks@[i]).descriptor.spec_path(),
                ),
    {
        let mut tasks: Vec<CompileShaderTask> = Vec::new();
        std::mem::swap(&mut tasks, &mut self.shader_processor.spawned);
        proof {
            lemma_take_spawned_valid(old(self)@);
            assert(self@ =~= old(self)@.take_spawned());
            assert forall|i: int| 0 <= i < tasks.len() implies is_wgsl_path(
                (#[trigger] tasks@[i]).descriptor.spec_path(),
            ) by {
                assert(old(self)@.spawned[i] == tasks@[i]@);
            }
        }
        tasks
    }

    /// The outstanding-compile counter: the number of compiles that are
    /// dispatched and not finished.
    pub fn outstanding_compiles(&self) -> (count: u32)
        ensures
            count == self@.compile_task_counter,
    {
        self.shader_processor.compile_task_counter
    }

    /// The fence mark: the last fence is for the handles with numbers below
    /// it, those that were issued before the last call of
    /// `wait_for_shader_processing`.
    pub fn fence_mark(&self) -> (mark: u32)
        ensures
            mark == self@.fence_mark,
    {
        self.fence_mark
    }

    /// The fence count: what the compiler answered to the last fence, less
    /// the compiles of handles below the fence mark that have finished since.
    pub fn fence_count(&self) -> (count: u32)
        ensures
            count == self@.fence_count,
    {
        self.shader_processor.fence_count
    }

    /// Tells whether the compile of the handle is dispatched and not finished.
    pub fn is_compile_in_flight(&self, handle: ShaderModuleHandle) -> (in_flight: bool)
        ensures
            in_flight == self@.is_in_flight(handle@),
    {
        self.find_in_flight(handle.index()).is_some()
    }

    /// The place of the handle among the compiles under way.
    fn find_in_flight(&self, handle: u32) -> (place: Option<usize>)
        ensures
            place is Some <==> self@.in_flight.contains(handle),
            place matches Some(at) ==> at < self@.in_flight.len() && self@.in_flight[at as int]
                == handle,
    {
        let mut i: usize = 0;
        while i < self.shader_processor.in_flight.len()
            invariant
                i <= self.shader_processor.in_flight.len(),
                forall|j: int| 0 <= j < i ==> self.shader_processor.in_flight@[j] != handle,
            decreases self.shader_processor.in_flight.len() - i,
        {
            if self.shader_processor.in_flight[i] == handle {
                return Some(i);
            }
            i = i + 1;
        }
        None
    }

    /// Reports that the compile of `handle` has finished with `outcome`: the
    /// module, or why there is none.
    ///
    /// Where the compile is under way, the outcome goes into the result
    /// channel, the compile is no longer counted, and the fence count falls
    /// by one if the handle was issued before the last fence. Where it is
    /// not, nothing changes and the result is `false`.
    pub fn finish_compile(
        &mut self,
        handle: ShaderModuleHandle,
        outcome: Result<M, GfxError>,
    ) -> (accepted: bool)
        requires
            old(self).wf(),
        ensures
            final(self).wf(),
            accepted == old(self)@.is_in_flight(handle@),
            accepted ==> final(self)@ == old(self)@.finish_compile(handle@, outcome),
            !accepted ==> final(self)@ == old(self)@,
    {
        match self.find_in_flight(handle.index()) {
            None => false,
            Some(at) => {
                proof {
                    lemma_finish_compile_valid(old(self)@, handle@, outcome);
                }
                self.shader_processor.in_flight.remove(at);
                self.processed_shaders.push_back((handle, outcome));
                self.shader_processor.compile_task_counter =
                    self.shader_processor.compile_task_counter - 1;
                if handle.index() < self.fence_mark && self.shader_processor.fence_count > 0 {
                    self.shader_processor.fence_count = self.shader_processor.fence_count - 1;
                }
                assert(self@ =~= old(self)@.finish_compile(handle@, outcome));
                true
            },
        }
    }

    /// Tells whether a fence waits in the task channel, unanswered.
    pub fn has_queued_fence(&self) -> (queued: bool)
        ensures
            queued == self@.fence_queued(),
    {
        let mut i: usize = 0;
        while i < self.shaders_to_process.len()
            invariant
                i <= self.shaders_to_process.len(),
                forall|j: int| 0 <= j < i ==> !(#[trigger] self@.shaders_to_process[j] is Fence),
            decreases self.shaders_to_process.len() - i,
        {
            match &self.shaders_to_process[i] {
                ShaderProcessorTask::Fence(_) => {
                    assert(self@.shaders_to_process[i as int] is Fence);
                    return true;
                },
                ShaderProcessorTask::CompileShader(_) => {},
            }
            i = i + 1;
        }
        false
    }

    /// Receives what the compiler has finished: every outcome in the result
    /// channel, oldest first. A module goes into the store, a failure into the
    /// record of failures. Then, if no fence waits for its answer and the
    /// fence count is zero, frames are no longer skipped: every compile that
    /// was queued or under way at the last fence is done. Never waits.
    pub fn receive_processed_shaders(&mut self)
        requires
            old(self).wf(),
        ensures
            final(self).wf(),
            final(self)@ == old(self)@.receive_processed_shaders(),
            !final(self)@.skips_frame() ==> final(self)@.fence_is_satisfied(),
    {
        loop
            invariant
                self.wf(),
                self@.drain() == old(self)@.drain(),
            ensures
                self.wf(),
                self@ == old(self)@.drain(),
            decreases self@.processed_shaders.len(),
        {
            let ghost before = self@;
            match self.processed_shaders.pop_front() {
                None => {
                    break ;
                },
                Some((shader_module_handle, Ok(shader_module))) => {
                    proof {
                        lemma_receive_one_valid(before);
                    }
                    self.shader_modules.insert(shader_module_handle.index(), shader_module);
                    assert(self@ =~= before.receive_one());
                },
                Some((shader_module_handle, Err(error))) => {
                    proof {
                        lemma_receive_one_valid(before);
                    }
                    self.compile_errors.insert(shader_module_handle.index(), error);
                    assert(self@ =~= before.receive_one());
                },
            }
        }
        if self.shader_processor.fence_count == 0 && !self.has_queued_fence() {
            self.frame_status.remove(ShaderCacheFrameStatus::skip_frame_for_shader_processing());
        }
        proof {
            lemma_receive_processed_shaders_valid(old(self)@);
        }
    }

    /// One frame of the cache: the background compiler takes the queued
    /// tasks, then the cache receives what has been processed. The result is
    /// the frame status: with the skip flag set, the frame is not to be
    /// rendered.
    pub fn do_frame(&mut self) -> (status: ShaderCacheFrameStatus)
        requires
            old(self).wf(),
        ensures
            final(self).wf(),
            final(self)@ == old(self)@.do_frame(),
            status@ == final(self)@.frame_status,
            !final(self)@.skips_frame() ==> final(self)@.fence_is_satisfied(),
    {
        self.process();
        self.receive_processed_shaders();
        self.frame_status
    }
}

/// The graphics state that the frame loop works on: the shader cache.
pub struct State<M> {
    shader_cache: ShaderCache<M>,
}

impl<M> View for State<M> {
    type V = ShaderCacheModel<M>;

    closed spec fn view(&self) -> ShaderCacheModel<M> {
        self.shader_cache@
    }
}

impl<M> State<M> {
    /// The state is well formed: its shader cache is.
    pub closed spec fn wf(&self) -> bool {
        self.shader_cache.wf()
    }

    /// A well-formed state satisfies the invariants.
    pub proof fn lemma_wf_inv(&self)
        requires
            self.wf(),
        ensures
            self@.valid(),
    {
    }

    /// A state with a new shader cache.
    pub fn new() -> (state: Self)
        ensures
            state.wf(),
            state@ == ShaderCacheModel::<M>::init(),
    {
        State { shader_cache: ShaderCache::new() }
    }

    /// The shader cache.
    pub fn shader_cache(&self) -> (cache: &ShaderCache<M>)
        ensures
            cache@ == self@,
            cache.wf() == self.wf(),
    {
        &self.shader_cache
    }

    /// The shader cache, for `do_frame`, `wait_for_shader_processing` and the
    /// other operations that change it.
    pub fn shader_cache_mut(&mut self) -> (cache: &mut ShaderCache<M>)
        ensures
            cache@ == old(self)@,
            cache.wf() == old(self).wf(),
            final(self)@ == final(cache)@,
            final(self).wf() == final(cache).wf(),
    {
        &mut self.shader_cache
    }

    /// Tells whether a shader is registered under the key.
    pub fn is_shader_ready(&self, shader_key: ShaderKey) -> (registered: bool)
        ensures
            registered == self@.shaders.contains_key(shader_key),
    {
        self.shader_cache.shaders.get(&shader_key_code(shader_key)).is_some()
    }

    /// Registers the shaders of one module: issues the next handle, queues
    /// one compile task for the module, and enters each shader in the
    /// registry under its key, a vertex shader together with its vertex
    /// buffer layout. A shader that was registered under the same key
    /// before is replaced.
    ///
    /// The registration is refused, and nothing changes, where the path of
    /// the source does not end in `.wgsl` (`UnsupportedShaderFormat`), else
    /// where a vertex shader among the entry points has no row in the table
    /// of layouts (`UnknownVertexLayout`), else where no handle is left
    /// (`HandleExhausted`).
    pub fn add_shader_module(
        &mut self,
        descriptor: ShaderModuleDescriptor,
        entrypoints: &[ShaderEntrypoints<'_>],
    ) -> (result: Result<ShaderModuleHandle, GfxError>)
        requires
            old(self).wf(),
        ensures
            final(self).wf(),
            final(self)@ == old(self)@.add_shader_module(descriptor, entrypoints@),
            match result {
                Ok(handle) => old(self)@.add_shader_module_result(descriptor, entrypoints@) == Ok::<
                    u32,
                    GfxError,
                >(handle@),
                Err(error) => old(self)@.add_shader_module_result(descriptor, entrypoints@) == Err::<
                    u32,
                    GfxError,
                >(error),
            },
    {
        let path = descriptor.path.clone();
        proof {
            reveal_strlit(".wgsl");
            assert(".wgsl"@ =~= wgsl_extension());
        }
        if !str_ends_with(path.as_str(), ".wgsl") {
            return Err(GfxError::UnsupportedShaderFormat);
        }
        let mut checked: usize = 0;
        while checked < entrypoints.len()
            invariant
                checked <= entrypoints.len(),
                *self == *old(self),
                self.wf(),
                path@ == descriptor.spec_path(),
                is_wgsl_path(path@),
                forall|j: int| 0 <= j < checked ==> !lacks_layout(path@, #[trigger] entrypoints@[j]),
            decreases entrypoints.len() - checked,
        {
            match &entrypoints[checked] {
                ShaderEntrypoints::VS((_, entrypoint_func)) => {
                    if find_vertex_attributes(path.as_str(), entrypoint_func).is_none() {
                        return Err(GfxError::UnknownVertexLayout);
                    }
                },
                ShaderEntrypoints::PS(_) => {},
            }
            checked = checked + 1;
        }
        if self.shader_cache.shader_module_handle_counter == u32::MAX {
            return Err(GfxError::HandleExhausted);
        }

        let handle = ShaderModuleHandle(self.shader_cache.shader_module_handle_counter);
        self.shader_cache.shader_module_handle_counter =
            self.shader_cache.shader_module_handle_counter + 1;
        self.shader_cache.submit_shader_processor_task(
            ShaderProcessorTask::CompileShader(CompileShaderTask { handle, descriptor }),
        );
        let ghost queued = self@;
        assert(entrypoints@.skip(0) =~= entrypoints@);

        let mut i: usize = 0;
        while i < entrypoints.len()
            invariant
                i <= entrypoints.len(),
                forall|j: int|
                    0 <= j < entrypoints.len() ==> !lacks_layout(path@, #[trigger] entrypoints@[j]),
                self@.register_all(handle@, path@, entrypoints@.skip(i as int))
                    == queued.register_all(handle@, path@, entrypoints@),
            decreases entrypoints.len() - i,
        {
            let ghost before = self@;
            proof {
                assert(entrypoints@.skip(i as int).drop_first() =~= entrypoints@.skip(i + 1));
            }
            match &entrypoints[i] {
                ShaderEntrypoints::VS((key, entrypoint_func)) => {
                    let attributes = find_vertex_attributes(path.as_str(), entrypoint_func).unwrap();
                    let stride = vertex_stride(&attributes);
                    let vertex_shader_details = VertexShaderDetails { stride, attributes };
                    self.shader_cache.vertex_shader_details.insert(
                        vertex_shader_code(*key),
                        vertex_shader_details,
                    );
                    self.shader_cache.shaders.insert(
                        shader_key_code(ShaderKey::VS(*key)),
                        ShaderDetails {
                            module_handle: handle,
                            entrypoint: (*entrypoint_func).to_owned(),
                        },
                    );
                },
                ShaderEntrypoints::PS((key, entrypoint_func)) => {
                    self.shader_cache.shaders.insert(
                        shader_key_code(ShaderKey::PS(*key)),
                        ShaderDetails {
                            module_handle: handle,
                            entrypoint: (*entrypoint_func).to_owned(),
                        },
                    );
                },
            }
            assert(self@ =~= before.register(handle@, path@, entrypoints@[i as int]));
            i = i + 1;
        }
        proof {
            lemma_add_shader_module_valid(old(self)@, descriptor, entrypoints@);
        }
        Ok(handle)
    }

    /// Tells whether `use_shader` may be called with the key: no shader is
    /// registered under it, or the module of the shader is in the store.
    pub fn can_use_shader(&self, shader_key: ShaderKey) -> (usable: bool)
        ensures
            usable == self@.can_use_shader(shader_key),
    {
        match self.shader_cache.shaders.get(&shader_key_code(shader_key)) {
            None => true,
            Some(shader) => self.shader_cache.shader_modules.get(
                &shader.module_handle.index(),
            ).is_some(),
        }
    }

    /// Looks a shader up for use in a pipeline: its module and entry point,
    /// or `ShaderNotFound` where no shader is registered under the key.
    ///
    /// The module of a registered shader must be in the store. To ask for a
    /// shader whose module has not been received is an error of the caller:
    /// fence the registrations, and render only the frames that `do_frame`
    /// lets through. `can_use_shader` tells whether the call is in order.
    pub fn use_shader<'a>(&'a self, shader_key: ShaderKey) -> (result: Result<
        ShaderRef<'a, M>,
        GfxError,
    >)
        requires
            self@.can_use_shader(shader_key),
        ensures
            match self@.lookup(shader_key) {
                Ok(entry) => result matches Ok(shader) && *shader.module
                    == self@.shader_modules[entry.module_handle] && shader.entrypoint@
                    == entry.entrypoint,
                Err(error) => result matches Err(e) && e == error,
            },
    {
        let shader = match self.shader_cache.shaders.get(&shader_key_code(shader_key)) {
            None => {
                return Err(GfxError::ShaderNotFound);
            },
            Some(shader) => shader,
        };
        let module = self.shader_cache.shader_modules.get(&shader.module_handle.index()).unwrap();
        Ok(ShaderRef { module, entrypoint: shader.entrypoint.as_str() })
    }

    /// The vertex buffer layout of a registered vertex shader, `None` where
    /// no vertex shader is registered under the key.
    pub fn find_vertex_buffer_layout(&self, vs: VertexShaderKey) -> (layout: Option<
        &VertexShaderDetails,
    >)
        ensures
            layout is Some <==> self@.vertex_shader_details.contains_key(vs),
            layout matches Some(details) ==> details@ == self@.vertex_shader_details[vs],
    {
        self.shader_cache.vertex_shader_details.get(&vertex_shader_code(vs))
    }

    /// The bytes from one vertex to the next in the vertex buffer of a
    /// registered vertex shader, `None` where no vertex shader is registered
    /// under the key.
    pub fn find_vertex_shader_stride(&self, vs: VertexShaderKey) -> (stride: Option<u64>)
        ensures
            stride == (if self@.vertex_shader_details.contains_key(vs) {
                Some(self@.vertex_shader_details[vs].stride)
            } else {
                None
            }),
    {
        match self.shader_cache.vertex_shader_details.get(&vertex_shader_code(vs)) {
            Some(details) => Some(details.stride),
            None => None,
        }
    }

    /// Why the compile of a module failed, `None` where the cache has
    /// received no failure for the handle.
    pub fn compile_failure(&self, handle: ShaderModuleHandle) -> (error: Option<GfxError>)
        ensures
            error == (if self@.compile_errors.contains_key(handle@) {
                Some(self@.compile_errors[handle@])
            } else {
                None
            }),
    {
        match self.shader_cache.compile_errors.get(&handle.index()) {
            Some(error) => Some(*error),
            None => None,
        }
    }

    /// Tells whether the module of the handle is in the module store.
    pub fn is_module_stored(&self, handle: ShaderModuleHandle) -> (stored: bool)
        ensures
            stored == self@.is_stored(handle@),
    {
        self.shader_cache.shader_modules.get(&handle.index()).is_some()
    }

    /// Registers the built-in shaders, the pass-through pair and the glTF
    /// pair, and queues a fence behind them. Where a registration is
    /// refused, which happens only for want of a handle, the result is its
    /// error, no fence is queued, and what was registered before it stays
    /// registered.
    pub fn init_shader_cache(&mut self) -> (result: Result<(), GfxError>)
        requires
            old(self).wf(),
        ensures
            final(self).wf(),
            result is Ok <==> old(self)@.shader_module_handle_counter < u32::MAX - 1,
            result matches Err(error) ==> error == GfxError::HandleExhausted,
            exists|passthrough: ShaderModuleDescriptor, gltf: ShaderModuleDescriptor|
                {
                    &&& passthrough.spec_path() == "data/shaders/passthrough.wgsl"@
                    &&& passthrough.spec_constants().len() == 0
                    &&& gltf.spec_path() == "data/shaders/gltf.wgsl"@
                    &&& gltf.spec_constants().len() == 0
                    &&& final(self)@ == builtin_shaders_added(
                        old(self)@,
                        passthrough,
                        gltf,
                        result is Ok,
                    )
                },
    {
        let passthrough = ShaderModuleDescriptor {
            path: "data/shaders/passthrough.wgsl".to_owned(),
            constants: Vec::new(),
        };
        let passthrough_shaders = [
            ShaderEntrypoints::VS((VertexShaderKey::PassthroughVS, "vs_passthrough")),
            ShaderEntrypoints::PS((PixelShaderKey::PassthroughPS, "ps_passthrough")),
        ];
        let gltf = ShaderModuleDescriptor {
            path: "data/shaders/gltf.wgsl".to_owned(),
            constants: Vec::new(),
        };
        let gltf_shaders = [
            ShaderEntrypoints::VS((VertexShaderKey::GltfVS, "vs")),
            ShaderEntrypoints::PS((PixelShaderKey::GltfPS, "ps")),
        ];
        proof {
            lemma_builtin_registrations(old(self)@, passthrough, gltf);
        }
        match self.add_shader_module(passthrough, passthrough_shaders.as_slice()) {
            Err(error) => {
                return Err(error);
            },
            Ok(_) => {
                proof {
                    lemma_add_shader_module_frame(
                        old(self)@,
                        passthrough,
                        passthrough_entrypoints(),
                    );
                }
            },
        }
        match self.add_shader_module(gltf, gltf_shaders.as_slice()) {
            Err(error) => {
                return Err(error);
            },
            Ok(_) => {},
        }
        self.shader_cache.wait_for_shader_processing();
        Ok(())
    }
}

/// The state after the built-in modules with the given descriptors are
/// registered, and, if `fenced`, a fence is queued behind them.
pub open spec fn builtin_shaders_added<M>(
    s: ShaderCacheModel<M>,
    passthrough: ShaderModuleDescriptor,
    gltf: ShaderModuleDescriptor,
    fenced: bool,
) -> ShaderCacheModel<M> {
    let added = s.add_shader_module(passthrough, passthrough_entrypoints()).add_shader_module(
        gltf,
        gltf_entrypoints(),
    );
    if fenced {
        added.wait_for_shader_processing()
    } else {
        added
    }
}

/// The shaders of the built-in pass-through module.
pub open spec fn passthrough_entrypoints() -> Seq<ShaderEntrypoints<'static>> {
    seq![
        ShaderEntrypoints::VS((VertexShaderKey::PassthroughVS, "vs_passthrough")),
        ShaderEntrypoints::PS((PixelShaderKey::PassthroughPS, "ps_passthrough")),
    ]
}

/// The shaders of the built-in glTF module.
pub open spec fn gltf_entrypoints() -> Seq<ShaderEntrypoints<'static>> {
    seq![
        ShaderEntrypoints::VS((VertexShaderKey::GltfVS, "vs")),
        ShaderEntrypoints::PS((PixelShaderKey::GltfPS, "ps")),
    ]
}

/// `HandleExhausted` where no handle is left, no error else.
spec fn out_of_handles<M>(s: ShaderCacheModel<M>) -> Option<GfxError> {
    if s.shader_module_handle_counter == u32::MAX {
        Some(GfxError::HandleExhausted)
    } else {
        None
    }
}

/// The built-in modules are refused only for want of a handle.
proof fn lemma_builtin_registrations<M>(
    s: ShaderCacheModel<M>,
    passthrough: ShaderModuleDescriptor,
    gltf: ShaderModuleDescriptor,
)
    requires
        passthrough.spec_path() == "data/shaders/passthrough.wgsl"@,
        gltf.spec_path() == "data/shaders/gltf.wgsl"@,
    ensures
        s.registration_error(passthrough.spec_path(), passthrough_entrypoints())
            == out_of_handles(s),
        forall|t: ShaderCacheModel<M>|
            #![trigger t.registration_error(gltf.spec_path(), gltf_entrypoints())]
            t.registration_error(gltf.spec_path(), gltf_entrypoints()) == out_of_handles(t),
{
    reveal_strlit("data/shaders/passthrough.wgsl");
    reveal_strlit("data/shaders/gltf.wgsl");
    reveal_strlit("vs_passthrough");
    reveal_strlit("vs");
    let p = "data/shaders/passthrough.wgsl"@;
    let g = "data/shaders/gltf.wgsl"@;
    assert(p.subrange(p.len() - 5, p.len() as int) =~= wgsl_extension());
    assert(g.subrange(g.len() - 5, g.len() as int) =~= wgsl_extension());
}

} // verus!
