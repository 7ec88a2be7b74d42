//! Vertex input layouts of the built-in shaders.
//!
//! A vertex shader reads its inputs from one vertex buffer, in which the
//! inputs of a vertex lie one behind the other without gaps. The table in
//! this file names, for each known pair of shader path and entry point, the
//! formats of those inputs in the order of their shader locations.

use vstd::prelude::*;
use crate::gfx::text::str_equal;

verus! {

/// Format of one vertex input, as the shaders of this client use them.
#[derive(Copy, Clone, Debug, PartialEq, Eq, Hash, Structural)]
pub enum VertexFormat {
    /// Two single-precision floats.
    Float32x2,
    /// Three single-precision floats.
    Float32x3,
    /// Four single-precision floats.
    Float32x4,
    /// Four unsigned 32-bit integers.
    Uint32x4,
}

impl VertexFormat {
    /// Number of bytes that one value of the format occupies in a vertex buffer.
    pub open spec fn spec_size(self) -> u64 {
        match self {
            VertexFormat::Float32x2 => 8,
            VertexFormat::Float32x3 => 12,
            VertexFormat::Float32x4 => 16,
            VertexFormat::Uint32x4 => 16,
        }
    }

    /// Number of bytes that one value of the format occupies in a vertex buffer.
    pub fn size(self) -> (bytes: u64)
        ensures
            bytes == self.spec_size(),
    {
        format_size(self)
    }
}

/// Calls `wgpu::VertexFormat::size` on the format of the same name. The
/// contract repeats what that function returns for the four formats that
/// this library knows: 8 bytes for two floats, 12 for three, 16 for four
/// floats and for four 32-bit integers.
#[verifier::external_body]
fn format_size(format: VertexFormat) -> (bytes: u64)
    ensures
        bytes == format.spec_size(),
{
    let outside = match format {
        VertexFormat::Float32x2 => wgpu::VertexFormat::Float32x2,
        VertexFormat::Float32x3 => wgpu::VertexFormat::Float32x3,
        VertexFormat::Float32x4 => wgpu::VertexFormat::Float32x4,
        VertexFormat::Uint32x4 => wgpu::VertexFormat::Uint32x4,
    };
    outside.size()
}

/// One input of a vertex shader.
#[derive(Copy, Clone, Debug, PartialEq, Eq, Hash, Structural)]
pub struct VertexAttribute {
    /// Format of the input.
    pub format: VertexFormat,
    /// Byte offset of the input from the start of its vertex.
    pub offset: u64,
    /// Location of the input in the shader.
    pub shader_location: u32,
}

/// Most inputs that a table row may hold.
pub const MAX_VERTEX_ATTRIBUTES: usize = 32;

/// Bytes that a run of inputs of these formats takes.
pub open spec fn packed_size(formats: Seq<VertexFormat>) -> nat
    decreases formats.len(),
{
    if formats.len() == 0 {
        0
    } else {
        packed_size(formats.drop_last()) + formats.last().spec_size() as nat
    }
}

/// The inputs of the given formats laid out without gaps: input `i` has shader
/// location `i` and starts where input `i - 1` ends.
pub open spec fn packed_attributes(formats: Seq<VertexFormat>) -> Seq<VertexAttribute> {
    Seq::new(
        formats.len(),
        |i: int|
            VertexAttribute {
                format: formats[i],
                offset: packed_size(formats.take(i)) as u64,
                shader_location: i as u32,
            },
    )
}

/// Bytes from one vertex to the next: the sizes of all inputs together.
pub open spec fn spec_stride(attributes: Seq<VertexAttribute>) -> nat
    decreases attributes.len(),
{
    if attributes.len() == 0 {
        0
    } else {
        spec_stride(attributes.drop_last()) + attributes.last().format.spec_size() as nat
    }
}

/// Formats of the inputs of the pass-through vertex shader: position, colour.
pub open spec fn passthrough_formats() -> Seq<VertexFormat> {
    seq![VertexFormat::Float32x3, VertexFormat::Float32x4]
}

/// Formats of the inputs of the glTF vertex shader: position, normal, tangent,
/// two texture coordinates, colour, joints, weights.
pub open spec fn gltf_formats() -> Seq<VertexFormat> {
    seq![
        VertexFormat::Float32x3,
        VertexFormat::Float32x3,
        VertexFormat::Float32x4,
        VertexFormat::Float32x2,
        VertexFormat::Float32x2,
        VertexFormat::Float32x4,
        VertexFormat::Uint32x4,
        VertexFormat::Float32x4,
    ]
}

/// The table of vertex layouts: the input formats of the vertex shader with
/// the given source path and entry point, where the pair is known.
pub open spec fn spec_vertex_formats(shader_path: Seq<char>, vs_entrypoint: Seq<char>) -> Option<
    Seq<VertexFormat>,
> {
    if shader_path == "data/shaders/passthrough.wgsl"@ && vs_entrypoint == "vs_passthrough"@ {
        Some(passthrough_formats())
    } else if shader_path == "data/shaders/gltf.wgsl"@ && vs_entrypoint == "vs"@ {
        Some(gltf_formats())
    } else {
        None
    }
}

/// The vertex inputs of the vertex shader with the given source path and entry
/// point, where the table knows the pair.
pub open spec fn spec_find_vertex_attributes(
    shader_path: Seq<char>,
    vs_entrypoint: Seq<char>,
) -> Option<Seq<VertexAttribute>> {
    match spec_vertex_formats(shader_path, vs_entrypoint) {
        Some(formats) => Some(packed_attributes(formats)),
        None => None,
    }
}

/// A run of inputs takes at most 16 bytes for each of them.
pub proof fn lemma_packed_size_bound(formats: Seq<VertexFormat>)
    ensures
        packed_size(formats) <= 16 * formats.len(),
    decreases formats.len(),
{
    if formats.len() > 0 {
        lemma_packed_size_bound(formats.drop_last());
    }
}

/// A layout takes at most 16 bytes for each of its inputs.
pub proof fn lemma_stride_bound(attributes: Seq<VertexAttribute>)
    ensures
        spec_stride(attributes) <= 16 * attributes.len(),
    decreases attributes.len(),
{
    if attributes.len() > 0 {
        lemma_stride_bound(attributes.drop_last());
    }
}

/// The stride of a layout without gaps is the size of its formats together.
pub proof fn lemma_packed_stride(formats: Seq<VertexFormat>)
    ensures
        spec_stride(packed_attributes(formats)) == packed_size(formats),
    decreases formats.len(),
{
    if formats.len() > 0 {
        let shorter = formats.drop_last();
        lemma_packed_stride(shorter);
        assert forall|i: int| 0 <= i < shorter.len() implies #[trigger] shorter.take(i)
            == formats.take(i) by {}
        assert(packed_attributes(formats).drop_last() =~= packed_attributes(shorter));
    }
}

/// In a layout without gaps every input starts where its predecessor ends,
/// the first at 0, and all of them lie within the stride.
pub proof fn lemma_packed_attributes_adjacent(formats: Seq<VertexFormat>, i: int)
    requires
        0 <= i < formats.len(),
        formats.len() <= u32::MAX,
    ensures
        i == 0 ==> packed_attributes(formats)[i].offset == 0,
        i > 0 ==> packed_attributes(formats)[i].offset == packed_attributes(formats)[i - 1].offset
            + formats[i - 1].spec_size(),
        packed_attributes(formats)[i].offset + formats[i].spec_size() <= packed_size(formats),
{
    assert(formats.take(i + 1).drop_last() =~= formats.take(i));
    lemma_packed_size_take(formats, i + 1);
    if i > 0 {
        lemma_packed_size_bound(formats.take(i - 1));
        assert(formats.take(i).drop_last() =~= formats.take(i - 1));
    }
}

/// The first `n` inputs of a run take no more bytes than the whole run.
pub proof fn lemma_packed_size_take(formats: Seq<VertexFormat>, n: int)
    requires
        0 <= n <= formats.len(),
    ensures
        packed_size(formats.take(n)) <= packed_size(formats),
    decreases formats.len(),
{
    if n == formats.len() {
        assert(formats.take(n) =~= formats);
    } else {
        assert(formats.drop_last().take(n) =~= formats.take(n));
        lemma_packed_size_take(formats.drop_last(), n);
    }
}

/// A vertex of the pass-through shader takes 28 bytes, one of the glTF
/// shader 104.
pub proof fn lemma_builtin_strides()
    ensures
        packed_size(passthrough_formats()) == 28,
        packed_size(gltf_formats()) == 104,
        spec_stride(packed_attributes(passthrough_formats())) == 28,
        spec_stride(packed_attributes(gltf_formats())) == 104,
{
    reveal_with_fuel(packed_size, 3);
    let p = passthrough_formats();
    assert(packed_size(p.drop_last()) == 12);
    assert(packed_size(p) == 28);
    let g = gltf_formats();
    let g7 = g.drop_last();
    let g6 = g7.drop_last();
    let g5 = g6.drop_last();
    let g4 = g5.drop_last();
    let g3 = g4.drop_last();
    let g2 = g3.drop_last();
    let g1 = g2.drop_last();
    assert(packed_size(g1) == 12);
    assert(packed_size(g2) == 24);
    assert(packed_size(g3) == 40);
    assert(packed_size(g4) == 48);
    assert(packed_size(g5) == 56);
    assert(packed_size(g6) == 72);
    assert(packed_size(g7) == 88);
    assert(packed_size(g) == 104);
    lemma_packed_stride(p);
    lemma_packed_stride(g);
}

/// Lays the inputs of the given formats out without gaps, the first at
/// offset 0 and shader location 0. Shader locations are 32-bit numbers, so
/// there can be no more inputs than those.
pub fn vertex_attr_array(formats: &Vec<VertexFormat>) -> (attributes: Vec<VertexAttribute>)
    requires
        formats.len() <= u32::MAX,
    ensures
        attributes@ == packed_attributes(formats@),
{
    let mut attributes: Vec<VertexAttribute> = Vec::new();
    let mut offset: u64 = 0;
    let mut i: usize = 0;
    while i < formats.len()
        invariant
            i <= formats.len(),
            formats.len() <= u32::MAX,
            offset == packed_size(formats@.take(i as int)),
            offset <= 16 * i,
            attributes@ == packed_attributes(formats@).take(i as int),
        decreases formats.len() - i,
    {
        let format = formats[i];
        attributes.push(VertexAttribute { format, offset, shader_location: i as u32 });
        proof {
            assert(formats@.take(i + 1).drop_last() =~= formats@.take(i as int));
        }
        offset = offset + format.size();
        i = i + 1;
    }
    attributes
}

/// Bytes from one vertex to the next in a buffer of the given inputs: the
/// sizes of their formats together, whatever their offsets. The inputs must
/// be few enough for that number to fit, at 16 bytes each.
pub fn vertex_stride(attributes: &Vec<VertexAttribute>) -> (stride: u64)
    requires
        16 * attributes.len() <= u64::MAX,
    ensures
        stride == spec_stride(attributes@),
{
    let mut stride: u64 = 0;
    let mut i: usize = 0;
    while i < attributes.len()
        invariant
            i <= attributes.len(),
            16 * attributes.len() <= u64::MAX,
            stride == spec_stride(attributes@.take(i as int)),
            stride <= 16 * i,
        decreases attributes.len() - i,
    {
        proof {
            assert(attributes@.take(i + 1).drop_last() =~= attributes@.take(i as int));
        }
        stride = stride + attributes[i].format.size();
        i = i + 1;
    }
    assert(attributes@.take(i as int) =~= attributes@);
    stride
}

/// Looks the vertex inputs of a vertex shader up in the table of built-in
/// layouts. `None` when the table has no row for the path and entry point.
pub fn find_vertex_attributes(shader_path: &str, vs_entrypoint: &str) -> (found: Option<
    Vec<VertexAttribute>,
>)
    ensures
        found is Some <==> spec_find_vertex_attributes(shader_path@, vs_entrypoint@) is Some,
        found matches Some(attributes) ==> {
            &&& attributes@ == spec_find_vertex_attributes(shader_path@, vs_entrypoint@)->0
            &&& attributes.len() <= MAX_VERTEX_ATTRIBUTES
        },
{
    if str_equal(shader_path, "data/shaders/passthrough.wgsl") && str_equal(
        vs_entrypoint,
        "vs_passthrough",
    ) {
        let formats = vec![VertexFormat::Float32x3, VertexFormat::Float32x4];
        Some(vertex_attr_array(&formats))
    } else if str_equal(shader_path, "data/shaders/gltf.wgsl") && str_equal(vs_entrypoint, "vs") {
        let formats = vec![
            VertexFormat::Float32x3,
            VertexFormat::Float32x3,
            VertexFormat::Float32x4,
            VertexFormat::Float32x2,
            VertexFormat::Float32x2,
            VertexFormat::Float32x4,
            VertexFormat::Uint32x4,
            VertexFormat::Float32x4,
        ];
        Some(vertex_attr_array(&formats))
    } else {
        None
    }
}

} // verus!
