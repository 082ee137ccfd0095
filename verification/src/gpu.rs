use vstd::prelude::*;

verus! {

/// Intended use of a GPU buffer: which bind points it may serve and whether
/// later writes into it are allowed.
#[derive(Debug, Clone, Copy, PartialEq, Eq, Structural)]
pub struct BufferUsage {
    pub vertex: bool,
    pub index: bool,
    pub uniform: bool,
    pub copy_dst: bool,
}

impl BufferUsage {
    /// Usage of an immutable vertex buffer.
    pub fn vertex() -> (u: BufferUsage)
        ensures
            u == (BufferUsage { vertex: true, index: false, uniform: false, copy_dst: false }),
    {
        BufferUsage { vertex: true, index: false, uniform: false, copy_dst: false }
    }

    /// Usage of an immutable index buffer.
    pub fn index() -> (u: BufferUsage)
        ensures
            u == (BufferUsage { vertex: false, index: true, uniform: false, copy_dst: false }),
    {
        BufferUsage { vertex: false, index: true, uniform: false, copy_dst: false }
    }

    /// Usage of a uniform buffer that is rewritten every frame.
    pub fn uniform() -> (u: BufferUsage)
        ensures
            u == (BufferUsage { vertex: false, index: false, uniform: true, copy_dst: true }),
    {
        BufferUsage { vertex: false, index: false, uniform: true, copy_dst: true }
    }
}

/// Format of one vertex attribute, as the shader reads it.
#[derive(Debug, Clone, Copy, PartialEq, Eq, Structural)]
pub enum VertexFormat {
    Float32x2,
    Float32x3,
    Float32x4,
}

/// One attribute of a vertex: where it starts inside the vertex, which shader
/// location reads it, and its format.
#[derive(Debug, Clone, Copy, PartialEq, Eq, Structural)]
pub struct VertexAttribute {
    pub offset: u64,
    pub shader_location: u32,
    pub format: VertexFormat,
}

/// Per-vertex memory layout of a vertex buffer. The layout must match the
/// shader's vertex inputs exactly; nothing checks that bit-level contract.
#[derive(Debug, Clone)]
pub struct VertexBufferLayout {
    pub array_stride: u64,
    pub attributes: Vec<VertexAttribute>,
}

/// Layout of the colored vertex used by every primitive mesh: a position of
/// three 32-bit floats at offset 0 and a color of three 32-bit floats at
/// offset 12, 24 bytes per vertex.
pub fn color_vertex_layout() -> (l: VertexBufferLayout)
    ensures
        l.array_stride == 24,
        l.attributes@ == seq![
            (VertexAttribute { offset: 0, shader_location: 0, format: VertexFormat::Float32x3 }),
            (VertexAttribute { offset: 12, shader_location: 1, format: VertexFormat::Float32x3 }),
        ],
{
    let mut attributes: Vec<VertexAttribute> = Vec::new();
    attributes.push(VertexAttribute { offset: 0, shader_location: 0, format: VertexFormat::Float32x3 });
    attributes.push(VertexAttribute { offset: 12, shader_location: 1, format: VertexFormat::Float32x3 });
    proof {
        assert(attributes@ =~= seq![
            (VertexAttribute { offset: 0, shader_location: 0, format: VertexFormat::Float32x3 }),
            (VertexAttribute { offset: 12, shader_location: 1, format: VertexFormat::Float32x3 }),
        ]);
    }
    VertexBufferLayout { array_stride: 24, attributes }
}

/// The graphics device capability the core consumes: creation of buffers,
/// shaders, pipelines and bind groups, and writes into existing buffers.
/// Implementations live outside the verified core (the real one wraps the
/// graphics library's device and queue; tests use a stub). The core promises
/// nothing about the returned handles and only stores and hands them back.
pub trait GpuBackend {
    type Buffer;

    type Shader;
    type Pipeline;
    type BindGroup;
    type BindGroupLayout;
    type TextureFormat: Copy;

    /// A new buffer holding `contents`, for the given usage.
    fn create_buffer_init(&mut self, contents: &[u8], usage: BufferUsage, label: Option<&str>) -> Self::Buffer;

    /// A shader module compiled from source text.
    fn create_shader_module(&mut self, source: &str, label: Option<&str>) -> Self::Shader;

    /// The layout of a bind group holding one uniform buffer at binding 0,
    /// visible to the vertex stage.
    fn create_uniform_bind_group_layout(&mut self, label: Option<&str>) -> Self::BindGroupLayout;

    /// A render pipeline over the given shader, vertex layout, color target
    /// format and bind group layout, with alpha blending, back-face culling,
    /// counter-clockwise front faces, a single sample and no depth buffer.
    fn create_render_pipeline(
        &mut self,
        shader: &Self::Shader,
        vertex_layout: &VertexBufferLayout,
        target_format: &Self::TextureFormat,
        bind_group_layout: &Self::BindGroupLayout,
        label: Option<&str>,
    ) -> Self::Pipeline;

    /// A bind group binding the given uniform buffer at binding 0.
    fn create_bind_group(
        &mut self,
        layout: &Self::BindGroupLayout,
        buffer: &Self::Buffer,
        label: Option<&str>,
    ) -> Self::BindGroup;

    /// Overwrite the buffer's contents from offset 0 with `data`.
    fn write_buffer(&mut self, buffer: &Self::Buffer, data: &[u8]);
}

} // verus!
