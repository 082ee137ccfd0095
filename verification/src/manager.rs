use vstd::prelude::*;
use vstd::string::StringSliceAdditionalSpecFns;
use std::collections::HashMap;
use std::sync::Arc;
use crate::error::{EngineError, EngineResult};
use crate::gpu::{BufferUsage, GpuBackend, VertexBufferLayout};
use crate::ids::ResourceId;
use crate::mesh::Mesh;
use crate::shared::clone_arc;

verus! {

/// Single source of truth for all named GPU resources. Each table maps a
/// resource id to a handle; creation under an id that is already present
/// silently overwrites, and lookups are total, returning `None` on absence.
/// Pipelines may only be created over a shader that is already in the shader
/// table; that lookup miss is the one recoverable creation error.
pub struct ResourceManager<D: GpuBackend> {
    device: D,
    surface_format: D::TextureFormat,
    buffers: HashMap<u64, Arc<D::Buffer>>,
    pipelines: HashMap<u64, Arc<D::Pipeline>>,
    shaders: HashMap<u64, Arc<D::Shader>>,
    meshes: HashMap<u64, Mesh<D::Buffer>>,
    bind_groups: HashMap<u64, Arc<D::BindGroup>>,
}

impl<D: GpuBackend> ResourceManager<D> {
    /// The buffer table, as a map from id values to handles.
    pub closed spec fn buffers_map(&self) -> Map<u64, Arc<D::Buffer>> {
        self.buffers@
    }

    /// The pipeline table, as a map from id values to handles.
    pub closed spec fn pipelines_map(&self) -> Map<u64, Arc<D::Pipeline>> {
        self.pipelines@
    }

    /// The shader table, as a map from id values to handles.
    pub closed spec fn shaders_map(&self) -> Map<u64, Arc<D::Shader>> {
        self.shaders@
    }

    /// The mesh table, as a map from id values to meshes.
    pub closed spec fn meshes_map(&self) -> Map<u64, Mesh<D::Buffer>> {
        self.meshes@
    }

    /// The bind group table, as a map from id values to handles.
    pub closed spec fn bind_groups_map(&self) -> Map<u64, Arc<D::BindGroup>> {
        self.bind_groups@
    }

    /// The format of the surface this manager creates pipelines for.
    pub closed spec fn spec_surface_format(&self) -> D::TextureFormat {
        self.surface_format
    }

    /// A fresh manager over the given device, with every table empty.
    pub fn new(device: D, surface_format: D::TextureFormat) -> (m: ResourceManager<D>)
        ensures
            m.buffers_map() == Map::<u64, Arc<D::Buffer>>::empty(),
            m.pipelines_map() == Map::<u64, Arc<D::Pipeline>>::empty(),
            m.shaders_map() == Map::<u64, Arc<D::Shader>>::empty(),
            m.meshes_map() == Map::<u64, Mesh<D::Buffer>>::empty(),
            m.bind_groups_map() == Map::<u64, Arc<D::BindGroup>>::empty(),
            m.spec_surface_format() == surface_format,
    {
        ResourceManager {
            device,
            surface_format,
            buffers: HashMap::new(),
            pipelines: HashMap::new(),
            shaders: HashMap::new(),
            meshes: HashMap::new(),
            bind_groups: HashMap::new(),
        }
    }

    /// Allocate a buffer pre-populated with `data` and store it under `id`.
    /// Always succeeds; the new handle is returned and also indexed.
    pub fn create_buffer_with_data(
        &mut self,
        id: ResourceId,
        data: &[u8],
        usage: BufferUsage,
        label: Option<&str>,
    ) -> (r: EngineResult<Arc<D::Buffer>>)
        ensures
            r is Ok,
            r matches Ok(b) ==> final(self).buffers_map() == old(self).buffers_map().insert(
                id.0,
                b,
            ),
            final(self).pipelines_map() == old(self).pipelines_map(),
            final(self).shaders_map() == old(self).shaders_map(),
            final(self).meshes_map() == old(self).meshes_map(),
            final(self).bind_groups_map() == old(self).bind_groups_map(),
            final(self).spec_surface_format() == old(self).spec_surface_format(),
    {
        let buffer = self.device.create_buffer_init(data, usage, label);
        let handle = Arc::new(buffer);
        self.buffers.insert(id.0, clone_arc(&handle));
        Ok(handle)
    }

    /// Allocate a uniform buffer initialized with one plain value's bytes and
    /// store it under `id`. Always succeeds.
    pub fn create_uniform_buffer(&mut self, id: ResourceId, data: &[u8]) -> (r: EngineResult<
        Arc<D::Buffer>,
    >)
        ensures
            r is Ok,
            r matches Ok(b) ==> final(self).buffers_map() == old(self).buffers_map().insert(
                id.0,
                b,
            ),
            final(self).pipelines_map() == old(self).pipelines_map(),
            final(self).shaders_map() == old(self).shaders_map(),
            final(self).meshes_map() == old(self).meshes_map(),
            final(self).bind_groups_map() == old(self).bind_groups_map(),
            final(self).spec_surface_format() == old(self).spec_surface_format(),
    {
        let buffer = self.device.create_buffer_init(data, BufferUsage::uniform(), Some("Uniform Buffer"));
        let handle = Arc::new(buffer);
        self.buffers.insert(id.0, clone_arc(&handle));
        Ok(handle)
    }

    /// Overwrite an existing buffer's contents from offset 0 with one plain
    /// value's bytes: a full overwrite, with no partial update and no dirty
    /// tracking. The tables are untouched.
    pub fn update_uniform_buffer(&mut self, buffer: &D::Buffer, data: &[u8])
        ensures
            final(self).buffers_map() == old(self).buffers_map(),
            final(self).pipelines_map() == old(self).pipelines_map(),
            final(self).shaders_map() == old(self).shaders_map(),
            final(self).meshes_map() == old(self).meshes_map(),
            final(self).bind_groups_map() == old(self).bind_groups_map(),
            final(self).spec_surface_format() == old(self).spec_surface_format(),
    {
        self.device.write_buffer(buffer, data);
    }

    /// Compile shader source into a module and store it under `id`. Always
    /// succeeds (a source error surfaces inside the graphics backend, not
    /// here).
    pub fn create_shader(&mut self, id: ResourceId, source: &str, label: Option<&str>) -> (r:
        EngineResult<Arc<D::Shader>>)
        ensures
            r is Ok,
            r matches Ok(s) ==> final(self).shaders_map() == old(self).shaders_map().insert(
                id.0,
                s,
            ),
            final(self).buffers_map() == old(self).buffers_map(),
            final(self).pipelines_map() == old(self).pipelines_map(),
            final(self).meshes_map() == old(self).meshes_map(),
            final(self).bind_groups_map() == old(self).bind_groups_map(),
            final(self).spec_surface_format() == old(self).spec_surface_format(),
    {
        let shader = self.device.create_shader_module(source, label);
        let handle = Arc::new(shader);
        self.shaders.insert(id.0, clone_arc(&handle));
        Ok(handle)
    }

    /// Build a render pipeline over the shader stored under `shader_id` and
    /// store it under `id`. Fails with a `ResourceNotFound` error, and leaves
    /// every table unchanged, exactly when no shader is stored under
    /// `shader_id`.
    pub fn create_pipeline(
        &mut self,
        id: ResourceId,
        shader_id: ResourceId,
        vertex_layout: &VertexBufferLayout,
        target_format: &D::TextureFormat,
        bind_group_layout: &D::BindGroupLayout,
    ) -> (r: EngineResult<Arc<D::Pipeline>>)
        ensures
            r is Ok <==> old(self).shaders_map().contains_key(shader_id.0),
            r matches Ok(p) ==> final(self).pipelines_map() == old(self).pipelines_map().insert(
                id.0,
                p,
            ),
            r is Err ==> (r matches Err(EngineError::ResourceNotFound(_)))
                && final(self).pipelines_map() == old(self).pipelines_map(),
            final(self).buffers_map() == old(self).buffers_map(),
            final(self).shaders_map() == old(self).shaders_map(),
            final(self).meshes_map() == old(self).meshes_map(),
            final(self).bind_groups_map() == old(self).bind_groups_map(),
            final(self).spec_surface_format() == old(self).spec_surface_format(),
    {
        let shader = match self.shaders.get(&shader_id.0) {
            Some(s) => s,
            None => {
                return Err(EngineError::ResourceNotFound("shader not found".to_owned()));
            },
        };
        let pipeline = self.device.create_render_pipeline(
            shader,
            vertex_layout,
            target_format,
            bind_group_layout,
            Some("Render Pipeline"),
        );
        let handle = Arc::new(pipeline);
        self.pipelines.insert(id.0, clone_arc(&handle));
        Ok(handle)
    }

    /// Bind the given uniform buffer to the layout and store the bind group
    /// under `id`. Always succeeds.
    pub fn create_bind_group(
        &mut self,
        id: ResourceId,
        layout: &D::BindGroupLayout,
        buffer: &D::Buffer,
    ) -> (r: EngineResult<Arc<D::BindGroup>>)
        ensures
            r is Ok,
            r matches Ok(g) ==> final(self).bind_groups_map() == old(self).bind_groups_map().insert(
                id.0,
                g,
            ),
            final(self).buffers_map() == old(self).buffers_map(),
            final(self).pipelines_map() == old(self).pipelines_map(),
            final(self).shaders_map() == old(self).shaders_map(),
            final(self).meshes_map() == old(self).meshes_map(),
            final(self).spec_surface_format() == old(self).spec_surface_format(),
    {
        let bind_group = self.device.create_bind_group(layout, buffer, Some("Camera Bind Group"));
        let handle = Arc::new(bind_group);
        self.bind_groups.insert(id.0, clone_arc(&handle));
        Ok(handle)
    }

    /// Store a pre-built mesh under `id`, and index its vertex buffer (and
    /// index buffer, when the mesh has one) in the buffer table under the
    /// derived sub-ids of `id`, for uniform lookup.
    pub fn register_mesh(&mut self, id: ResourceId, mesh: Mesh<D::Buffer>)
        ensures
            final(self).meshes_map() == old(self).meshes_map().insert(id.0, mesh),
            final(self).buffers_map() == (match mesh.index_buffer {
                Some(ib) => old(self).buffers_map().insert(
                    crate::ids::sub_id_of(id.0, "_vertex".spec_bytes()),
                    mesh.vertex_buffer,
                ).insert(crate::ids::sub_id_of(id.0, "_index".spec_bytes()), ib),
                None => old(self).buffers_map().insert(
                    crate::ids::sub_id_of(id.0, "_vertex".spec_bytes()),
                    mesh.vertex_buffer,
                ),
            }),
            final(self).pipelines_map() == old(self).pipelines_map(),
            final(self).shaders_map() == old(self).shaders_map(),
            final(self).bind_groups_map() == old(self).bind_groups_map(),
            final(self).spec_surface_format() == old(self).spec_surface_format(),
    {
        let vertex_sub_id = id.sub_id("_vertex");
        self.buffers.insert(vertex_sub_id.0, clone_arc(&mesh.vertex_buffer));
        match &mesh.index_buffer {
            Some(index_buffer) => {
                let index_sub_id = id.sub_id("_index");
                self.buffers.insert(index_sub_id.0, clone_arc(index_buffer));
            },
            None => {},
        }
        self.meshes.insert(id.0, mesh);
    }

    /// Look up a buffer; absence is a normal outcome, not an error.
    pub fn get_buffer(&self, id: &ResourceId) -> (r: Option<Arc<D::Buffer>>)
        ensures
            match r {
                Some(b) => self.buffers_map().contains_key(id.0) && b == self.buffers_map()[id.0],
                None => !self.buffers_map().contains_key(id.0),
            },
    {
        match self.buffers.get(&id.0) {
            Some(b) => Some(clone_arc(b)),
            None => None,
        }
    }

    /// Look up a pipeline; absence is a normal outcome, not an error.
    pub fn get_pipeline(&self, id: &ResourceId) -> (r: Option<Arc<D::Pipeline>>)
        ensures
            match r {
                Some(p) => self.pipelines_map().contains_key(id.0) && p == self.pipelines_map()[id.0 as u64],
                None => !self.pipelines_map().contains_key(id.0),
            },
    {
        match self.pipelines.get(&id.0) {
            Some(p) => Some(clone_arc(p)),
            None => None,
        }
    }

    /// Look up a shader; absence is a normal outcome, not an error.
    pub fn get_shader(&self, id: &ResourceId) -> (r: Option<Arc<D::Shader>>)
        ensures
            match r {
                Some(s) => self.shaders_map().contains_key(id.0) && s == self.shaders_map()[id.0],
                None => !self.shaders_map().contains_key(id.0),
            },
    {
        match self.shaders.get(&id.0) {
            Some(s) => Some(clone_arc(s)),
            None => None,
        }
    }

    /// Look up a mesh; absence is a normal outcome, not an error.
    pub fn get_mesh(&self, id: &ResourceId) -> (r: Option<&Mesh<D::Buffer>>)
        ensures
            match r {
                Some(m) => self.meshes_map().contains_key(id.0) && *m == self.meshes_map()[id.0],
                None => !self.meshes_map().contains_key(id.0),
            },
    {
        self.meshes.get(&id.0)
    }

    /// Look up a bind group; absence is a normal outcome, not an error.
    pub fn get_bind_group(&self, id: &ResourceId) -> (r: Option<Arc<D::BindGroup>>)
        ensures
            match r {
                Some(g) => self.bind_groups_map().contains_key(id.0) && g == self.bind_groups_map()[id.0 as u64],
                None => !self.bind_groups_map().contains_key(id.0),
            },
    {
        match self.bind_groups.get(&id.0) {
            Some(g) => Some(clone_arc(g)),
            None => None,
        }
    }

    /// The surface format this manager was created with.
    pub fn get_surface_format(&self) -> (r: &D::TextureFormat)
        ensures
            *r == self.spec_surface_format(),
    {
        &self.surface_format
    }

    /// Mutable access to the device capability, for creating what the
    /// manager does not own (a bind group layout).
    pub fn device_mut(&mut self) -> (r: &mut D)
        ensures
            final(self).buffers_map() == old(self).buffers_map(),
            final(self).pipelines_map() == old(self).pipelines_map(),
            final(self).shaders_map() == old(self).shaders_map(),
            final(self).meshes_map() == old(self).meshes_map(),
            final(self).bind_groups_map() == old(self).bind_groups_map(),
            final(self).spec_surface_format() == old(self).spec_surface_format(),
    {
        &mut self.device
    }
}

} // verus!
