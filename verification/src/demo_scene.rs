use vstd::prelude::*;
use vstd::pervasive::unreached;
use vstd::string::StringSliceAdditionalSpecFns;
use std::sync::Arc;
use crate::gpu::{color_vertex_layout, GpuBackend};
use crate::ids::{indexed_id_of, stable_hash_of, ObjectId, ObjectIdAllocator, ResourceId};
use crate::input::{camera_motion, axis_of, CameraMotion, InputSnapshot};
use crate::manager::ResourceManager;
use crate::mesh::{Mesh, MeshVertexData};
use crate::primitives::{ObjectType, Quad, Triangle};
use crate::render_object::RenderObject;
use crate::renderer::{drawable, lemma_plan_draws_all, plan_draws};
use crate::transform::Transform;

verus! {

/// The demonstration scene: a flat list of render objects and the shared
/// resources every object draws with (one shader, one pipeline, one camera
/// uniform buffer and its bind group). The camera itself is floating-point
/// state owned by the shell; the scene holds the camera uniform's current
/// bytes and keeps the GPU buffer in step with them.
///
/// The scene is a one-way state machine: uninitialized until `initialize`
/// runs, initialized from then on. Objects can only be added once
/// initialized, and every object's mesh and pipeline are present in the
/// resource manager's tables.
pub struct DemoScene<D: GpuBackend, V, Q> {
    render_objects: Vec<RenderObject<V, Q>>,
    camera_uniform: Vec<u8>,
    camera_buffer: Option<Arc<D::Buffer>>,
    camera_bind_group: Option<Arc<D::BindGroup>>,
    initialized: bool,
    resource_manager: Option<ResourceManager<D>>,
    pipeline_id: ResourceId,
    object_ids: ObjectIdAllocator,
    shader_source: String,
    quad_vertices: MeshVertexData,
    triangle_vertices: MeshVertexData,
    unit_rotation: Q,
    unit_scale: V,
}

impl<D: GpuBackend, V: Copy, Q: Copy> DemoScene<D, V, Q> {
    /// The scene's render objects, in insertion order.
    pub closed spec fn objects(&self) -> Seq<RenderObject<V, Q>> {
        self.render_objects@
    }

    /// Whether `initialize` has run.
    pub closed spec fn is_initialized(&self) -> bool {
        self.initialized
    }

    /// The id the next added object will get.
    pub closed spec fn next_object_id(&self) -> u32 {
        self.object_ids.next
    }

    /// The id of the shared pipeline every object draws with.
    pub closed spec fn spec_pipeline_id(&self) -> ResourceId {
        self.pipeline_id
    }

    /// The resource manager, once the scene owns one.
    pub closed spec fn spec_manager(&self) -> Option<ResourceManager<D>> {
        self.resource_manager
    }

    /// The camera uniform's current bytes.
    pub closed spec fn spec_camera_uniform(&self) -> Seq<u8> {
        self.camera_uniform@
    }

    /// The camera uniform buffer, once created.
    pub closed spec fn spec_camera_buffer(&self) -> Option<Arc<D::Buffer>> {
        self.camera_buffer
    }

    /// The camera bind group, once created.
    pub closed spec fn spec_camera_bind_group(&self) -> Option<Arc<D::BindGroup>> {
        self.camera_bind_group
    }

    /// The rotation given to newly added objects.
    pub closed spec fn spec_unit_rotation(&self) -> Q {
        self.unit_rotation
    }

    /// The scale given to newly added objects.
    pub closed spec fn spec_unit_scale(&self) -> V {
        self.unit_scale
    }

    /// How many vertices the quad vertex data holds.
    pub closed spec fn spec_quad_vertex_count(&self) -> u32 {
        self.quad_vertices.vertex_count
    }

    /// How many vertices the triangle vertex data holds.
    pub closed spec fn spec_triangle_vertex_count(&self) -> u32 {
        self.triangle_vertices.vertex_count
    }

    /// The scene's invariant. Object ids are pairwise distinct and below the
    /// id counter; before initialization the scene is empty; once
    /// initialized, the scene owns a resource manager whose tables hold the
    /// shared pipeline, the camera buffer and bind group exist, and every
    /// object's pipeline is the shared one and its mesh is registered.
    pub closed spec fn wf(&self) -> bool {
        &&& self.object_ids.next >= 1
        &&& forall|a: int, b: int|
            0 <= a < b < self.render_objects@.len() ==> (#[trigger] self.render_objects@[a]).id.0
                != (#[trigger] self.render_objects@[b]).id.0
        &&& forall|a: int|
            0 <= a < self.render_objects@.len() ==> (#[trigger] self.render_objects@[a]).id.0
                < self.object_ids.next
        &&& (!self.initialized ==> self.render_objects@.len() == 0)
        &&& (self.initialized ==> {
            &&& self.resource_manager is Some
            &&& self.camera_buffer is Some
            &&& self.camera_bind_group is Some
            &&& self.resource_manager.unwrap().pipelines_map().contains_key(self.pipeline_id.0)
            &&& forall|a: int|
                0 <= a < self.render_objects@.len() ==> {
                    let o = #[trigger] self.render_objects@[a];
                    &&& o.pipeline_id == self.pipeline_id
                    &&& self.resource_manager.unwrap().meshes_map().contains_key(o.mesh_id.0)
                }
        })
    }

    /// A fresh, uninitialized, empty scene. The shell supplies the shader
    /// source, the raw vertex data of the two primitive kinds, the initial
    /// camera uniform bytes, and the rotation and scale new objects start
    /// with.
    pub fn new(
        shader_source: String,
        quad_vertices: MeshVertexData,
        triangle_vertices: MeshVertexData,
        camera_uniform: Vec<u8>,
        unit_rotation: Q,
        unit_scale: V,
    ) -> (s: DemoScene<D, V, Q>)
        ensures
            s.wf(),
            !s.is_initialized(),
            s.objects() == Seq::<RenderObject<V, Q>>::empty(),
            s.next_object_id() == 1,
            s.spec_pipeline_id().0 == stable_hash_of("basic_pipeline".spec_bytes()),
            s.spec_camera_uniform() == camera_uniform@,
            s.spec_unit_rotation() == unit_rotation,
            s.spec_unit_scale() == unit_scale,
            s.spec_quad_vertex_count() == quad_vertices.vertex_count,
            s.spec_triangle_vertex_count() == triangle_vertices.vertex_count,
    {
        let s = DemoScene {
            render_objects: Vec::new(),
            camera_uniform,
            camera_buffer: None,
            camera_bind_group: None,
            initialized: false,
            resource_manager: None,
            pipeline_id: ResourceId::new("basic_pipeline"),
            object_ids: ObjectIdAllocator::new(),
            shader_source,
            quad_vertices,
            triangle_vertices,
            unit_rotation,
            unit_scale,
        };
        proof {
            assert(s.objects() =~= Seq::<RenderObject<V, Q>>::empty());
        }
        s
    }

    /// On the first call: take ownership of the resource manager, create the
    /// shared shader ("basic_shader"), the pipeline ("basic_pipeline") over
    /// it, the camera uniform buffer ("camera_buffer") initialized with the
    /// current uniform bytes, and the camera bind group
    /// ("camera_bind_group"); then the scene is initialized. Any later call
    /// is a no-op that drops the manager it was handed.
    pub fn initialize(&mut self, resource_manager: ResourceManager<D>)
        requires
            old(self).wf(),
        ensures
            final(self).wf(),
            old(self).is_initialized() ==> *final(self) == *old(self),
            !old(self).is_initialized() ==> {
                &&& final(self).is_initialized()
                &&& final(self).spec_camera_buffer() is Some
                &&& final(self).spec_camera_bind_group() is Some
                &&& final(self).objects() == old(self).objects()
                &&& final(self).next_object_id() == old(self).next_object_id()
                &&& final(self).spec_camera_uniform() == old(self).spec_camera_uniform()
                &&& final(self).spec_pipeline_id() == old(self).spec_pipeline_id()
                &&& final(self).spec_manager() matches Some(m) && {
                    &&& m.shaders_map().contains_key(stable_hash_of("basic_shader".spec_bytes()))
                    &&& m.pipelines_map().contains_key(old(self).spec_pipeline_id().0)
                    &&& m.buffers_map().contains_key(stable_hash_of("camera_buffer".spec_bytes()))
                    &&& m.bind_groups_map().contains_key(stable_hash_of(
                        "camera_bind_group".spec_bytes(),
                    ))
                }
            },
    {
        if self.initialized {
            return;
        }
        let mut manager = resource_manager;

        let shader_id = ResourceId::new("basic_shader");
        manager.create_shader(shader_id, self.shader_source.as_str(), Some("Basic Shader")).unwrap();

        let bind_group_layout = manager.device_mut().create_uniform_bind_group_layout(Some(
            "Camera Uniform Bind Group Layout",
        ));

        let vertex_layout = color_vertex_layout();
        let surface_format = *manager.get_surface_format();
        manager.create_pipeline(
            self.pipeline_id,
            shader_id,
            &vertex_layout,
            &surface_format,
            &bind_group_layout,
        ).unwrap();

        let camera_buffer_id = ResourceId::new("camera_buffer");
        let camera_buffer = manager.create_uniform_buffer(
            camera_buffer_id,
            self.camera_uniform.as_slice(),
        ).unwrap();

        let bind_group_id = ResourceId::new("camera_bind_group");
        let camera_bind_group = manager.create_bind_group(
            bind_group_id,
            &bind_group_layout,
            &*camera_buffer,
        ).unwrap();

        self.camera_buffer = Some(camera_buffer);
        self.camera_bind_group = Some(camera_bind_group);
        self.resource_manager = Some(manager);
        self.initialized = true;
    }

    /// The current render objects, including invisible ones: visibility
    /// filtering, if desired, is the renderer's concern.
    pub fn get_render_objects(&self) -> (r: &Vec<RenderObject<V, Q>>)
        ensures
            r@ == self.objects(),
    {
        &self.render_objects
    }

    /// The camera bind group, once the scene is initialized.
    pub fn get_camera_bind_group(&self) -> (r: Option<&Arc<D::BindGroup>>)
        ensures
            match r {
                Some(g) => self.spec_camera_bind_group() == Some(*g),
                None => self.spec_camera_bind_group() is None,
            },
    {
        self.camera_bind_group.as_ref()
    }

    /// The camera uniform buffer, once the scene is initialized.
    pub fn get_camera_buffer(&self) -> (r: Option<&Arc<D::Buffer>>)
        ensures
            match r {
                Some(b) => self.spec_camera_buffer() == Some(*b),
                None => self.spec_camera_buffer() is None,
            },
    {
        self.camera_buffer.as_ref()
    }

    /// The camera uniform's current bytes.
    pub fn get_camera_uniform(&self) -> (r: &Vec<u8>)
        ensures
            r@ == self.spec_camera_uniform(),
    {
        &self.camera_uniform
    }

    /// The resource manager. The caller must have initialized the scene
    /// first; calling this earlier is the caller's logic error.
    pub fn get_resource_manager(&self) -> (r: &ResourceManager<D>)
        requires
            self.wf(),
            self.is_initialized(),
        ensures
            self.spec_manager() == Some(*r),
    {
        match &self.resource_manager {
            Some(m) => m,
            None => unreached(),
        }
    }

    /// Add a primitive object at a position: register a fresh mesh for it
    /// under an indexed name ("quad_mesh_" or "triangle_mesh_" followed by
    /// the object count), and append a visible render object over that mesh
    /// and the shared pipeline, with a fresh id, at the given position with
    /// the scene's unit rotation and scale.
    pub fn add_object(&mut self, object_type: ObjectType, position: V) -> (r: ObjectId)
        requires
            old(self).wf(),
            old(self).is_initialized(),
            old(self).next_object_id() < u32::MAX,
        ensures
            final(self).wf(),
            final(self).is_initialized(),
            r.0 == old(self).next_object_id(),
            final(self).next_object_id() == old(self).next_object_id() + 1,
            final(self).spec_camera_uniform() == old(self).spec_camera_uniform(),
            final(self).spec_pipeline_id() == old(self).spec_pipeline_id(),
            final(self).objects().drop_last() == old(self).objects(),
            final(self).objects().len() == old(self).objects().len() + 1,
            ({
                let o = final(self).objects().last();
                &&& o.id == r
                &&& o.visible
                &&& o.pipeline_id == old(self).spec_pipeline_id()
                &&& o.transform == (Transform {
                    position,
                    rotation: old(self).spec_unit_rotation(),
                    scale: old(self).spec_unit_scale(),
                })
                &&& o.mesh_id.0 == indexed_id_of(
                    match object_type {
                        ObjectType::Quad => "quad_mesh_".spec_bytes(),
                        ObjectType::Triangle => "triangle_mesh_".spec_bytes(),
                    },
                    old(self).objects().len() as u64,
                )
                &&& final(self).spec_manager().unwrap().meshes_map().contains_key(o.mesh_id.0)
                &&& ({
                    let m = final(self).spec_manager().unwrap().meshes_map()[o.mesh_id.0];
                    match object_type {
                        ObjectType::Quad => m.vertex_count == old(self).spec_quad_vertex_count()
                            && m.index_count == 6,
                        ObjectType::Triangle => m.vertex_count == old(
                            self,
                        ).spec_triangle_vertex_count() && m.index_count == 0,
                    }
                })
            }),
    {
        match object_type {
            ObjectType::Quad => self.add_quad(position),
            ObjectType::Triangle => self.add_triangle(position),
        }
    }

    /// Add a quad: see `add_object`.
    fn add_quad(&mut self, position: V) -> (r: ObjectId)
        requires
            old(self).wf(),
            old(self).is_initialized(),
            old(self).next_object_id() < u32::MAX,
        ensures
            final(self).wf(),
            final(self).is_initialized(),
            r.0 == old(self).next_object_id(),
            final(self).next_object_id() == old(self).next_object_id() + 1,
            final(self).spec_camera_uniform() == old(self).spec_camera_uniform(),
            final(self).spec_pipeline_id() == old(self).spec_pipeline_id(),
            final(self).objects().drop_last() == old(self).objects(),
            final(self).objects().len() == old(self).objects().len() + 1,
            ({
                let o = final(self).objects().last();
                &&& o.id == r
                &&& o.visible
                &&& o.pipeline_id == old(self).spec_pipeline_id()
                &&& o.transform == (Transform {
                    position,
                    rotation: old(self).spec_unit_rotation(),
                    scale: old(self).spec_unit_scale(),
                })
                &&& o.mesh_id.0 == indexed_id_of(
                    "quad_mesh_".spec_bytes(),
                    old(self).objects().len() as u64,
                )
                &&& final(self).spec_manager().unwrap().meshes_map().contains_key(o.mesh_id.0)
                &&& ({
                    let m = final(self).spec_manager().unwrap().meshes_map()[o.mesh_id.0];
                    m.vertex_count == old(self).spec_quad_vertex_count() && m.index_count == 6
                })
            }),
    {
        let mesh_id = ResourceId::indexed("quad_mesh_", self.render_objects.len() as u64);
        let indices = Quad::create_indices();
        let manager = match &mut self.resource_manager {
            Some(m) => m,
            None => unreached(),
        };
        let mesh = Mesh::new(
            manager.device_mut(),
            self.quad_vertices.bytes.as_slice(),
            self.quad_vertices.vertex_count,
            indices.as_ref(),
        );
        manager.register_mesh(mesh_id, mesh);
        let id = ObjectId::generate(&mut self.object_ids);
        let transform = Transform::new(position, self.unit_rotation, self.unit_scale);
        let object = RenderObject::new(mesh_id, self.pipeline_id, id, transform);
        self.render_objects.push(object);
        proof {
            assert(self.render_objects@.drop_last() =~= old(self).render_objects@);
        }
        id
    }

    /// Add a triangle: see `add_object`.
    fn add_triangle(&mut self, position: V) -> (r: ObjectId)
        requires
            old(self).wf(),
            old(self).is_initialized(),
            old(self).next_object_id() < u32::MAX,
        ensures
            final(self).wf(),
            final(self).is_initialized(),
            r.0 == old(self).next_object_id(),
            final(self).next_object_id() == old(self).next_object_id() + 1,
            final(self).spec_camera_uniform() == old(self).spec_camera_uniform(),
            final(self).spec_pipeline_id() == old(self).spec_pipeline_id(),
            final(self).objects().drop_last() == old(self).objects(),
            final(self).objects().len() == old(self).objects().len() + 1,
            ({
                let o = final(self).objects().last();
                &&& o.id == r
                &&& o.visible
                &&& o.pipeline_id == old(self).spec_pipeline_id()
                &&& o.transform == (Transform {
                    position,
                    rotation: old(self).spec_unit_rotation(),
                    scale: old(self).spec_unit_scale(),
                })
                &&& o.mesh_id.0 == indexed_id_of(
                    "triangle_mesh_".spec_bytes(),
                    old(self).objects().len() as u64,
                )
                &&& final(self).spec_manager().unwrap().meshes_map().contains_key(o.mesh_id.0)
                &&& ({
                    let m = final(self).spec_manager().unwrap().meshes_map()[o.mesh_id.0];
                    m.vertex_count == old(self).spec_triangle_vertex_count() && m.index_count == 0
                })
            }),
    {
        let mesh_id = ResourceId::indexed("triangle_mesh_", self.render_objects.len() as u64);
        let indices = Triangle::create_indices();
        let manager = match &mut self.resource_manager {
            Some(m) => m,
            None => unreached(),
        };
        let mesh = Mesh::new(
            manager.device_mut(),
            self.triangle_vertices.bytes.as_slice(),
            self.triangle_vertices.vertex_count,
            indices.as_ref(),
        );
        manager.register_mesh(mesh_id, mesh);
        let id = ObjectId::generate(&mut self.object_ids);
        let transform = Transform::new(position, self.unit_rotation, self.unit_scale);
        let object = RenderObject::new(mesh_id, self.pipeline_id, id, transform);
        self.render_objects.push(object);
        proof {
            assert(self.render_objects@.drop_last() =~= old(self).render_objects@);
        }
        id
    }

    /// In a well-formed scene, at most one object carries a given id: any
    /// index whose object has the id of the object at `i` is `i` itself.
    proof fn lemma_found_index_unique(
        &self,
        pre: DemoScene<D, V, Q>,
        i: int,
        object_id: ObjectId,
    )
        requires
            pre.wf(),
            0 <= i < pre.objects().len(),
            pre.objects()[i].id == object_id,
        ensures
            forall|k: int|
                0 <= k < pre.objects().len() && (#[trigger] pre.objects()[k]).id == object_id
                    ==> k == i,
    {
        assert forall|k: int|
            0 <= k < pre.objects().len() && (#[trigger] pre.objects()[k]).id == object_id
                implies k == i by {
            if k < i {
                assert(pre.render_objects@[k].id.0 != pre.render_objects@[i].id.0);
            } else if k > i {
                assert(pre.render_objects@[i].id.0 != pre.render_objects@[k].id.0);
            }
        }
    }

    /// Move the object with the given id to a new position, keeping its
    /// rotation and scale. Returns whether such an object was found; an
    /// absent id is an expected outcome and changes nothing.
    pub fn move_object(&mut self, object_id: ObjectId, position: V) -> (r: bool)
        requires
            old(self).wf(),
        ensures
            final(self).wf(),
            r == (exists|k: int|
                0 <= k < old(self).objects().len() && (#[trigger] old(self).objects()[k]).id
                    == object_id),
            forall|k: int|
                0 <= k < old(self).objects().len() && (#[trigger] old(self).objects()[k]).id
                    == object_id ==> final(self).objects() == old(self).objects().update(
                    k,
                    (RenderObject {
                        transform: (Transform { position, ..old(self).objects()[k].transform }),
                        ..old(self).objects()[k]
                    }),
                ),
            !r ==> *final(self) == *old(self),
            final(self).is_initialized() == old(self).is_initialized(),
            final(self).next_object_id() == old(self).next_object_id(),
            final(self).spec_manager() == old(self).spec_manager(),
            final(self).spec_camera_uniform() == old(self).spec_camera_uniform(),
    {
        let mut i: usize = 0;
        while i < self.render_objects.len()
            invariant
                old(self).wf(),
                i <= self.render_objects@.len(),
                *self == *old(self),
                forall|k: int|
                    0 <= k < i ==> (#[trigger] self.render_objects@[k]).id != object_id,
            decreases self.render_objects@.len() - i,
        {
            if self.render_objects[i].id == object_id {
                proof {
                    assert(old(self).objects()[i as int].id == object_id);
                }
                let slot = &mut self.render_objects[i];
                slot.transform.position = position;
                proof {
                    self.lemma_found_index_unique(*old(self), i as int, object_id);
                    assert(self.render_objects@ =~= old(self).render_objects@.update(
                        i as int,
                        (RenderObject {
                            transform: (Transform {
                                position,
                                ..old(self).objects()[i as int].transform
                            }),
                            ..old(self).objects()[i as int]
                        }),
                    ));
                    assert(forall|a: int|
                        0 <= a < self.render_objects@.len() ==> {
                            let n = #[trigger] self.render_objects@[a];
                            let o = old(self).render_objects@[a];
                            n.id == o.id && n.mesh_id == o.mesh_id && n.pipeline_id == o.pipeline_id
                        });
                }
                return true;
            }
            i = i + 1;
        }
        false
    }

    /// Set the visibility flag of the object with the given id. Returns
    /// whether such an object was found; an absent id changes nothing.
    pub fn set_object_visible(&mut self, object_id: ObjectId, visible: bool) -> (r: bool)
        requires
            old(self).wf(),
        ensures
            final(self).wf(),
            r == (exists|k: int|
                0 <= k < old(self).objects().len() && (#[trigger] old(self).objects()[k]).id
                    == object_id),
            forall|k: int|
                0 <= k < old(self).objects().len() && (#[trigger] old(self).objects()[k]).id
                    == object_id ==> final(self).objects() == old(self).objects().update(
                    k,
                    (RenderObject { visible, ..old(self).objects()[k] }),
                ),
            !r ==> *final(self) == *old(self),
            final(self).is_initialized() == old(self).is_initialized(),
            final(self).next_object_id() == old(self).next_object_id(),
            final(self).spec_manager() == old(self).spec_manager(),
            final(self).spec_camera_uniform() == old(self).spec_camera_uniform(),
    {
        let mut i: usize = 0;
        while i < self.render_objects.len()
            invariant
                old(self).wf(),
                i <= self.render_objects@.len(),
                *self == *old(self),
                forall|k: int|
                    0 <= k < i ==> (#[trigger] self.render_objects@[k]).id != object_id,
            decreases self.render_objects@.len() - i,
        {
            if self.render_objects[i].id == object_id {
                proof {
                    assert(old(self).objects()[i as int].id == object_id);
                }
                let slot = &mut self.render_objects[i];
                slot.visible = visible;
                proof {
                    self.lemma_found_index_unique(*old(self), i as int, object_id);
                    assert(self.render_objects@ =~= old(self).render_objects@.update(
                        i as int,
                        (RenderObject { visible, ..old(self).objects()[i as int] }),
                    ));
                    assert(forall|a: int|
                        0 <= a < self.render_objects@.len() ==> {
                            let n = #[trigger] self.render_objects@[a];
                            let o = old(self).render_objects@[a];
                            n.id == o.id && n.mesh_id == o.mesh_id && n.pipeline_id == o.pipeline_id
                        });
                }
                return true;
            }
            i = i + 1;
        }
        false
    }

    /// Remove the object with the given id from the scene. Returns whether
    /// such an object was found; removing an id that was never added returns
    /// false and leaves the object list untouched.
    pub fn remove_object(&mut self, object_id: ObjectId) -> (r: bool)
        requires
            old(self).wf(),
        ensures
            final(self).wf(),
            r == (exists|k: int|
                0 <= k < old(self).objects().len() && (#[trigger] old(self).objects()[k]).id
                    == object_id),
            forall|k: int|
                0 <= k < old(self).objects().len() && (#[trigger] old(self).objects()[k]).id
                    == object_id ==> final(self).objects() == old(self).objects().remove(k),
            !r ==> *final(self) == *old(self),
            final(self).is_initialized() == old(self).is_initialized(),
            final(self).next_object_id() == old(self).next_object_id(),
            final(self).spec_manager() == old(self).spec_manager(),
            final(self).spec_camera_uniform() == old(self).spec_camera_uniform(),
    {
        let mut i: usize = 0;
        while i < self.render_objects.len()
            invariant
                old(self).wf(),
                i <= self.render_objects@.len(),
                *self == *old(self),
                forall|k: int|
                    0 <= k < i ==> (#[trigger] self.render_objects@[k]).id != object_id,
            decreases self.render_objects@.len() - i,
        {
            if self.render_objects[i].id == object_id {
                proof {
                    assert(old(self).objects()[i as int].id == object_id);
                }
                self.render_objects.remove(i);
                proof {
                    self.lemma_found_index_unique(*old(self), i as int, object_id);
                    assert(forall|a: int|
                        0 <= a < self.render_objects@.len() ==> #[trigger] self.render_objects@[a]
                            == (if a < i as int {
                            old(self).render_objects@[a]
                        } else {
                            old(self).render_objects@[a + 1]
                        }));
                }
                return true;
            }
            i = i + 1;
        }
        false
    }

    /// Record the camera uniform's new bytes and, when the camera buffer
    /// exists, push them to it. This is the per-frame synchronization point
    /// between the camera and GPU-visible state; it must run after `update`
    /// and before the frame's render plan is built.
    pub fn update_camera_uniform(&mut self, data: &[u8])
        requires
            old(self).wf(),
        ensures
            final(self).wf(),
            final(self).spec_camera_uniform() == data@,
            final(self).objects() == old(self).objects(),
            final(self).is_initialized() == old(self).is_initialized(),
            final(self).next_object_id() == old(self).next_object_id(),
            final(self).spec_camera_buffer() == old(self).spec_camera_buffer(),
            final(self).spec_camera_bind_group() == old(self).spec_camera_bind_group(),
    {
        self.camera_uniform = vstd::slice::slice_to_vec(data);
        match (&self.camera_buffer, &mut self.resource_manager) {
            (Some(buffer), Some(manager)) => {
                manager.update_uniform_buffer(&**buffer, data);
            },
            _ => {},
        }
    }

    /// Law: in a well-formed, initialized scene every object's pipeline and
    /// mesh are present in the resource manager, so a frame's render plan
    /// skips nothing: it holds exactly one draw per object, in scene order.
    pub proof fn lemma_all_objects_drawn(&self)
        requires
            self.wf(),
            self.is_initialized(),
        ensures
            plan_draws(&self.spec_manager().unwrap(), self.objects()).len()
                == self.objects().len(),
    {
        let m = self.spec_manager().unwrap();
        assert forall|k: int|
            0 <= k < self.objects().len() implies drawable(
            &m,
            #[trigger] self.objects()[k],
        ) by {}
        lemma_plan_draws_all(&m, self.objects());
    }

    /// Decide this frame's camera motion from the input: W/S drive the
    /// forward axis, D/A the right axis, E/Q the up axis, the arrow keys yaw
    /// and pitch. The scene itself does not change; the shell scales the
    /// motion by the configured speeds and the frame time and applies it to
    /// the camera.
    pub fn update(&mut self, input: &InputSnapshot) -> (m: CameraMotion)
        ensures
            *final(self) == *old(self),
            m.forward == axis_of(input.key_w, input.key_s),
            m.right == axis_of(input.key_d, input.key_a),
            m.up == axis_of(input.key_e, input.key_q),
            m.yaw == axis_of(input.arrow_left, input.arrow_right),
            m.pitch == axis_of(input.arrow_up, input.arrow_down),
    {
        camera_motion(input)
    }
}

} // verus!
