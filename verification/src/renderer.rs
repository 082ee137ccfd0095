use vstd::prelude::*;
use std::sync::Arc;
use crate::gpu::GpuBackend;
use crate::manager::ResourceManager;
use crate::render_object::RenderObject;
use crate::shared::clone_arc;

verus! {

/// One draw of a frame: the pipeline to bind, the mesh's buffers, and how
/// many vertices or indices to draw. The shell records these into a render
/// pass in order: bind the pipeline, bind the vertex buffer, then an indexed
/// draw when an index buffer is present, else a draw over the whole vertex
/// range.
pub struct DrawCall<D: GpuBackend> {
    pub pipeline: Arc<D::Pipeline>,
    pub vertex_buffer: Arc<D::Buffer>,
    pub index_buffer: Option<Arc<D::Buffer>>,
    pub vertex_count: u32,
    pub index_count: u32,
}

/// Everything one frame's render pass binds and draws: the camera bind group
/// for slot 0 (when the scene has one) and the draws, in scene order.
pub struct RenderPlan<D: GpuBackend> {
    pub camera_bind_group: Option<Arc<D::BindGroup>>,
    pub draws: Vec<DrawCall<D>>,
}

/// Whether an object can be drawn: both its pipeline and its mesh are found
/// in the manager's tables.
pub open spec fn drawable<D: GpuBackend, V, Q>(
    m: &ResourceManager<D>,
    o: RenderObject<V, Q>,
) -> bool {
    m.pipelines_map().contains_key(o.pipeline_id.0) && m.meshes_map().contains_key(o.mesh_id.0)
}

/// The draw a drawable object produces: its pipeline and its mesh's buffers
/// and counts, straight from the manager's tables.
pub open spec fn draw_for<D: GpuBackend, V, Q>(
    m: &ResourceManager<D>,
    o: RenderObject<V, Q>,
) -> DrawCall<D> {
    let mesh = m.meshes_map()[o.mesh_id.0];
    DrawCall {
        pipeline: m.pipelines_map()[o.pipeline_id.0],
        vertex_buffer: mesh.vertex_buffer,
        index_buffer: mesh.index_buffer,
        vertex_count: mesh.vertex_count,
        index_count: mesh.index_count,
    }
}

/// The draws of a frame: one per drawable object, in list order; an object
/// whose pipeline or mesh is missing is silently skipped, not an error.
/// Invisible objects are drawn too: the visibility flag is tracked but not
/// yet honored at draw time.
pub open spec fn plan_draws<D: GpuBackend, V, Q>(
    m: &ResourceManager<D>,
    objs: Seq<RenderObject<V, Q>>,
) -> Seq<DrawCall<D>>
    decreases objs.len(),
{
    if objs.len() == 0 {
        Seq::<DrawCall<D>>::empty()
    } else {
        plan_draws(m, objs.drop_last()) + (if drawable(m, objs.last()) {
            seq![draw_for(m, objs.last())]
        } else {
            Seq::<DrawCall<D>>::empty()
        })
    }
}

/// Build the frame's render plan from the scene's object list, its camera
/// bind group and the resource manager: the camera bind group is bound once,
/// and each object whose pipeline and mesh exist contributes one draw, in
/// list order.
pub fn render_scene<D: GpuBackend, V: Copy, Q: Copy>(
    objects: &Vec<RenderObject<V, Q>>,
    camera_bind_group: Option<&Arc<D::BindGroup>>,
    manager: &ResourceManager<D>,
) -> (plan: RenderPlan<D>)
    ensures
        plan.draws@ == plan_draws(manager, objects@),
        match camera_bind_group {
            Some(g) => plan.camera_bind_group == Some(*g),
            None => plan.camera_bind_group is None,
        },
{
    let bind_group = match camera_bind_group {
        Some(g) => Some(clone_arc(g)),
        None => None,
    };
    let mut draws: Vec<DrawCall<D>> = Vec::new();
    let mut i: usize = 0;
    while i < objects.len()
        invariant
            i <= objects@.len(),
            draws@ == plan_draws(manager, objects@.take(i as int)),
        decreases objects@.len() - i,
    {
        let object = &objects[i];
        match (manager.get_pipeline(&object.pipeline_id), manager.get_mesh(&object.mesh_id)) {
            (Some(pipeline), Some(mesh)) => {
                let index_buffer = match &mesh.index_buffer {
                    Some(b) => Some(clone_arc(b)),
                    None => None,
                };
                draws.push(DrawCall {
                    pipeline,
                    vertex_buffer: clone_arc(&mesh.vertex_buffer),
                    index_buffer,
                    vertex_count: mesh.vertex_count,
                    index_count: mesh.index_count,
                });
            },
            _ => {},
        }
        i = i + 1;
        proof {
            assert(objects@.take(i as int).drop_last() =~= objects@.take(i - 1));
            assert(objects@.take(i as int).last() == objects@[i - 1]);
            assert(draws@ =~= plan_draws(manager, objects@.take(i as int)));
        }
    }
    proof {
        assert(objects@.take(objects@.len() as int) =~= objects@);
    }
    RenderPlan { camera_bind_group: bind_group, draws }
}

/// Law: when every object's pipeline and mesh are present, nothing is
/// skipped: the plan holds exactly one draw per object, in order.
pub proof fn lemma_plan_draws_all<D: GpuBackend, V, Q>(
    m: &ResourceManager<D>,
    objs: Seq<RenderObject<V, Q>>,
)
    requires
        forall|k: int| 0 <= k < objs.len() ==> drawable(m, #[trigger] objs[k]),
    ensures
        plan_draws(m, objs).len() == objs.len(),
        forall|k: int|
            0 <= k < objs.len() ==> plan_draws(m, objs)[k] == draw_for(m, #[trigger] objs[k]),
    decreases objs.len(),
{
    if objs.len() > 0 {
        lemma_plan_draws_all(m, objs.drop_last());
        let sub = objs.drop_last();
        assert(plan_draws(m, objs) =~= plan_draws(m, sub) + seq![draw_for(m, objs.last())]);
        assert forall|k: int|
            0 <= k < objs.len() implies plan_draws(m, objs)[k] == draw_for(
            m,
            #[trigger] objs[k],
        ) by {
            if k < objs.len() - 1 {
                assert(sub[k] == objs[k]);
                assert(plan_draws(m, objs)[k] == plan_draws(m, sub)[k]);
            } else {
                assert(objs.last() == objs[k]);
            }
        }
    }
}

} // verus!
