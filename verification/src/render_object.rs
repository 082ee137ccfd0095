use vstd::prelude::*;
use crate::ids::{ObjectId, ResourceId};
use crate::transform::Transform;

verus! {

/// One renderable object: which mesh and pipeline it draws with (by id), its
/// placement, whether it is visible, and its unique id. Per-object GPU
/// bindings (a future home for per-object model matrices) are the
/// application shell's concern.
#[derive(Debug, Clone, Copy, PartialEq, Eq, Structural)]
pub struct RenderObject<V, Q> {
    pub mesh_id: ResourceId,
    pub pipeline_id: ResourceId,
    pub transform: Transform<V, Q>,
    pub visible: bool,
    pub id: ObjectId,
}

impl<V: Copy, Q: Copy> RenderObject<V, Q> {
    /// A visible object over the given mesh and pipeline, with the given
    /// fresh id and placement.
    pub fn new(
        mesh_id: ResourceId,
        pipeline_id: ResourceId,
        id: ObjectId,
        transform: Transform<V, Q>,
    ) -> (o: RenderObject<V, Q>)
        ensures
            o == (RenderObject { mesh_id, pipeline_id, transform, visible: true, id }),
    {
        RenderObject { mesh_id, pipeline_id, transform, visible: true, id }
    }

    /// The same object with the placement replaced.
    pub fn with_transform(self, transform: Transform<V, Q>) -> (o: RenderObject<V, Q>)
        ensures
            o == (RenderObject { transform, ..self }),
    {
        RenderObject { transform, ..self }
    }

    /// Set the visibility flag.
    pub fn set_visible(&mut self, visible: bool)
        ensures
            *final(self) == (RenderObject { visible, ..*old(self) }),
    {
        self.visible = visible;
    }
}

} // verus!
