use vstd::prelude::*;
use std::collections::HashMap;
use crate::demo_scene::DemoScene;
use crate::error::{EngineError, EngineResult};
use crate::gpu::GpuBackend;
use crate::ids::SceneId;
use crate::input::{axis_of, CameraMotion, InputSnapshot};

verus! {

/// Registry of scenes by id, with at most one current scene. The engine takes
/// the current scene out at startup and drives it directly from then on.
pub struct SceneManager<S> {
    scenes: HashMap<u64, S>,
    current_scene_id: Option<SceneId>,
}

impl<S> SceneManager<S> {
    /// The registered scenes, as a map from id values.
    pub closed spec fn scenes_map(&self) -> Map<u64, S> {
        self.scenes@
    }

    /// The id of the current scene, when one is set.
    pub closed spec fn spec_current(&self) -> Option<SceneId> {
        self.current_scene_id
    }

    /// An empty registry with no current scene.
    pub fn new() -> (m: SceneManager<S>)
        ensures
            m.scenes_map() == Map::<u64, S>::empty(),
            m.spec_current() is None,
    {
        SceneManager { scenes: HashMap::new(), current_scene_id: None }
    }

    /// Register a scene under an id; a scene already under that id is
    /// replaced.
    pub fn register_scene(&mut self, id: SceneId, scene: S)
        ensures
            final(self).scenes_map() == old(self).scenes_map().insert(id.0, scene),
            final(self).spec_current() == old(self).spec_current(),
    {
        self.scenes.insert(id.0, scene);
    }

    /// Make the scene registered under `id` current. Fails with a
    /// `SceneNotFound` error, changing nothing, exactly when no scene is
    /// registered under `id`.
    pub fn set_current_scene(&mut self, id: SceneId) -> (r: EngineResult<()>)
        ensures
            r is Ok <==> old(self).scenes_map().contains_key(id.0),
            r is Ok ==> final(self).spec_current() == Some(id),
            r is Err ==> (r matches Err(EngineError::SceneNotFound(_))) && final(self).spec_current()
                == old(self).spec_current(),
            final(self).scenes_map() == old(self).scenes_map(),
    {
        if self.scenes.contains_key(&id.0) {
            self.current_scene_id = Some(id);
            Ok(())
        } else {
            Err(EngineError::SceneNotFound("scene is not registered".to_owned()))
        }
    }

    /// Take the current scene out of the registry, transferring ownership to
    /// the caller and clearing the current id. Returns `None`, changing
    /// nothing, when no current scene is set.
    pub fn take_current_scene(&mut self) -> (r: Option<S>)
        ensures
            old(self).spec_current() matches Some(id) ==> {
                &&& final(self).spec_current() is None
                &&& final(self).scenes_map() == old(self).scenes_map().remove(id.0)
                &&& r == (if old(self).scenes_map().contains_key(id.0) {
                    Some(old(self).scenes_map()[id.0])
                } else {
                    Option::<S>::None
                })
            },
            old(self).spec_current() is None ==> r is None && *final(self) == *old(self),
    {
        match self.current_scene_id {
            Some(id) => {
                self.current_scene_id = None;
                self.scenes.remove(&id.0)
            },
            None => None,
        }
    }
}

impl<D: GpuBackend, V: Copy, Q: Copy> SceneManager<DemoScene<D, V, Q>> {
    /// Drive the current scene's per-frame update: decide the camera motion
    /// for this frame's input. Returns `None`, and changes nothing, when no
    /// current scene is set; the registry and the scene itself are unchanged
    /// either way.
    pub fn update(&mut self, input: &InputSnapshot) -> (r: Option<CameraMotion>)
        ensures
            final(self).scenes_map() == old(self).scenes_map(),
            final(self).spec_current() == old(self).spec_current(),
            r is Some <==> (old(self).spec_current() matches Some(id)
                && old(self).scenes_map().contains_key(id.0)),
            r matches Some(m) ==> {
                &&& m.forward == axis_of(input.key_w, input.key_s)
                &&& m.right == axis_of(input.key_d, input.key_a)
                &&& m.up == axis_of(input.key_e, input.key_q)
                &&& m.yaw == axis_of(input.arrow_left, input.arrow_right)
                &&& m.pitch == axis_of(input.arrow_up, input.arrow_down)
            },
    {
        match self.current_scene_id {
            Some(id) => match self.scenes.remove(&id.0) {
                Some(mut scene) => {
                    let motion = scene.update(input);
                    self.scenes.insert(id.0, scene);
                    proof {
                        assert(self.scenes@ =~= old(self).scenes@);
                    }
                    Some(motion)
                },
                None => None,
            },
            None => None,
        }
    }
}

} // verus!
