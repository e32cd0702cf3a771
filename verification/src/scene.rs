//! A scene: one camera and one root hitable.

use crate::camera::Camera;
use crate::hitable::Hitable;
use vstd::prelude::*;

verus! {

/// A renderable scene: built once, then shared read-only by every sample.
#[derive(Debug)]
pub struct Scene {
    pub camera: Camera,
    pub world: Hitable,
}

impl Scene {
    /// A scene from its camera and world.
    pub fn new(camera: Camera, world: Hitable) -> (s: Scene)
        ensures
            s.camera == camera,
            s.world == world,
    {
        Scene { camera, world }
    }
}

} // verus!
