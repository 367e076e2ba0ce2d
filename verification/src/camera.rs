//! The camera: a center, a spotted point and an orthonormal viewing basis.

use vstd::prelude::*;

use crate::fx::Fx;
use crate::point::Point;
use crate::vector::{v3_cross, v3_dot, v3_normalize, v3_sub, Vector};

verus! {

/// A camera with its derived viewing basis: `forward` looks from the center
/// toward the spotted point, `right` is the cross product of `up` and
/// `forward`, and `alpha` is the horizontal field-of-view angle in radians.
pub struct Camera {
    pub center: Point,
    pub spotted_point: Point,
    pub up: Vector,
    pub right: Vector,
    pub forward: Vector,
    pub alpha: Fx,
}

impl Camera {
    /// Derives the viewing basis. Construction is rejected (`None`) exactly
    /// when the normalized up vector is not perpendicular to the normalized
    /// look direction — in particular when either normalizes to zero.
    pub fn new(center: Point, spotted_point: Point, up: Vector, alpha: Fx) -> (r: Option<Camera>)
        ensures
            ({
                let nup = v3_normalize(up@);
                let fwd = v3_normalize(v3_sub(spotted_point@, center@));
                match r {
                    Option::Some(cam) => {
                        &&& v3_dot(nup, fwd) == 0
                        &&& cam.center == center
                        &&& cam.spotted_point == spotted_point
                        &&& cam.alpha == alpha
                        &&& cam.up@ == nup
                        &&& cam.forward@ == fwd
                        &&& cam.right@ == v3_cross(nup, fwd)
                    },
                    Option::None => v3_dot(nup, fwd) != 0,
                }
            }),
    {
        let up = up.normalize();
        let forward = spotted_point.sub_v(&center).normalize();
        let right = up.cross_product(&forward);
        let perpendicular = up.dot(&forward);
        if perpendicular.raw != 0 {
            return Option::None;
        }
        Option::Some(Camera { center, spotted_point, alpha, up, forward, right })
    }
}

} // verus!
