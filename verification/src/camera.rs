//! The camera as a frustum basis, and its layout as a GPU uniform.
//!
//! The scalar type `S` is left open: the host picks its floating-point type,
//! and nothing here looks inside a scalar.

use vstd::prelude::*;

verus! {

/// A camera given by its position, the two edge vectors of the view plane and
/// the plane's lower left corner.
#[derive(Clone, Copy, Debug)]
pub struct Camera<S> {
    pub origin: [S; 3],
    pub horizontal: [S; 3],
    pub vertical: [S; 3],
    pub lower_left_corner: [S; 3],
}

/// The camera as the kernels read it: each vector padded to four components.
#[derive(Clone, Copy, Debug)]
pub struct CameraUniform<S> {
    pub origin: [S; 4],
    pub horizontal: [S; 4],
    pub vertical: [S; 4],
    pub lower_left_corner: [S; 4],
}

/// `wide` is `narrow` followed by one padding component.
pub open spec fn pads<S>(wide: [S; 4], narrow: [S; 3]) -> bool {
    wide[0] == narrow[0] && wide[1] == narrow[1] && wide[2] == narrow[2]
}

impl<S> CameraUniform<S> {
    /// Each vector of the uniform starts with the camera's vector.
    pub open spec fn holds(self, camera: Camera<S>) -> bool {
        &&& pads(self.origin, camera.origin)
        &&& pads(self.horizontal, camera.horizontal)
        &&& pads(self.vertical, camera.vertical)
        &&& pads(self.lower_left_corner, camera.lower_left_corner)
    }

    /// The padding component of each vector is a default value of `S`.
    pub open spec fn default_padded(self) -> bool where S: Default {
        &&& call_ensures(S::default, (), self.origin[3])
        &&& call_ensures(S::default, (), self.horizontal[3])
        &&& call_ensures(S::default, (), self.vertical[3])
        &&& call_ensures(S::default, (), self.lower_left_corner[3])
    }
}

impl<S: Copy> CameraUniform<S> {
    /// The camera that the uniform was made from: the first three components
    /// of each vector.
    pub fn camera(&self) -> (camera: Camera<S>)
        ensures
            self.holds(camera),
    {
        Camera {
            origin: [self.origin[0], self.origin[1], self.origin[2]],
            horizontal: [self.horizontal[0], self.horizontal[1], self.horizontal[2]],
            vertical: [self.vertical[0], self.vertical[1], self.vertical[2]],
            lower_left_corner: [
                self.lower_left_corner[0],
                self.lower_left_corner[1],
                self.lower_left_corner[2],
            ],
        }
    }
}

impl<S: Copy + Default> Camera<S> {
    /// Lays the camera out as a uniform. The camera is not changed.
    pub fn get_uniform(&self) -> (uniform: CameraUniform<S>)
        ensures
            uniform.holds(*self),
            uniform.default_padded(),
    {
        CameraUniform {
            origin: [self.origin[0], self.origin[1], self.origin[2], S::default()],
            horizontal: [self.horizontal[0], self.horizontal[1], self.horizontal[2], S::default()],
            vertical: [self.vertical[0], self.vertical[1], self.vertical[2], S::default()],
            lower_left_corner: [
                self.lower_left_corner[0],
                self.lower_left_corner[1],
                self.lower_left_corner[2],
                S::default(),
            ],
        }
    }
}

/// Round trip: a uniform holds exactly one camera. So the camera read back
/// from `camera.get_uniform()` is `camera` itself, component for component.
pub proof fn lemma_uniform_round_trip<S>(
    uniform: CameraUniform<S>,
    made_from: Camera<S>,
    read_back: Camera<S>,
)
    requires
        uniform.holds(made_from),
        uniform.holds(read_back),
    ensures
        read_back == made_from,
{
    assert(read_back.origin =~= made_from.origin);
    assert(read_back.horizontal =~= made_from.horizontal);
    assert(read_back.vertical =~= made_from.vertical);
    assert(read_back.lower_left_corner =~= made_from.lower_left_corner);
}

} // verus!
