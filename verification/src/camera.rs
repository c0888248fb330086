//! The camera that carries a box-fit projection.

use vstd::prelude::*;
use crate::error::BoxFitError;
use crate::projection::{fitted, unfitted, BoxFitProjection, ProjectionView};
use crate::ratio::{Frac, Ratio};

verus! {

/// A position in world space.
#[derive(Clone, Copy, Debug)]
pub struct Position {
    pub x: Ratio,
    pub y: Ratio,
    pub z: Ratio,
}

/// The model of a [`Position`].
pub struct PositionView {
    pub x: Frac,
    pub y: Frac,
    pub z: Frac,
}

impl View for Position {
    type V = PositionView;

    open spec fn view(&self) -> PositionView {
        PositionView { x: self.x@, y: self.y@, z: self.z@ }
    }
}

impl Position {
    /// The position `(x, y, z)`.
    pub fn from_xyz(x: Ratio, y: Ratio, z: Ratio) -> (t: Position)
        ensures
            t@ == (PositionView { x: x@, y: y@, z: z@ }),
    {
        Position { x, y, z }
    }

    /// The origin of world space.
    pub fn origin() -> (t: Position)
        ensures
            t@ == (PositionView {
                x: Frac::of_int(0),
                y: Frac::of_int(0),
                z: Frac::of_int(0),
            }),
    {
        Position { x: Ratio::from_int(0), y: Ratio::from_int(0), z: Ratio::from_int(0) }
    }
}

/// The components of the camera entity.
#[derive(Clone, Copy, Debug)]
pub struct BoxFitCameraBundle {
    pub projection: BoxFitProjection,
    pub transform: Position,
}

/// The model of a camera: its projection and where it stands.
pub struct CameraView {
    pub projection: ProjectionView,
    pub transform: PositionView,
}

impl View for BoxFitCameraBundle {
    type V = CameraView;

    open spec fn view(&self) -> CameraView {
        CameraView { projection: self.projection@, transform: self.transform@ }
    }
}

/// How far a new camera stands in front of the far plane: one tenth.
pub open spec fn camera_depth(far: Frac) -> Frac {
    Frac { num: far.num * 10 - far.den, den: far.den * 10 }
}

impl BoxFitCameraBundle {
    /// The components of a camera whose virtual pixels are sized so that
    /// `width` x `height` of them fit in the window. The camera looks down
    /// the z axis from just in front of the far plane.
    pub fn from_resolution(width: i32, height: i32) -> (r: Result<BoxFitCameraBundle, BoxFitError>)
        ensures
            r is Err <==> width <= 0 || height <= 0,
            r matches Err(e) ==> e == BoxFitError::InvalidResolution,
            r matches Ok(c) ==> {
                &&& c@.projection == fitted(
                    unfitted(width as int, height as int),
                    width as int,
                    height as int,
                )
                &&& c@.transform == (PositionView {
                    x: Frac::of_int(0),
                    y: Frac::of_int(0),
                    z: camera_depth(c@.projection.far),
                })
            },
    {
        match BoxFitProjection::from_resolution(width, height) {
            Err(e) => Err(e),
            Ok(projection) => {
                let far: i64 = projection.far().num();
                let depth: Ratio = Ratio::from_parts(far * 10 - 1, 10);
                Ok(
                    BoxFitCameraBundle {
                        projection,
                        transform: Position::from_xyz(
                            Ratio::from_int(0),
                            Ratio::from_int(0),
                            depth,
                        ),
                    },
                )
            },
        }
    }
}

/// A camera together with what changed on it since the borders were last
/// brought up to date.
#[derive(Clone, Copy, Debug)]
pub struct TrackedCamera {
    pub camera: BoxFitCameraBundle,
    pub projection_changed: bool,
    pub transform_changed: bool,
}

impl TrackedCamera {
    /// The projection or the transform changed.
    pub open spec fn spec_changed(&self) -> bool {
        self.projection_changed || self.transform_changed
    }

    /// The projection or the transform changed.
    #[verifier::when_used_as_spec(spec_changed)]
    pub fn changed(&self) -> (r: bool)
        ensures
            r == self.spec_changed(),
    {
        self.projection_changed || self.transform_changed
    }
}

/// The index of the first camera at or after `start` that changed.
pub open spec fn first_changed_from(cameras: Seq<TrackedCamera>, start: int) -> Option<int>
    decreases cameras.len() - start,
{
    if start < 0 || start >= cameras.len() {
        None
    } else if cameras[start].changed() {
        Some(start)
    } else {
        first_changed_from(cameras, start + 1)
    }
}

/// The index of the first camera that changed.
pub open spec fn first_changed(cameras: Seq<TrackedCamera>) -> Option<int> {
    first_changed_from(cameras, 0)
}

/// Finds the first camera whose projection or transform changed.
pub fn changed_camera(cameras: &Vec<TrackedCamera>) -> (r: Option<usize>)
    ensures
        r matches Some(i) ==> first_changed(cameras@) == Some(i as int),
        r is None ==> first_changed(cameras@) is None,
        r matches Some(i) ==> i < cameras.len() && cameras[i as int].changed() && forall|j: int|
            0 <= j < i ==> !(#[trigger] cameras[j]).changed(),
        r is None ==> forall|j: int| 0 <= j < cameras.len() ==> !(#[trigger] cameras[j]).changed(),
{
    let mut i: usize = 0;
    while i < cameras.len()
        invariant
            i <= cameras.len(),
            first_changed(cameras@) == first_changed_from(cameras@, i as int),
            forall|j: int| 0 <= j < i ==> !(#[trigger] cameras[j]).changed(),
        decreases cameras.len() - i,
    {
        if cameras[i].changed() {
            return Some(i);
        }
        i += 1;
    }
    None
}

} // verus!
