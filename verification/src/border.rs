//! The opaque border around the virtual resolution.
//!
//! Four rectangles, one per side, cover what the window shows beyond the
//! virtual resolution. Each is placed by its bottom-left corner. They are
//! larger than needed and overlap at the corners, so that together they
//! surround the virtual rectangle whatever the shape of the window.

use vstd::prelude::*;
use crate::camera::{
    changed_camera,
    first_changed,
    BoxFitCameraBundle,
    CameraView,
    TrackedCamera,
    Position,
    PositionView,
};
use crate::error::BoxFitError;
use crate::projection::{fitted, lemma_fit_own_size, ProjectionView};
use crate::ratio::{Frac, Ratio};

verus! {

/// A solid color, as four 8-bit channels.
#[derive(Clone, Copy, Debug, PartialEq, Eq, Structural)]
pub struct Color {
    pub red: u8,
    pub green: u8,
    pub blue: u8,
    pub alpha: u8,
}

/// Provides an opaque border around the desired resolution.
#[derive(Clone, Copy, Debug, PartialEq, Eq, Structural)]
pub struct BoxFitBorderPlugin {
    pub color: Color,
}

/// The side of the virtual rectangle that a border lies on.
#[derive(Clone, Copy, Debug, PartialEq, Eq, Structural)]
pub enum Border {
    Left,
    Right,
    Top,
    Bottom,
}

/// One rectangle of the border: where its bottom-left corner is, and how
/// far it extends to the right and upward from there.
#[derive(Clone, Copy, Debug)]
pub struct BorderSprite {
    pub border: Border,
    pub color: Color,
    pub position: Position,
    pub width: i64,
    pub height: i64,
}

/// The model of a [`BorderSprite`].
pub struct SpriteView {
    pub border: Border,
    pub color: Color,
    pub position: PositionView,
    pub width: int,
    pub height: int,
}

impl View for BorderSprite {
    type V = SpriteView;

    open spec fn view(&self) -> SpriteView {
        SpriteView {
            border: self.border,
            color: self.color,
            position: self.position@,
            width: self.width as int,
            height: self.height as int,
        }
    }
}

/// The models of a list of sprites.
pub open spec fn views(sprites: Seq<BorderSprite>) -> Seq<SpriteView> {
    sprites.map_values(|s: BorderSprite| s@)
}

/// A border of the given side and color as it is first spawned: at the
/// origin and without extent.
pub open spec fn unplaced(border: Border, color: Color) -> SpriteView {
    SpriteView {
        border,
        color,
        position: PositionView {
            x: Frac::of_int(0),
            y: Frac::of_int(0),
            z: Frac::of_int(0),
        },
        width: 0,
        height: 0,
    }
}

/// How far the corner of the virtual rectangle lies from the camera along
/// an axis of the given virtual extent: centered, minus half the extent,
/// the halving dropping the remainder, as the projection places its own
/// lower bound; otherwise nothing.
pub open spec fn origin_shift(extent: int, centered: bool) -> int {
    if centered {
        -(extent / 2)
    } else {
        0
    }
}

/// The left edge of the virtual rectangle in world space.
pub open spec fn virtual_left(cam: CameraView) -> Frac {
    cam.transform.x.plus_int(origin_shift(cam.projection.virtual_width, cam.projection.centered))
}

/// The bottom edge of the virtual rectangle in world space.
pub open spec fn virtual_bottom(cam: CameraView) -> Frac {
    cam.transform.y.plus_int(origin_shift(cam.projection.virtual_height, cam.projection.centered))
}

/// The depth of the borders: one fifth in front of the far plane.
pub open spec fn border_depth(far: Frac) -> Frac {
    Frac { num: far.num * 5 - far.den, den: far.den * 5 }
}

/// The x coordinate of the border on `side`: one virtual width to the left
/// of the virtual rectangle, or, for the right border, its right edge.
pub open spec fn border_x(side: Border, cam: CameraView) -> Frac {
    let shift = origin_shift(cam.projection.virtual_width, cam.projection.centered);
    match side {
        Border::Right => cam.transform.x.plus_int(shift + cam.projection.virtual_width),
        _ => cam.transform.x.plus_int(shift - cam.projection.virtual_width),
    }
}

/// The y coordinate of the border on `side`: one virtual height below the
/// virtual rectangle, or, for the top border, its top edge.
pub open spec fn border_y(side: Border, cam: CameraView) -> Frac {
    let shift = origin_shift(cam.projection.virtual_height, cam.projection.centered);
    match side {
        Border::Top => cam.transform.y.plus_int(shift + cam.projection.virtual_height),
        _ => cam.transform.y.plus_int(shift - cam.projection.virtual_height),
    }
}

/// The width of the border on `side`.
pub open spec fn border_width(side: Border, cam: CameraView) -> int {
    match side {
        Border::Left | Border::Right => cam.projection.virtual_width,
        Border::Top | Border::Bottom => 3 * cam.projection.virtual_width,
    }
}

/// The height of the border on `side`.
pub open spec fn border_height(side: Border, cam: CameraView) -> int {
    match side {
        Border::Left | Border::Right => 3 * cam.projection.virtual_height,
        Border::Top | Border::Bottom => cam.projection.virtual_height,
    }
}

/// The sprite `s` after it is placed around the camera `cam`: its side and
/// color are kept, its position and size are those of its side.
pub open spec fn placed(s: SpriteView, cam: CameraView) -> SpriteView {
    SpriteView {
        border: s.border,
        color: s.color,
        position: PositionView {
            x: border_x(s.border, cam),
            y: border_y(s.border, cam),
            z: border_depth(cam.projection.far),
        },
        width: border_width(s.border, cam),
        height: border_height(s.border, cam),
    }
}

/// The virtual resolution of `cam` is positive on both axes.
pub open spec fn has_resolution(cam: CameraView) -> bool {
    cam.projection.virtual_width > 0 && cam.projection.virtual_height > 0
}

/// Every border coordinate around `cam` can be written with 64-bit
/// numerators over the denominators of the camera's position.
pub open spec fn placeable(cam: CameraView) -> bool {
    &&& border_x(Border::Left, cam).representable()
    &&& border_x(Border::Right, cam).representable()
    &&& border_y(Border::Bottom, cam).representable()
    &&& border_y(Border::Top, cam).representable()
}

/// What a pass over the borders reports: `Ok(false)` where no camera
/// changed; for the first camera that changed, a refusal where its virtual
/// resolution is not positive or where the borders around it cannot be
/// written down, and `Ok(true)` otherwise.
pub open spec fn resize_outcome(cameras: Seq<TrackedCamera>) -> Result<bool, BoxFitError> {
    match first_changed(cameras) {
        Some(i) => if !has_resolution(cameras[i].camera@) {
            Err(BoxFitError::InvalidResolution)
        } else if !placeable(cameras[i].camera@) {
            Err(BoxFitError::OutOfRange)
        } else {
            Ok(true)
        },
        None => Ok(false),
    }
}

/// What a pass over the borders leaves: where it reports `Ok(true)`, each
/// sprite placed around the first camera that changed; otherwise the sprites
/// as they were.
pub open spec fn resized(cameras: Seq<TrackedCamera>, sprites: Seq<SpriteView>) -> Seq<SpriteView> {
    match first_changed(cameras) {
        Some(i) => if resize_outcome(cameras) == Ok::<bool, BoxFitError>(true) {
            sprites.map_values(|s: SpriteView| placed(s, cameras[i].camera@))
        } else {
            sprites
        },
        None => sprites,
    }
}

/// The point `(px, py)` lies on the border of the given side around `cam`,
/// edges included.
pub open spec fn covers(side: Border, cam: CameraView, px: Frac, py: Frac) -> bool {
    &&& border_x(side, cam).le(px)
    &&& px.le(border_x(side, cam).plus_int(border_width(side, cam)))
    &&& border_y(side, cam).le(py)
    &&& py.le(border_y(side, cam).plus_int(border_height(side, cam)))
}

/// The point `(px, py)` lies inside the virtual rectangle of `cam`, off its
/// edges.
pub open spec fn inside_virtual(cam: CameraView, px: Frac, py: Frac) -> bool {
    &&& virtual_left(cam).lt(px)
    &&& px.lt(virtual_left(cam).plus_int(cam.projection.virtual_width))
    &&& virtual_bottom(cam).lt(py)
    &&& py.lt(virtual_bottom(cam).plus_int(cam.projection.virtual_height))
}

/// The point `(px, py)` lies within one virtual width and one virtual
/// height of the virtual rectangle of `cam`: as far as the borders reach.
pub open spec fn within_reach(cam: CameraView, px: Frac, py: Frac) -> bool {
    &&& virtual_left(cam).plus_int(-cam.projection.virtual_width).le(px)
    &&& px.le(virtual_left(cam).plus_int(2 * cam.projection.virtual_width))
    &&& virtual_bottom(cam).plus_int(-cam.projection.virtual_height).le(py)
    &&& py.le(virtual_bottom(cam).plus_int(2 * cam.projection.virtual_height))
}

/// The point `(px, py)` lies beside the virtual rectangle of `cam` on both
/// axes: left of it or right of it, and below it or above it, edges
/// included.
pub open spec fn in_corner(cam: CameraView, px: Frac, py: Frac) -> bool {
    &&& px.le(virtual_left(cam)) || virtual_left(cam).plus_int(cam.projection.virtual_width).le(
        px,
    )
    &&& py.le(virtual_bottom(cam)) || virtual_bottom(cam).plus_int(
        cam.projection.virtual_height,
    ).le(py)
}

/// The shift of the corner along an axis of the given positive extent.
fn shift_of(extent: i32, centered: bool) -> (r: i64)
    requires
        extent > 0,
    ensures
        r == origin_shift(extent as int, centered),
        -0x4000_0000 <= r <= 0,
{
    if centered {
        -((extent / 2) as i64)
    } else {
        0
    }
}

/// The coordinates that the four borders around one camera share.
struct Frame {
    near_x: Ratio,
    far_x: Ratio,
    low_y: Ratio,
    high_y: Ratio,
    depth: Ratio,
    width: i64,
    height: i64,
}

impl Frame {
    /// This frame holds the border coordinates around `cam`.
    spec fn frames(&self, cam: CameraView) -> bool {
        &&& self.near_x@ == border_x(Border::Left, cam)
        &&& self.far_x@ == border_x(Border::Right, cam)
        &&& self.low_y@ == border_y(Border::Bottom, cam)
        &&& self.high_y@ == border_y(Border::Top, cam)
        &&& self.depth@ == border_depth(cam.projection.far)
        &&& self.width == cam.projection.virtual_width
        &&& self.height == cam.projection.virtual_height
        &&& i32::MIN <= self.width <= i32::MAX
        &&& i32::MIN <= self.height <= i32::MAX
    }

    /// Works out the border coordinates around `camera`, where they can be
    /// written down.
    fn around(camera: &BoxFitCameraBundle) -> (r: Option<Frame>)
        requires
            has_resolution(camera@),
        ensures
            r is Some <==> placeable(camera@),
            r matches Some(f) ==> f.frames(camera@),
    {
        let width: i64 = camera.projection.virtual_width() as i64;
        let height: i64 = camera.projection.virtual_height() as i64;
        let centered: bool = camera.projection.centered();
        let shift_x: i64 = shift_of(camera.projection.virtual_width(), centered);
        let shift_y: i64 = shift_of(camera.projection.virtual_height(), centered);
        let far: i64 = camera.projection.far().num();
        proof {
            camera.projection.lemma_view_ranges();
        }
        let depth: Ratio = Ratio::from_parts(far * 5 - 1, 5);
        let near_x: Option<Ratio> = camera.transform.x.checked_add_int(shift_x - width);
        let far_x: Option<Ratio> = camera.transform.x.checked_add_int(shift_x + width);
        let low_y: Option<Ratio> = camera.transform.y.checked_add_int(shift_y - height);
        let high_y: Option<Ratio> = camera.transform.y.checked_add_int(shift_y + height);
        match (near_x, far_x, low_y, high_y) {
            (Some(near_x), Some(far_x), Some(low_y), Some(high_y)) => Some(
                Frame { near_x, far_x, low_y, high_y, depth, width, height },
            ),
            _ => None,
        }
    }

    /// The sprite with its position and size set for its side.
    fn place(&self, sprite: BorderSprite, Ghost(cam): Ghost<CameraView>) -> (r: BorderSprite)
        requires
            self.frames(cam),
        ensures
            r@ == placed(sprite@, cam),
    {
        match sprite.border {
            Border::Left => BorderSprite {
                border: sprite.border,
                color: sprite.color,
                position: Position::from_xyz(self.near_x, self.low_y, self.depth),
                width: self.width,
                height: 3 * self.height,
            },
            Border::Right => BorderSprite {
                border: sprite.border,
                color: sprite.color,
                position: Position::from_xyz(self.far_x, self.low_y, self.depth),
                width: self.width,
                height: 3 * self.height,
            },
            Border::Top => BorderSprite {
                border: sprite.border,
                color: sprite.color,
                position: Position::from_xyz(self.near_x, self.high_y, self.depth),
                width: 3 * self.width,
                height: self.height,
            },
            Border::Bottom => BorderSprite {
                border: sprite.border,
                color: sprite.color,
                position: Position::from_xyz(self.near_x, self.low_y, self.depth),
                width: 3 * self.width,
                height: self.height,
            },
        }
    }
}

/// The four borders to spawn, one per side in the order left, right, top,
/// bottom, all of the given color and not yet placed.
pub fn spawn_borders(color: Color) -> (borders: Vec<BorderSprite>)
    ensures
        views(borders@) == seq![
            unplaced(Border::Left, color),
            unplaced(Border::Right, color),
            unplaced(Border::Top, color),
            unplaced(Border::Bottom, color),
        ],
{
    let mut borders: Vec<BorderSprite> = Vec::new();
    borders.push(
        BorderSprite {
            border: Border::Left,
            color,
            position: Position::origin(),
            width: 0,
            height: 0,
        },
    );
    borders.push(
        BorderSprite {
            border: Border::Right,
            color,
            position: Position::origin(),
            width: 0,
            height: 0,
        },
    );
    borders.push(
        BorderSprite {
            border: Border::Top,
            color,
            position: Position::origin(),
            width: 0,
            height: 0,
        },
    );
    borders.push(
        BorderSprite {
            border: Border::Bottom,
            color,
            position: Position::origin(),
            width: 0,
            height: 0,
        },
    );
    assert(views(borders@) =~= seq![
        unplaced(Border::Left, color),
        unplaced(Border::Right, color),
        unplaced(Border::Top, color),
        unplaced(Border::Bottom, color),
    ]);
    borders
}

/// Brings the borders up to date with the first camera whose projection or
/// transform changed.
///
/// Where no camera changed, or none exists, nothing is done and `Ok(false)`
/// is returned. Where the virtual resolution of the changed camera is not
/// positive, or the borders around it cannot be written down, nothing is
/// done either and the error says which.
pub fn resize_borders(cameras: &Vec<TrackedCamera>, borders: &mut Vec<BorderSprite>) -> (r: Result<
    bool,
    BoxFitError,
>)
    ensures
        r == resize_outcome(cameras@),
        views(final(borders)@) == resized(cameras@, views(old(borders)@)),
        r != Ok::<bool, BoxFitError>(true) ==> final(borders)@ == old(borders)@,
        first_changed(cameras@) is None ==> final(borders)@ == old(borders)@,
{
    let found: Option<usize> = changed_camera(cameras);
    let index: usize = match found {
        Some(index) => index,
        None => {
            return Ok(false);
        },
    };
    let camera: &BoxFitCameraBundle = &cameras[index].camera;
    if camera.projection.virtual_width() <= 0 || camera.projection.virtual_height() <= 0 {
        return Err(BoxFitError::InvalidResolution);
    }
    let frame: Frame = match Frame::around(camera) {
        Some(frame) => frame,
        None => {
            return Err(BoxFitError::OutOfRange);
        },
    };
    let ghost cam: CameraView = camera@;
    let mut i: usize = 0;
    while i < borders.len()
        invariant
            i <= borders.len(),
            borders.len() == old(borders).len(),
            frame.frames(cam),
            forall|j: int| 0 <= j < i ==> (#[trigger] borders[j])@ == placed(old(borders)[j]@, cam),
            forall|j: int| i <= j < borders.len() ==> #[trigger] borders[j] == old(borders)[j],
        decreases borders.len() - i,
    {
        let sprite: BorderSprite = frame.place(borders[i], Ghost(cam));
        borders.set(i, sprite);
        i += 1;
    }
    assert(views(borders@) =~= views(old(borders)@).map_values(|s: SpriteView| placed(s, cam)));
    Ok(true)
}

/// Adding whole numbers one after the other adds their sum.
pub proof fn lemma_plus_int_twice(f: Frac, a: int, b: int)
    ensures
        f.plus_int(a).plus_int(b) == f.plus_int(a + b),
{
    assert(f.num + a * f.den + b * f.den == f.num + (a + b) * f.den) by (nonlinear_arith);
}

/// Adding a larger whole number gives a larger fraction.
pub proof fn lemma_plus_int_grows(f: Frac, a: int, b: int, p: Frac)
    requires
        f.wf(),
        p.wf(),
        a <= b,
    ensures
        f.plus_int(b).le(p) ==> f.plus_int(a).le(p),
        p.le(f.plus_int(a)) ==> p.le(f.plus_int(b)),
        f.plus_int(b).lt(p) ==> f.plus_int(a).lt(p),
        p.lt(f.plus_int(a)) ==> p.lt(f.plus_int(b)),
{
    assert((f.num + a * f.den) * p.den <= (f.num + b * f.den) * p.den) by (nonlinear_arith)
        requires
            f.den > 0,
            p.den > 0,
            a <= b,
    ;
}

/// Adding a strictly larger whole number gives a strictly larger fraction.
pub proof fn lemma_plus_int_apart(f: Frac, a: int, b: int, p: Frac)
    requires
        f.wf(),
        p.wf(),
        a < b,
    ensures
        f.plus_int(b).le(p) ==> f.plus_int(a).lt(p),
        p.le(f.plus_int(a)) ==> p.lt(f.plus_int(b)),
{
    assert((f.num + a * f.den) * p.den < (f.num + b * f.den) * p.den) by (nonlinear_arith)
        requires
            f.den > 0,
            p.den > 0,
            a < b,
    ;
}

/// The edges of the four borders, written from the corner of the virtual
/// rectangle, and the order they lie in.
proof fn lemma_edges(cam: CameraView, px: Frac, py: Frac)
    requires
        has_resolution(cam),
        cam.transform.x.wf(),
        cam.transform.y.wf(),
        px.wf(),
        py.wf(),
    ensures
        ({
            let w = cam.projection.virtual_width;
            let h = cam.projection.virtual_height;
            let left = virtual_left(cam);
            let bottom = virtual_bottom(cam);
            let beside = bottom.plus_int(-h).le(py) && py.le(bottom.plus_int(2 * h));
            let along = left.plus_int(-w).le(px) && px.le(left.plus_int(2 * w));
            &&& covers(Border::Left, cam, px, py) <==> left.plus_int(-w).le(px) && px.le(left)
                && beside
            &&& covers(Border::Right, cam, px, py) <==> left.plus_int(w).le(px) && px.le(
                left.plus_int(2 * w),
            ) && beside
            &&& covers(Border::Top, cam, px, py) <==> along && bottom.plus_int(h).le(py) && py.le(
                bottom.plus_int(2 * h),
            )
            &&& covers(Border::Bottom, cam, px, py) <==> along && bottom.plus_int(-h).le(py)
                && py.le(bottom)
            &&& left.plus_int(w).le(px) ==> left.lt(px)
            &&& left.le(px) ==> left.plus_int(-w).le(px)
            &&& px.le(left) ==> px.lt(left.plus_int(w))
            &&& px.le(left.plus_int(w)) ==> px.le(left.plus_int(2 * w))
            &&& bottom.plus_int(h).le(py) ==> bottom.lt(py)
            &&& bottom.le(py) ==> bottom.plus_int(-h).le(py)
            &&& py.le(bottom) ==> py.lt(bottom.plus_int(h))
            &&& py.le(bottom.plus_int(h)) ==> py.le(bottom.plus_int(2 * h))
        }),
{
    let w = cam.projection.virtual_width;
    let h = cam.projection.virtual_height;
    let sx = origin_shift(w, cam.projection.centered);
    let sy = origin_shift(h, cam.projection.centered);
    let tx = cam.transform.x;
    let ty = cam.transform.y;
    // Every edge is the camera's position plus a whole number.
    lemma_plus_int_twice(tx, sx, -w);
    lemma_plus_int_twice(tx, sx, w);
    lemma_plus_int_twice(tx, sx, 2 * w);
    lemma_plus_int_twice(tx, sx - w, w);
    lemma_plus_int_twice(tx, sx - w, 3 * w);
    lemma_plus_int_twice(tx, sx + w, w);
    lemma_plus_int_twice(ty, sy, -h);
    lemma_plus_int_twice(ty, sy, h);
    lemma_plus_int_twice(ty, sy, 2 * h);
    lemma_plus_int_twice(ty, sy - h, h);
    lemma_plus_int_twice(ty, sy - h, 3 * h);
    lemma_plus_int_twice(ty, sy + h, h);
    // The edges are ordered as the whole numbers are, strictly.
    lemma_plus_int_grows(tx, sx - w, sx, px);
    lemma_plus_int_grows(tx, sx, sx + w, px);
    lemma_plus_int_grows(tx, sx + w, sx + 2 * w, px);
    lemma_plus_int_grows(ty, sy - h, sy, py);
    lemma_plus_int_grows(ty, sy, sy + h, py);
    lemma_plus_int_grows(ty, sy + h, sy + 2 * h, py);
    lemma_plus_int_apart(tx, sx, sx + w, px);
    lemma_plus_int_apart(ty, sy, sy + h, py);
}

/// The borders surround the virtual rectangle and leave it free.
///
/// Around a camera with a positive virtual resolution, the points that lie
/// on some border are exactly those within one virtual width and height of
/// the virtual rectangle that are not inside it.
pub proof fn lemma_borders_tile(cam: CameraView, px: Frac, py: Frac)
    requires
        has_resolution(cam),
        cam.transform.x.wf(),
        cam.transform.y.wf(),
        px.wf(),
        py.wf(),
    ensures
        (exists|side: Border| covers(side, cam, px, py)) <==> within_reach(cam, px, py)
            && !inside_virtual(cam, px, py),
        within_reach(cam, px, py) && !inside_virtual(cam, px, py) ==> (covers(
            Border::Left,
            cam,
            px,
            py,
        ) || covers(Border::Right, cam, px, py) || covers(Border::Top, cam, px, py) || covers(
            Border::Bottom,
            cam,
            px,
            py,
        )),
{
    lemma_edges(cam, px, py);
    assert forall|side: Border| covers(side, cam, px, py) implies within_reach(cam, px, py)
        && !inside_virtual(cam, px, py) by {
        match side {
            Border::Left => {},
            Border::Right => {},
            Border::Top => {},
            Border::Bottom => {},
        }
    }
}

/// Two borders overlap only in the corners.
///
/// Around a camera with a positive virtual resolution, a point that lies on
/// two borders lies beside the virtual rectangle on both axes; and within
/// reach of the borders, every such point lies on one of the left and right
/// borders and on one of the top and bottom ones.
pub proof fn lemma_borders_overlap_in_corners(cam: CameraView, px: Frac, py: Frac)
    requires
        has_resolution(cam),
        cam.transform.x.wf(),
        cam.transform.y.wf(),
        px.wf(),
        py.wf(),
    ensures
        forall|one: Border, other: Border|
            one != other && covers(one, cam, px, py) && covers(other, cam, px, py) ==> in_corner(
                cam,
                px,
                py,
            ),
        in_corner(cam, px, py) && within_reach(cam, px, py) ==> (covers(Border::Left, cam, px, py)
            || covers(Border::Right, cam, px, py)) && (covers(Border::Top, cam, px, py) || covers(
            Border::Bottom,
            cam,
            px,
            py,
        )),
{
    lemma_edges(cam, px, py);
    assert forall|one: Border, other: Border|
        one != other && covers(one, cam, px, py) && covers(other, cam, px, py) implies in_corner(
        cam,
        px,
        py,
    ) by {
        match (one, other) {
            (Border::Left, _) => {},
            (Border::Right, _) => {},
            (Border::Top, _) => {},
            (Border::Bottom, _) => {},
        }
    }
}

/// The rectangle that the borders surround is the one that the projection
/// shows.
///
/// For a camera whose projection is fitted to a window of its own virtual
/// size, the left and bottom edges of the virtual rectangle are the camera's
/// position plus the left and bottom bounds of the projection, and its right
/// and top edges are the position plus the right and top bounds.
pub proof fn lemma_borders_frame_the_view(cam: CameraView, v: ProjectionView)
    requires
        v.virtual_width > 0,
        v.virtual_height > 0,
        cam.projection == fitted(v, v.virtual_width, v.virtual_height),
    ensures
        cam.projection.left.den == 1,
        cam.projection.bottom.den == 1,
        virtual_left(cam) == cam.transform.x.plus_int(cam.projection.left.num),
        virtual_bottom(cam) == cam.transform.y.plus_int(cam.projection.bottom.num),
        virtual_left(cam).eqv(cam.transform.x.plus(cam.projection.left)),
        virtual_bottom(cam).eqv(cam.transform.y.plus(cam.projection.bottom)),
        virtual_left(cam).plus_int(cam.projection.virtual_width).eqv(
            cam.transform.x.plus(cam.projection.right),
        ),
        virtual_bottom(cam).plus_int(cam.projection.virtual_height).eqv(
            cam.transform.y.plus(cam.projection.top),
        ),
{
    lemma_fit_own_size(v);
    let p = cam.projection;
    let (xn, xd) = (cam.transform.x.num, cam.transform.x.den);
    let (yn, yd) = (cam.transform.y.num, cam.transform.y.den);
    let (sx, sy) = (p.left.num, p.bottom.num);
    let (w, h) = (p.virtual_width, p.virtual_height);
    assert(sx == origin_shift(w, p.centered) && sy == origin_shift(h, p.centered));
    assert((xn + sx * xd) * (xd * 1) == (xn * 1 + sx * xd) * xd) by (nonlinear_arith);
    assert((yn + sy * yd) * (yd * 1) == (yn * 1 + sy * yd) * yd) by (nonlinear_arith);
    let (rn, rd) = (p.right.num, p.right.den);
    let (tn, td) = (p.top.num, p.top.den);
    assert((xn + sx * xd + w * xd) * (xd * rd) == (xn * rd + rn * xd) * xd) by (nonlinear_arith)
        requires
            rn * 1 == (sx + w) * rd,
    ;
    assert((yn + sy * yd + h * yd) * (yd * td) == (yn * td + tn * yd) * yd) by (nonlinear_arith)
        requires
            tn * 1 == (sy + h) * td,
    ;
}

/// Along one axis, the virtual extent placed by the corner shift lies within
/// the visible extent placed by the projection.
proof fn lemma_axis_within(extent: int, zn: int, size: int, centered: bool)
    requires
        0 < zn,
        0 < size,
        size * zn <= extent,
    ensures
        ({
            let low = if centered {
                -((extent / zn) / 2)
            } else {
                0
            };
            let shift = origin_shift(size, centered);
            low <= shift && (shift + size) * zn <= extent + low * zn
        }),
{
    let t = extent / zn;
    assert(size <= t && t * zn <= extent) by (nonlinear_arith)
        requires
            0 < zn,
            size * zn <= extent,
            t == extent / zn,
    ;
    if centered {
        let (low, shift) = (-(t / 2), -(size / 2));
        assert(shift + size - low <= t);
        assert((shift + size) * zn <= extent + low * zn) by (nonlinear_arith)
            requires
                shift + size - low <= t,
                t * zn <= extent,
                0 < zn,
        ;
    } else {
        assert((0 + size) * zn <= extent + 0 * zn) by (nonlinear_arith)
            requires
                size * zn <= extent,
        ;
    }
}

/// The rectangle that the borders surround lies within what the projection
/// shows.
///
/// For a camera whose projection is fitted to any window, the visible
/// region, moved to the camera's position, holds the virtual rectangle.
pub proof fn lemma_view_holds_the_frame(cam: CameraView, v: ProjectionView, w: int, h: int)
    requires
        v.virtual_width > 0,
        v.virtual_height > 0,
        w > 0,
        h > 0,
        cam.projection == fitted(v, w, h),
        cam.transform.x.wf(),
        cam.transform.y.wf(),
    ensures
        cam.transform.x.plus(cam.projection.left).le(virtual_left(cam)),
        virtual_left(cam).plus_int(cam.projection.virtual_width).le(
            cam.transform.x.plus(cam.projection.right),
        ),
        cam.transform.y.plus(cam.projection.bottom).le(virtual_bottom(cam)),
        virtual_bottom(cam).plus_int(cam.projection.virtual_height).le(
            cam.transform.y.plus(cam.projection.top),
        ),
{
    let p = cam.projection;
    let (vw, vh) = (p.virtual_width, p.virtual_height);
    let (zn, zd) = (p.zoom.num, p.zoom.den);
    let (xn, xd) = (cam.transform.x.num, cam.transform.x.den);
    let (yn, yd) = (cam.transform.y.num, cam.transform.y.den);
    let (l, m) = (p.left.num, p.bottom.num);
    let (rn, tn) = (p.right.num, p.top.num);
    let (sx, sy) = (origin_shift(vw, p.centered), origin_shift(vh, p.centered));
    assert(0 < zn && 0 < zd);
    assert(vw * zn <= w * zd && vh * zn <= h * zd && 0 <= w * zd && 0 <= h * zd)
        by (nonlinear_arith)
        requires
            (zn == w && zd == vw && w * vh <= h * vw) || (zn == h && zd == vh && h * vw < w * vh),
            vw > 0,
            vh > 0,
            w > 0,
            h > 0,
    ;
    lemma_axis_within(w * zd, zn, vw, p.centered);
    lemma_axis_within(h * zd, zn, vh, p.centered);
    assert(p.left.den == 1 && p.bottom.den == 1 && p.right.den == zn && p.top.den == zn);
    assert(rn == w * zd + l * zn && tn == h * zd + m * zn);
    assert((xn * 1 + l * xd) * xd <= (xn + sx * xd) * (xd * 1)) by (nonlinear_arith)
        requires
            l <= sx,
            xd > 0,
    ;
    assert((yn * 1 + m * yd) * yd <= (yn + sy * yd) * (yd * 1)) by (nonlinear_arith)
        requires
            m <= sy,
            yd > 0,
    ;
    assert((xn + sx * xd + vw * xd) * (xd * zn) <= (xn * zn + rn * xd) * xd) by (nonlinear_arith)
        requires
            (sx + vw) * zn <= rn,
            xd > 0,
            zn > 0,
    ;
    assert((yn + sy * yd + vh * yd) * (yd * zn) <= (yn * zn + tn * yd) * yd) by (nonlinear_arith)
        requires
            (sy + vh) * zn <= tn,
            yd > 0,
            zn > 0,
    ;
}

/// A pass over the borders that follows another, with the same cameras,
/// changes nothing.
pub proof fn lemma_resize_idempotent(cameras: Seq<TrackedCamera>, sprites: Seq<SpriteView>)
    ensures
        resized(cameras, resized(cameras, sprites)) == resized(cameras, sprites),
{
    assert(resized(cameras, resized(cameras, sprites)) =~= resized(cameras, sprites));
}

/// Without a camera that changed, a pass over the borders changes nothing.
pub proof fn lemma_resize_without_camera(cameras: Seq<TrackedCamera>, sprites: Seq<SpriteView>)
    requires
        first_changed(cameras) is None,
    ensures
        resized(cameras, sprites) == sprites,
        resize_outcome(cameras) == Ok::<bool, BoxFitError>(false),
{
}

} // verus!
