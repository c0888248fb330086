//! The box-fit orthographic projection.
//!
//! Given the size of the window in pixels, the projection picks the largest
//! uniform zoom at which the virtual resolution still fits, and derives the
//! four bounds of the visible region from it.

use vstd::prelude::*;
use crate::error::BoxFitError;
use crate::ratio::{Frac, Ratio};

verus! {

/// Distance of the near plane.
pub const NEAR: i32 = 0;

/// Distance of the far plane.
pub const FAR: i32 = 1000;

/// The model of a projection: its configuration, its six planes and its
/// zoom.
pub struct ProjectionView {
    pub virtual_width: int,
    pub virtual_height: int,
    pub centered: bool,
    pub left: Frac,
    pub right: Frac,
    pub bottom: Frac,
    pub top: Frac,
    pub near: Frac,
    pub far: Frac,
    pub zoom: Frac,
}

/// The zoom that fits `vw` x `vh` into a window of `w` x `h`: the smaller of
/// `w / vw` and `h / vh`, the horizontal one where they are equal.
pub open spec fn fit_zoom(vw: int, vh: int, w: int, h: int) -> Frac {
    if w * vh <= h * vw {
        Frac { num: w, den: vw }
    } else {
        Frac { num: h, den: vh }
    }
}

/// What is visible along an axis of `pixels` window pixels at the given
/// zoom: `pixels / zoom`.
pub open spec fn fit_extent(pixels: int, zoom: Frac) -> Frac {
    Frac { num: pixels * zoom.den, den: zoom.num }
}

/// The lower bound of an axis whose visible extent is `extent`.
///
/// Centered, it is minus half the extent, where the extent is first cut to a
/// whole number and the halving drops the remainder; otherwise it is zero.
pub open spec fn fit_low(extent: Frac, centered: bool) -> int {
    if centered {
        -(extent.trunc() / 2)
    } else {
        0
    }
}

/// The projection `v` after it is fitted to a window of `w` x `h` pixels:
/// the zoom and the four bounds are new, the rest is kept. The upper bound
/// of each axis is the lower one plus the visible extent.
pub open spec fn fitted(v: ProjectionView, w: int, h: int) -> ProjectionView {
    let zoom = fit_zoom(v.virtual_width, v.virtual_height, w, h);
    let across = fit_extent(w, zoom);
    let up = fit_extent(h, zoom);
    let low_x = fit_low(across, v.centered);
    let low_y = fit_low(up, v.centered);
    ProjectionView {
        left: Frac::of_int(low_x),
        right: across.plus_int(low_x),
        bottom: Frac::of_int(low_y),
        top: up.plus_int(low_y),
        zoom,
        ..v
    }
}

/// The projection `v` after it is fitted to a window that measures `w` x `h`
/// in steps of one `steps`-th of a pixel. The bounds depend on the shape of
/// the window alone and are those of `fitted(v, w, h)`; the zoom is that of
/// `fitted(v, w, h)` over `steps`.
pub open spec fn fitted_in_steps(v: ProjectionView, w: int, h: int, steps: int) -> ProjectionView {
    ProjectionView { zoom: fitted(v, w, h).zoom.over_int(steps), ..fitted(v, w, h) }
}

/// The projection that a new camera for `width` x `height` starts from,
/// before it is fitted to any window.
pub open spec fn unfitted(width: int, height: int) -> ProjectionView {
    ProjectionView {
        virtual_width: width,
        virtual_height: height,
        centered: true,
        left: Frac::of_int(-1),
        right: Frac::of_int(1),
        bottom: Frac::of_int(-1),
        top: Frac::of_int(1),
        near: Frac::of_int(NEAR as int),
        far: Frac::of_int(FAR as int),
        zoom: Frac::of_int(1),
    }
}

/// `b` scales its virtual resolution uniformly into `w` x `h`: its zoom is
/// the smaller axis ratio, and the visible extents times the zoom give back
/// the window.
pub open spec fn is_box_fit(b: ProjectionView, w: int, h: int) -> bool {
    &&& b.zoom.le(Frac { num: w, den: b.virtual_width })
    &&& b.zoom.le(Frac { num: h, den: b.virtual_height })
    &&& b.zoom == (Frac { num: w, den: b.virtual_width }) || b.zoom == (Frac {
        num: h,
        den: b.virtual_height,
    })
    &&& b.right.minus(b.left).times(b.zoom).eqv(Frac::of_int(w))
    &&& b.top.minus(b.bottom).times(b.zoom).eqv(Frac::of_int(h))
}

/// `b` scales its virtual resolution uniformly into a window of `w / steps`
/// by `h / steps` pixels: its zoom is the smaller axis ratio, and the
/// visible extents times the zoom give back the window.
pub open spec fn is_box_fit_in_steps(b: ProjectionView, w: int, h: int, steps: int) -> bool {
    &&& b.zoom.le(Frac { num: w, den: b.virtual_width * steps })
    &&& b.zoom.le(Frac { num: h, den: b.virtual_height * steps })
    &&& b.zoom == (Frac { num: w, den: b.virtual_width * steps }) || b.zoom == (Frac {
        num: h,
        den: b.virtual_height * steps,
    })
    &&& b.right.minus(b.left).times(b.zoom).eqv(Frac { num: w, den: steps })
    &&& b.top.minus(b.bottom).times(b.zoom).eqv(Frac { num: h, den: steps })
}

/// The virtual resolution lies within the visible extents of `b`, and fills
/// one of them.
pub open spec fn shows_virtual_resolution(b: ProjectionView) -> bool {
    &&& Frac::of_int(b.virtual_width).le(b.right.minus(b.left))
    &&& Frac::of_int(b.virtual_height).le(b.top.minus(b.bottom))
    &&& Frac::of_int(b.virtual_width).eqv(b.right.minus(b.left)) || Frac::of_int(
        b.virtual_height,
    ).eqv(b.top.minus(b.bottom))
}

/// The middle of each axis of `b` lies in `[0, 1)`: at the origin or up to
/// one unit above it, never below.
pub open spec fn straddles_origin(b: ProjectionView) -> bool {
    &&& Frac::of_int(0).le(b.left.plus(b.right))
    &&& b.left.plus(b.right).lt(Frac::of_int(2))
    &&& Frac::of_int(0).le(b.bottom.plus(b.top))
    &&& b.bottom.plus(b.top).lt(Frac::of_int(2))
}

/// The origin is the bottom-left corner of `b`.
pub open spec fn starts_at_origin(b: ProjectionView) -> bool {
    &&& b.left == Frac::of_int(0)
    &&& b.bottom == Frac::of_int(0)
}

/// `b` shows exactly its virtual resolution, one window pixel per virtual
/// pixel, placed as its centering asks.
pub open spec fn is_unit_fit(b: ProjectionView) -> bool {
    let low_x = if b.centered {
        -(b.virtual_width / 2)
    } else {
        0
    };
    let low_y = if b.centered {
        -(b.virtual_height / 2)
    } else {
        0
    };
    &&& b.zoom.eqv(Frac::of_int(1))
    &&& b.left == Frac::of_int(low_x)
    &&& b.right.eqv(Frac::of_int(low_x + b.virtual_width))
    &&& b.bottom == Frac::of_int(low_y)
    &&& b.top.eqv(Frac::of_int(low_y + b.virtual_height))
}

/// An orthographic projection that keeps a virtual resolution in view.
#[derive(Clone, Copy, Debug)]
pub struct BoxFitProjection {
    left: Ratio,
    right: Ratio,
    bottom: Ratio,
    top: Ratio,
    near: i32,
    far: i32,
    zoom: Ratio,
    /// The zoom is chosen so that `virtual_width` fits in the window.
    pub virtual_width: i32,
    /// The zoom is chosen so that `virtual_height` fits in the window.
    pub virtual_height: i32,
    /// If true, the origin is the pixel closest to the center of the window,
    /// otherwise it is at the bottom left.
    pub centered: bool,
}

impl View for BoxFitProjection {
    type V = ProjectionView;

    closed spec fn view(&self) -> ProjectionView {
        ProjectionView {
            virtual_width: self.virtual_width as int,
            virtual_height: self.virtual_height as int,
            centered: self.centered,
            left: self.left@,
            right: self.right@,
            bottom: self.bottom@,
            top: self.top@,
            near: Frac::of_int(self.near as int),
            far: Frac::of_int(self.far as int),
            zoom: self.zoom@,
        }
    }
}

impl BoxFitProjection {
    /// The configuration is made of 32-bit numbers, and so are the planes,
    /// which are whole.
    pub proof fn lemma_view_ranges(self)
        ensures
            i32::MIN <= self@.virtual_width <= i32::MAX,
            i32::MIN <= self@.virtual_height <= i32::MAX,
            self@.near.den == 1,
            i32::MIN <= self@.near.num <= i32::MAX,
            self@.far.den == 1,
            i32::MIN <= self@.far.num <= i32::MAX,
    {
    }

    /// A centered projection for the virtual resolution `width` x `height`,
    /// fitted to a window of that same size.
    pub fn from_resolution(width: i32, height: i32) -> (r: Result<BoxFitProjection, BoxFitError>)
        ensures
            r is Err <==> width <= 0 || height <= 0,
            r matches Err(e) ==> e == BoxFitError::InvalidResolution,
            r matches Ok(p) ==> {
                &&& p@ == fitted(unfitted(width as int, height as int), width as int, height as int)
                &&& is_box_fit(p@, width as int, height as int)
                &&& shows_virtual_resolution(p@)
                &&& straddles_origin(p@)
                &&& is_unit_fit(p@)
            },
    {
        if width <= 0 || height <= 0 {
            return Err(BoxFitError::InvalidResolution);
        }
        proof {
            lemma_fit_own_size(unfitted(width as int, height as int));
        }
        let mut projection = BoxFitProjection {
            left: Ratio::from_int(-1),
            right: Ratio::from_int(1),
            bottom: Ratio::from_int(-1),
            top: Ratio::from_int(1),
            near: NEAR,
            far: FAR,
            zoom: Ratio::from_int(1),
            virtual_width: width,
            virtual_height: height,
            centered: true,
        };
        match projection.update(width as u32, height as u32) {
            Ok(()) => Ok(projection),
            Err(e) => Err(e),
        }
    }

    /// Sets the width of the virtual resolution. The bounds follow at the
    /// next update.
    pub fn set_virtual_width(&mut self, width: i32)
        ensures
            final(self)@ == (ProjectionView { virtual_width: width as int, ..old(self)@ }),
    {
        self.virtual_width = width;
    }

    /// Sets the height of the virtual resolution. The bounds follow at the
    /// next update.
    pub fn set_virtual_height(&mut self, height: i32)
        ensures
            final(self)@ == (ProjectionView { virtual_height: height as int, ..old(self)@ }),
    {
        self.virtual_height = height;
    }

    /// Sets whether the origin is in the middle of the visible region or at
    /// its bottom left. The bounds follow at the next update.
    pub fn set_centered(&mut self, centered: bool)
        ensures
            final(self)@ == (ProjectionView { centered, ..old(self)@ }),
    {
        self.centered = centered;
    }

    /// The width of the virtual resolution.
    pub fn virtual_width(&self) -> (r: i32)
        ensures
            r == self@.virtual_width,
    {
        self.virtual_width
    }

    /// The height of the virtual resolution.
    pub fn virtual_height(&self) -> (r: i32)
        ensures
            r == self@.virtual_height,
    {
        self.virtual_height
    }

    /// Whether the origin is in the middle of the visible region.
    pub fn centered(&self) -> (r: bool)
        ensures
            r == self@.centered,
    {
        self.centered
    }

    /// The left bound of the visible region.
    pub fn left(&self) -> (r: Ratio)
        ensures
            r@ == self@.left,
    {
        self.left
    }

    /// The right bound of the visible region.
    pub fn right(&self) -> (r: Ratio)
        ensures
            r@ == self@.right,
    {
        self.right
    }

    /// The bottom bound of the visible region.
    pub fn bottom(&self) -> (r: Ratio)
        ensures
            r@ == self@.bottom,
    {
        self.bottom
    }

    /// The top bound of the visible region.
    pub fn top(&self) -> (r: Ratio)
        ensures
            r@ == self@.top,
    {
        self.top
    }

    /// The distance of the near plane.
    pub fn near(&self) -> (r: Ratio)
        ensures
            r@ == self@.near,
    {
        Ratio::from_int(self.near as i64)
    }

    /// The distance of the far plane.
    pub fn far(&self) -> (r: Ratio)
        ensures
            r@ == self@.far,
    {
        Ratio::from_int(self.far as i64)
    }

    /// The number of window pixels that one virtual pixel covers.
    pub fn zoom(&self) -> (r: Ratio)
        ensures
            r@ == self@.zoom,
    {
        self.zoom
    }

    /// Refits the projection to a window of `width` x `height` pixels.
    ///
    /// On success the zoom and the four bounds are all replaced; on an error
    /// nothing is changed. The planes and the configuration are never
    /// touched.
    pub fn update(&mut self, width: u32, height: u32) -> (r: Result<(), BoxFitError>)
        ensures
            r is Ok <==> (old(self)@.virtual_width > 0 && old(self)@.virtual_height > 0 && width
                > 0 && height > 0),
            (r matches Err(BoxFitError::InvalidResolution)) <==> (old(self)@.virtual_width <= 0
                || old(self)@.virtual_height <= 0),
            (r matches Err(BoxFitError::EmptyViewport)) <==> (old(self)@.virtual_width > 0 && old(
                self,
            )@.virtual_height > 0 && (width == 0 || height == 0)),
            r is Err ==> *final(self) == *old(self),
            r is Ok ==> {
                &&& final(self)@ == fitted(old(self)@, width as int, height as int)
                &&& is_box_fit(final(self)@, width as int, height as int)
                &&& shows_virtual_resolution(final(self)@)
                &&& old(self)@.centered ==> straddles_origin(final(self)@)
                &&& !old(self)@.centered ==> starts_at_origin(final(self)@)
            },
    {
        if self.virtual_width <= 0 || self.virtual_height <= 0 {
            return Err(BoxFitError::InvalidResolution);
        }
        if width == 0 || height == 0 {
            return Err(BoxFitError::EmptyViewport);
        }
        let vw: u64 = self.virtual_width as u64;
        let vh: u64 = self.virtual_height as u64;
        let w: u64 = width as u64;
        let h: u64 = height as u64;
        proof {
            lemma_product_fits(w as int, vh as int);
            lemma_product_fits(h as int, vw as int);
            lemma_product_fits(w as int, vw as int);
            lemma_product_fits(h as int, vh as int);
        }
        let (zn, zd): (u64, u64) = if w * vh <= h * vw {
            (w, vw)
        } else {
            (h, vh)
        };
        let across: Ratio = Ratio::from_parts((w * zd) as i64, zn as i64);
        let up: Ratio = Ratio::from_parts((h * zd) as i64, zn as i64);
        let left: i64 = if self.centered {
            -(across.trunc() / 2)
        } else {
            0
        };
        let bottom: i64 = if self.centered {
            -(up.trunc() / 2)
        } else {
            0
        };
        proof {
            if self.centered {
                lemma_low_times_zoom(across@.num, zn as int, left as int);
                lemma_low_times_zoom(up@.num, zn as int, bottom as int);
            }
        }
        let right: i64 = across.num() + left * (zn as i64);
        let top: i64 = up.num() + bottom * (zn as i64);
        self.zoom = Ratio::from_parts(zn as i64, zd as i64);
        self.left = Ratio::from_int(left);
        self.right = Ratio::from_parts(right, zn as i64);
        self.bottom = Ratio::from_int(bottom);
        self.top = Ratio::from_parts(top, zn as i64);
        proof {
            lemma_fit_scales(old(self)@, width as int, height as int);
            lemma_fit_placement(old(self)@, width as int, height as int);
        }
        Ok(())
    }
}

impl BoxFitProjection {
    /// Refits the projection to a window whose size is not a whole number of
    /// pixels: `width / steps` by `height / steps`.
    ///
    /// On success the zoom and the four bounds are all replaced; on an error
    /// nothing is changed. A size given in no steps at all counts as an
    /// empty window.
    pub fn update_in_steps(&mut self, width: u32, height: u32, steps: u32) -> (r: Result<
        (),
        BoxFitError,
    >)
        ensures
            r is Ok <==> (old(self)@.virtual_width > 0 && old(self)@.virtual_height > 0 && width
                > 0 && height > 0 && steps > 0),
            (r matches Err(BoxFitError::InvalidResolution)) <==> (old(self)@.virtual_width <= 0
                || old(self)@.virtual_height <= 0),
            (r matches Err(BoxFitError::EmptyViewport)) <==> (old(self)@.virtual_width > 0 && old(
                self,
            )@.virtual_height > 0 && (width == 0 || height == 0 || steps == 0)),
            r is Err ==> *final(self) == *old(self),
            r is Ok ==> {
                &&& final(self)@ == fitted_in_steps(
                    old(self)@,
                    width as int,
                    height as int,
                    steps as int,
                )
                &&& is_box_fit_in_steps(final(self)@, width as int, height as int, steps as int)
                &&& shows_virtual_resolution(final(self)@)
                &&& old(self)@.centered ==> straddles_origin(final(self)@)
                &&& !old(self)@.centered ==> starts_at_origin(final(self)@)
            },
    {
        if self.virtual_width <= 0 || self.virtual_height <= 0 {
            return Err(BoxFitError::InvalidResolution);
        }
        if steps == 0 {
            return Err(BoxFitError::EmptyViewport);
        }
        match self.update(width, height) {
            Err(e) => Err(e),
            Ok(()) => {
                let whole: Ratio = self.zoom;
                proof {
                    let (d, k) = (whole@.den, steps as int);
                    assert(0 < d * k <= 0x7fff_ffff_0000_0000) by (nonlinear_arith)
                        requires
                            0 < d <= 0x7fff_ffff,
                            0 < k <= 0xffff_ffff,
                    ;
                    lemma_fit_in_steps(old(self)@, width as int, height as int, steps as int);
                }
                self.zoom = Ratio::from_parts(whole.num(), whole.den() * (steps as i64));
                Ok(())
            },
        }
    }
}

impl Default for BoxFitProjection {
    /// A centered projection for a virtual resolution of 640 x 480.
    fn default() -> (p: BoxFitProjection)
        ensures
            p@ == fitted(unfitted(640, 480), 640, 480),
            p@.zoom.eqv(Frac::of_int(1)),
            p@.left == Frac::of_int(-320),
            p@.right.eqv(Frac::of_int(320)),
            p@.bottom == Frac::of_int(-240),
            p@.top.eqv(Frac::of_int(240)),
    {
        match BoxFitProjection::from_resolution(640, 480) {
            Ok(p) => p,
            Err(_) => vstd::pervasive::unreached(),
        }
    }
}

/// A window dimension times a virtual dimension stays below 2^63.
proof fn lemma_product_fits(a: int, b: int)
    requires
        0 <= a <= u32::MAX,
        0 <= b <= i32::MAX,
    ensures
        0 <= a * b <= 0x7fff_ffff_0000_0000,
{
    assert(0 <= a * b <= 0x7fff_ffff_0000_0000) by (nonlinear_arith)
        requires
            0 <= a <= 0xffff_ffff,
            0 <= b <= 0x7fff_ffff,
    ;
}

/// Minus half the whole part of `extent / zn`, times `zn`, is no further
/// from zero than half of `extent`, and within `zn` of it.
proof fn lemma_low_times_zoom(extent: int, zn: int, low: int)
    requires
        0 <= extent,
        0 < zn,
        low == -((extent / zn) / 2),
    ensures
        0 <= extent + 2 * (low * zn) < 2 * zn,
        -extent <= 2 * (low * zn) <= 0,
{
    let t = extent / zn;
    let half = t / 2;
    assert(t * zn <= extent < t * zn + zn && 0 <= t) by (nonlinear_arith)
        requires
            0 <= extent,
            0 < zn,
            t == extent / zn,
    ;
    assert(t == 2 * half || t == 2 * half + 1);
    assert(0 <= half * zn && (2 * half) * zn == 2 * (half * zn) && (2 * half + 1) * zn == 2 * (half
        * zn) + zn) by (nonlinear_arith)
        requires
            0 <= half,
            0 < zn,
    ;
    assert(low * zn == -(half * zn)) by (nonlinear_arith)
        requires
            low == -half,
    ;
}

/// Fitting picks the smaller axis ratio as the zoom, shows at least the
/// virtual resolution, and its extents times the zoom are the window.
pub proof fn lemma_fit_scales(v: ProjectionView, w: int, h: int)
    requires
        v.virtual_width > 0,
        v.virtual_height > 0,
        w > 0,
        h > 0,
    ensures
        is_box_fit(fitted(v, w, h), w, h),
        shows_virtual_resolution(fitted(v, w, h)),
{
    let (vw, vh) = (v.virtual_width, v.virtual_height);
    let b = fitted(v, w, h);
    let (zn, zd) = (b.zoom.num, b.zoom.den);
    let (l, m) = (b.left.num, b.bottom.num);
    let (rn, tn) = (b.right.num, b.top.num);
    assert(rn == w * zd + l * zn && tn == h * zd + m * zn);
    assert(b.left.den == 1 && b.bottom.den == 1 && b.right.den == zn && b.top.den == zn);
    // The span of each axis, times the zoom, is the window.
    assert(((rn * 1 - l * zn) * zn) * 1 == w * ((zn * 1) * zd)) by (nonlinear_arith)
        requires
            rn == w * zd + l * zn,
    ;
    assert(((tn * 1 - m * zn) * zn) * 1 == h * ((zn * 1) * zd)) by (nonlinear_arith)
        requires
            tn == h * zd + m * zn,
    ;
    // The zoom is the smaller ratio, so each span is at least the virtual one.
    if w * vh <= h * vw {
        assert(zn == w && zd == vw);
        assert(vw * (zn * 1) == (rn * 1 - l * zn) * 1) by (nonlinear_arith)
            requires
                rn == w * zd + l * zn,
                zn == w,
                zd == vw,
        ;
        assert(vh * (zn * 1) <= (tn * 1 - m * zn) * 1) by (nonlinear_arith)
            requires
                tn == h * zd + m * zn,
                zn == w,
                zd == vw,
                w * vh <= h * vw,
        ;
    } else {
        assert(zn == h && zd == vh);
        assert(vh * (zn * 1) == (tn * 1 - m * zn) * 1) by (nonlinear_arith)
            requires
                tn == h * zd + m * zn,
                zn == h,
                zd == vh,
        ;
        assert(vw * (zn * 1) <= (rn * 1 - l * zn) * 1) by (nonlinear_arith)
            requires
                rn == w * zd + l * zn,
                zn == h,
                zd == vh,
                w * vh > h * vw,
        ;
    }
}

/// Fitting to a window measured in steps picks the smaller axis ratio as
/// the zoom, and the visible extents times the zoom are the window.
pub proof fn lemma_fit_in_steps(v: ProjectionView, w: int, h: int, steps: int)
    requires
        v.virtual_width > 0,
        v.virtual_height > 0,
        w > 0,
        h > 0,
        steps > 0,
    ensures
        is_box_fit_in_steps(fitted_in_steps(v, w, h, steps), w, h, steps),
        shows_virtual_resolution(fitted_in_steps(v, w, h, steps)),
        v.centered ==> straddles_origin(fitted_in_steps(v, w, h, steps)),
        !v.centered ==> starts_at_origin(fitted_in_steps(v, w, h, steps)),
{
    lemma_fit_scales(v, w, h);
    lemma_fit_placement(v, w, h);
    let (vw, vh) = (v.virtual_width, v.virtual_height);
    let b = fitted(v, w, h);
    let (zn, zd) = (b.zoom.num, b.zoom.den);
    // The span of each axis: its numerator and its denominator.
    let (xn, xd) = (b.right.minus(b.left).num, b.right.minus(b.left).den);
    let (yn, yd) = (b.top.minus(b.bottom).num, b.top.minus(b.bottom).den);
    assert((xn * zn) * steps == w * (xd * (zd * steps))) by (nonlinear_arith)
        requires
            (xn * zn) * 1 == w * (xd * zd),
    ;
    assert((yn * zn) * steps == h * (yd * (zd * steps))) by (nonlinear_arith)
        requires
            (yn * zn) * 1 == h * (yd * zd),
    ;
    assert(zn * (vw * steps) <= w * (zd * steps) && zn * (vh * steps) <= h * (zd * steps))
        by (nonlinear_arith)
        requires
            zn * vw <= w * zd,
            zn * vh <= h * zd,
            steps > 0,
    ;
}

/// Fitted to a window of its own virtual size, a projection has a zoom of
/// one and shows exactly the virtual resolution.
pub proof fn lemma_fit_own_size(v: ProjectionView)
    requires
        v.virtual_width > 0,
        v.virtual_height > 0,
    ensures
        is_unit_fit(fitted(v, v.virtual_width, v.virtual_height)),
{
    let (w, h) = (v.virtual_width, v.virtual_height);
    let b = fitted(v, w, h);
    assert(w * h == h * w) by (nonlinear_arith);
    assert(b.zoom == Frac { num: w, den: w });
    assert((w * w) / w == w && (h * w) / w == h) by (nonlinear_arith)
        requires
            w > 0,
    ;
    let (l, m) = (b.left.num, b.bottom.num);
    assert(b.right == Frac { num: w * w + l * w, den: w });
    assert(b.top == Frac { num: h * w + m * w, den: w });
    assert((w * w + l * w) * 1 == (l + w) * w) by (nonlinear_arith);
    assert((h * w + m * w) * 1 == (m + h) * w) by (nonlinear_arith);
}

/// A centered fit has the origin in the middle of both axes, up to the
/// remainder that the halving drops; an uncentered one starts at the origin.
pub proof fn lemma_fit_placement(v: ProjectionView, w: int, h: int)
    requires
        v.virtual_width > 0,
        v.virtual_height > 0,
        w > 0,
        h > 0,
    ensures
        v.centered ==> straddles_origin(fitted(v, w, h)),
        !v.centered ==> starts_at_origin(fitted(v, w, h)),
{
    let b = fitted(v, w, h);
    let (zn, zd) = (b.zoom.num, b.zoom.den);
    let (l, m) = (b.left.num, b.bottom.num);
    let (rn, tn) = (b.right.num, b.top.num);
    if v.centered {
        assert(0 <= w * zd && 0 <= h * zd) by (nonlinear_arith)
            requires
                w > 0,
                h > 0,
                zd > 0,
        ;
        lemma_low_times_zoom(w * zd, zn, l);
        lemma_low_times_zoom(h * zd, zn, m);
        assert(rn == w * zd + l * zn && tn == h * zd + m * zn);
        assert(b.left.den == 1 && b.bottom.den == 1 && b.right.den == zn && b.top.den == zn);
        assert(0 * (1 * zn) <= (l * zn + rn * 1) * 1 && (l * zn + rn * 1) * 1 < 2 * (1 * zn));
        assert(0 * (1 * zn) <= (m * zn + tn * 1) * 1 && (m * zn + tn * 1) * 1 < 2 * (1 * zn));
    }
}

} // verus!
