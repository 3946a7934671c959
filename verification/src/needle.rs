//! The needle and hub of a round gauge on a pixel grid.
//!
//! Pixel coordinates grow to the right and down the screen. A heading of 0
//! points the needle straight up; headings grow clockwise, as on a compass.

use vstd::prelude::*;
use crate::angle::normalize_deg;
use crate::trig::{
    cos_deg, cos_spec, lemma_half_turn, lemma_never_both_small, lemma_quarter_turn,
    lemma_scale_round_odd, lemma_scaled_within_radius, lemma_sin_cos_periodic,
    lemma_turn_then_shift, scale_round, scale_round_spec, sin_deg, sin_spec, SCALE,
};

verus! {

/// A point of the plane with integer coordinates of any size.
pub struct PlanePoint {
    pub x: int,
    pub y: int,
}

/// A pixel position.
#[derive(Clone, Copy, Debug, PartialEq, Eq, Hash, Structural)]
pub struct Point {
    pub x: i32,
    pub y: i32,
}

impl View for Point {
    type V = PlanePoint;

    open spec fn view(&self) -> PlanePoint {
        PlanePoint { x: self.x as int, y: self.y as int }
    }
}

/// Three corners in the plane: the model of [`NeedlePoints`].
pub struct PlaneNeedle {
    pub tip: PlanePoint,
    pub left: PlanePoint,
    pub right: PlanePoint,
}

impl PlaneNeedle {
    /// Twice the signed area of the triangle tip, left, right. It is zero
    /// exactly when the three corners lie on one line.
    pub open spec fn doubled_area(self) -> int {
        (self.left.x - self.tip.x) * (self.right.y - self.tip.y)
            - (self.left.y - self.tip.y) * (self.right.x - self.tip.x)
    }

    /// No two corners coincide.
    pub open spec fn pairwise_distinct(self) -> bool {
        self.tip != self.left && self.tip != self.right && self.left != self.right
    }

    /// The corners are three different points that do not lie on one line.
    pub open spec fn is_triangle(self) -> bool {
        self.pairwise_distinct() && self.doubled_area() != 0
    }

    /// The tip lies no farther than `length` from `center` along either axis,
    /// and the ends of the base no farther than `width`.
    pub open spec fn within(self, center: PlanePoint, length: int, width: int) -> bool {
        &&& center.x - length <= self.tip.x <= center.x + length
        &&& center.y - length <= self.tip.y <= center.y + length
        &&& center.x - width <= self.left.x <= center.x + width
        &&& center.y - width <= self.left.y <= center.y + width
        &&& center.x - width <= self.right.x <= center.x + width
        &&& center.y - width <= self.right.y <= center.y + width
    }

    /// `center` lies midway between the two ends of the base.
    pub open spec fn base_centered_on(self, center: PlanePoint) -> bool {
        self.left.x + self.right.x == 2 * center.x && self.left.y + self.right.y == 2 * center.y
    }
}

/// The corners of a needle: its tip and the two ends of its base.
#[derive(Clone, Copy, Debug, PartialEq, Eq, Hash, Structural)]
pub struct NeedlePoints {
    pub tip: Point,
    pub left: Point,
    pub right: Point,
}

impl View for NeedlePoints {
    type V = PlaneNeedle;

    open spec fn view(&self) -> PlaneNeedle {
        PlaneNeedle { tip: self.tip@, left: self.left@, right: self.right@ }
    }
}

/// The ring around the center of a gauge, as the circle that is drawn for it:
/// the top-left corner of its bounding box, and its diameter.
#[derive(Clone, Copy, Debug, PartialEq, Eq, Hash, Structural)]
pub struct Hub {
    pub top_left: Point,
    pub diameter: u32,
}

/// Where a gauge sits and how large its needle is.
#[derive(Clone, Copy, Debug, PartialEq, Eq, Hash, Structural)]
pub struct GaugeGeometry {
    /// The pixel the needle turns about.
    pub center: Point,
    /// Distance from the center to the tip of the needle.
    pub needle_length: u32,
    /// Distance from the center to either end of the needle's base.
    pub gauge_width: u32,
}

impl GaugeGeometry {
    /// The farthest that a corner of the needle can lie from the center along
    /// either axis.
    pub open spec fn reach(self) -> int {
        if self.needle_length >= self.gauge_width {
            self.needle_length as int
        } else {
            self.gauge_width as int
        }
    }

    /// Length and width are positive, and the needle stays among the pixel
    /// coordinates whichever way it points.
    pub open spec fn wf(self) -> bool {
        &&& self.needle_length > 0
        &&& self.gauge_width > 0
        &&& i32::MIN <= self.center.x - self.reach()
        &&& self.center.x + self.reach() <= i32::MAX
        &&& i32::MIN <= self.center.y - self.reach()
        &&& self.center.y + self.reach() <= i32::MAX
    }

    /// Tells whether this geometry is well formed.
    pub fn is_valid(&self) -> (valid: bool)
        ensures
            valid == self.wf(),
    {
        let reach: i64 = if self.needle_length >= self.gauge_width {
            self.needle_length as i64
        } else {
            self.gauge_width as i64
        };
        let x: i64 = self.center.x as i64;
        let y: i64 = self.center.y as i64;
        let least: i64 = i32::MIN as i64;
        let most: i64 = i32::MAX as i64;
        self.needle_length > 0 && self.gauge_width > 0 && least <= x - reach && x + reach <= most
            && least <= y - reach && y + reach <= most
    }

    /// Makes a geometry from its parts, or `None` where they are not well
    /// formed.
    pub fn new(center: Point, needle_length: u32, gauge_width: u32) -> (made: Option<Self>)
        ensures
            match made {
                Some(g) => g.wf() && g == (GaugeGeometry { center, needle_length, gauge_width }),
                None => !(GaugeGeometry { center, needle_length, gauge_width }).wf(),
            },
    {
        let g = GaugeGeometry { center, needle_length, gauge_width };
        if g.is_valid() {
            Some(g)
        } else {
            None
        }
    }
}

/// The point `radius` away from `center` in direction `theta`, to the nearest
/// pixel. Direction 0 points down the screen and directions grow clockwise as
/// seen on the screen, so 90 points left, 180 up and 270 right.
pub open spec fn project_spec(center: PlanePoint, theta: int, radius: int) -> PlanePoint {
    PlanePoint {
        x: center.x - scale_round_spec(radius * sin_spec(theta)),
        y: center.y + scale_round_spec(radius * cos_spec(theta)),
    }
}

/// The corners of the needle of `geometry` at heading `angle`: the tip lies
/// `needle_length` from the center in direction `angle + 180`, the ends of the
/// base `gauge_width` from it in directions `angle + 90` and `angle - 90`.
pub open spec fn needle_points_spec(angle: int, geometry: GaugeGeometry) -> PlaneNeedle {
    PlaneNeedle {
        tip: project_spec(geometry.center@, angle + 180, geometry.needle_length as int),
        left: project_spec(geometry.center@, angle + 90, geometry.gauge_width as int),
        right: project_spec(geometry.center@, angle - 90, geometry.gauge_width as int),
    }
}

/// The corners of the needle by the sine and cosine of the heading itself:
/// the tip lies `needle_length` from the center towards `(sin, -cos)`, which
/// is up the screen at heading 0 and to the right at heading 90; the ends of
/// the base lie `gauge_width` to either side, across that direction.
pub open spec fn needle_by_heading_spec(angle: int, geometry: GaugeGeometry) -> PlaneNeedle {
    let length = geometry.needle_length as int;
    let width = geometry.gauge_width as int;
    let along_x = scale_round_spec(length * sin_spec(angle));
    let along_y = scale_round_spec(length * cos_spec(angle));
    let across_x = scale_round_spec(width * cos_spec(angle));
    let across_y = scale_round_spec(width * sin_spec(angle));
    PlaneNeedle {
        tip: PlanePoint { x: geometry.center.x + along_x, y: geometry.center.y - along_y },
        left: PlanePoint { x: geometry.center.x - across_x, y: geometry.center.y - across_y },
        right: PlanePoint { x: geometry.center.x + across_x, y: geometry.center.y + across_y },
    }
}

/// How far the center of a circle lies to the right of, and below, the
/// top-left corner of its bounding box: half of one less than the diameter,
/// rounded down.
pub open spec fn center_offset_spec(diameter: int) -> int {
    if diameter <= 0 {
        0
    } else {
        (diameter - 1) / 2
    }
}

/// The diameter of the hub of `geometry`: half the length of its needle.
pub open spec fn hub_diameter_spec(geometry: GaugeGeometry) -> int {
    geometry.needle_length as int / 2
}

/// The top-left corner of the bounding box of a circle, from its center and
/// diameter, by `embedded_graphics::primitives::Circle::with_center`.
///
/// Trusted, not proved: that the corner lies `center_offset_spec(diameter)`
/// to the left of and above the center. The subtraction must not leave the
/// range of pixel coordinates.
#[verifier::external_body]
fn circle_top_left(center: Point, diameter: u32) -> (top_left: Point)
    requires
        i32::MIN <= center.x - center_offset_spec(diameter as int),
        i32::MIN <= center.y - center_offset_spec(diameter as int),
    ensures
        top_left.x == center.x - center_offset_spec(diameter as int),
        top_left.y == center.y - center_offset_spec(diameter as int),
{
    let middle = embedded_graphics::geometry::Point::new(center.x, center.y);
    let circle = embedded_graphics::primitives::Circle::with_center(middle, diameter);
    Point { x: circle.top_left.x, y: circle.top_left.y }
}

/// Finds the circle to draw for the hub of a gauge: it is centered on the
/// gauge's center and half as wide as the needle is long.
pub fn hub(geometry: &GaugeGeometry) -> (hub: Hub)
    requires
        geometry.wf(),
    ensures
        hub.diameter == hub_diameter_spec(*geometry),
        hub.top_left.x == geometry.center.x - center_offset_spec(hub.diameter as int),
        hub.top_left.y == geometry.center.y - center_offset_spec(hub.diameter as int),
{
    let diameter: u32 = geometry.needle_length / 2;
    let top_left = circle_top_left(geometry.center, diameter);
    Hub { top_left, diameter }
}

/// Finds the pixel `radius` away from `center` in direction `theta`.
pub fn project(center: Point, theta: i32, radius: u32) -> (p: Point)
    requires
        i32::MIN <= center.x - radius,
        center.x + radius <= i32::MAX,
        i32::MIN <= center.y - radius,
        center.y + radius <= i32::MAX,
    ensures
        p@ == project_spec(center@, theta as int, radius as int),
        center.x - radius <= p.x <= center.x + radius,
        center.y - radius <= p.y <= center.y + radius,
{
    let sin: i64 = sin_deg(theta) as i64;
    let cos: i64 = cos_deg(theta) as i64;
    let r: i64 = radius as i64;
    proof {
        lemma_scaled_within_radius(r as int, sin as int);
        lemma_scaled_within_radius(r as int, cos as int);
        lemma_product_bounded(r as int, sin as int);
        lemma_product_bounded(r as int, cos as int);
    }
    let dx: i64 = scale_round(r * sin);
    let dy: i64 = scale_round(r * cos);
    Point { x: (center.x as i64 - dx) as i32, y: (center.y as i64 + dy) as i32 }
}

/// Finds the three corners of the needle at heading `angle`.
///
/// The corners are always three different pixels that do not lie on one line,
/// and they run the same way round for every heading.
pub fn needle_points(angle: i32, geometry: &GaugeGeometry) -> (needle: NeedlePoints)
    requires
        geometry.wf(),
    ensures
        needle@ == needle_points_spec(angle as int, *geometry),
        needle@.is_triangle(),
        needle@.base_centered_on(geometry.center@),
        needle@.within(
            geometry.center@,
            geometry.needle_length as int,
            geometry.gauge_width as int,
        ),
{
    let heading: i32 = normalize_deg(angle);
    proof {
        lemma_turn_then_shift(angle as int, 180);
        lemma_turn_then_shift(angle as int, 90);
        lemma_turn_then_shift(angle as int, -90);
        lemma_needle_is_triangle(angle as int, *geometry);
        lemma_needle_by_heading(angle as int, *geometry);
    }
    let tip = project(geometry.center, heading + 180, geometry.needle_length);
    let left = project(geometry.center, heading + 90, geometry.gauge_width);
    let right = project(geometry.center, heading - 90, geometry.gauge_width);
    NeedlePoints { tip, left, right }
}

/// A length below 2^32 times a sine or cosine fits easily in 64 bits.
proof fn lemma_product_bounded(radius: int, unit: int)
    requires
        0 <= radius <= u32::MAX,
        -SCALE <= unit <= SCALE,
    ensures
        -0x1_0000_0000_0000 <= radius * unit <= 0x1_0000_0000_0000,
{
    assert(-0x1_0000_0000_0000 <= radius * unit <= 0x1_0000_0000_0000) by (nonlinear_arith)
        requires
            0 <= radius <= 0xffff_ffff,
            -65536 <= unit <= 65536,
    ;
}

/// Two positive lengths along one sine or cosine round to offsets that do
/// not point opposite ways, and to offsets that are both nonzero where the
/// sine or cosine is at least `sin(45)` in size.
proof fn lemma_rounded_offsets_agree(length: int, width: int, unit: int)
    requires
        length >= 1,
        width >= 1,
    ensures
        scale_round_spec(length * unit) * scale_round_spec(width * unit) >= 0,
        unit >= 46341 || unit <= -46341 ==> scale_round_spec(length * unit)
            * scale_round_spec(width * unit) >= 1,
{
    let lu = length * unit;
    let wu = width * unit;
    assert((unit >= 0 ==> lu >= unit && wu >= unit) && (unit <= 0 ==> lu <= unit && wu <= unit))
        by (nonlinear_arith)
        requires
            length >= 1,
            width >= 1,
            lu == length * unit,
            wu == width * unit,
    ;
    let a = scale_round_spec(lu);
    let b = scale_round_spec(wu);
    assert(unit >= 0 ==> a >= 0 && b >= 0);
    assert(unit <= 0 ==> a <= 0 && b <= 0);
    assert(unit >= 46341 ==> a >= 1 && b >= 1);
    assert(unit <= -46341 ==> a <= -1 && b <= -1);
    assert(a * b >= 0 && ((a >= 1 && b >= 1) || (a <= -1 && b <= -1) ==> a * b >= 1))
        by (nonlinear_arith)
        requires
            (a >= 0 && b >= 0) || (a <= 0 && b <= 0),
    ;
}

/// The two ways of stating the corners agree: projecting along
/// `angle + 180`, `angle + 90` and `angle - 90` from a direction that points
/// down the screen is the same as going by the heading's own sine and cosine.
pub proof fn lemma_needle_by_heading(angle: int, geometry: GaugeGeometry)
    ensures
        needle_points_spec(angle, geometry) == needle_by_heading_spec(angle, geometry),
        needle_points_spec(angle, geometry).base_centered_on(geometry.center@),
{
    let length = geometry.needle_length as int;
    let width = geometry.gauge_width as int;
    let sin = sin_spec(angle);
    let cos = cos_spec(angle);
    lemma_half_turn(angle);
    lemma_quarter_turn(angle);
    lemma_quarter_turn(angle - 90);
    assert(sin_spec(angle - 90 + 90) == sin);
    assert(cos_spec(angle - 90 + 90) == cos);
    assert(length * (-sin) == -(length * sin) && length * (-cos) == -(length * cos))
        by (nonlinear_arith);
    assert(width * (-sin) == -(width * sin) && width * (-cos) == -(width * cos))
        by (nonlinear_arith);
    lemma_scale_round_odd(length * sin);
    lemma_scale_round_odd(length * cos);
    lemma_scale_round_odd(width * sin);
    lemma_scale_round_odd(width * cos);
}

/// Whole turns of the heading do not move the needle.
pub proof fn lemma_needle_periodic(angle: int, turns: int, geometry: GaugeGeometry)
    ensures
        needle_points_spec(angle + 360 * turns, geometry) == needle_points_spec(angle, geometry),
{
    lemma_sin_cos_periodic(angle + 180, turns);
    lemma_sin_cos_periodic(angle + 90, turns);
    lemma_sin_cos_periodic(angle - 90, turns);
}

/// For every heading and every positive length and width, the corners of the
/// needle are three different points that do not lie on one line; going from
/// tip to left to right always turns the same way.
pub proof fn lemma_needle_is_triangle(angle: int, geometry: GaugeGeometry)
    requires
        geometry.needle_length > 0,
        geometry.gauge_width > 0,
    ensures
        needle_points_spec(angle, geometry).doubled_area() < 0,
        needle_points_spec(angle, geometry).pairwise_distinct(),
        needle_points_spec(angle, geometry).is_triangle(),
{
    let needle = needle_points_spec(angle, geometry);
    let length = geometry.needle_length as int;
    let width = geometry.gauge_width as int;
    let sin = sin_spec(angle);
    let cos = cos_spec(angle);
    lemma_needle_by_heading(angle, geometry);
    let ls = scale_round_spec(length * sin);
    let lc = scale_round_spec(length * cos);
    let ws = scale_round_spec(width * sin);
    let wc = scale_round_spec(width * cos);
    let cx = geometry.center.x as int;
    let cy = geometry.center.y as int;
    assert(needle.doubled_area() == -2 * (ls * ws + lc * wc)) by (nonlinear_arith)
        requires
            needle.doubled_area() == (cx - wc - (cx + ls)) * (cy + ws - (cy - lc))
                - (cy - ws - (cy - lc)) * (cx + wc - (cx + ls)),
    ;
    lemma_rounded_offsets_agree(length, width, sin);
    lemma_rounded_offsets_agree(length, width, cos);
    lemma_never_both_small(angle);
    assert(ls * ws + lc * wc >= 1);
    lemma_coinciding_corners_span_nothing(needle);
}

/// Three corners of which two coincide enclose no area.
proof fn lemma_coinciding_corners_span_nothing(needle: PlaneNeedle)
    ensures
        !needle.pairwise_distinct() ==> needle.doubled_area() == 0,
{
    let ax = needle.left.x - needle.tip.x;
    let ay = needle.left.y - needle.tip.y;
    let bx = needle.right.x - needle.tip.x;
    let by = needle.right.y - needle.tip.y;
    assert((ax == 0 && ay == 0) || (bx == 0 && by == 0) || (ax == bx && ay == by) ==> ax * by
        - ay * bx == 0) by (nonlinear_arith);
}

} // verus!
