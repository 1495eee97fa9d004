//! The geometry of the challenge map: its bounds, the scale at which it fits
//! a window, and the place of each node. Scales and pixel positions are kept
//! as exact ratios of whole numbers.

use crate::challenge::views;
use crate::error::CoreError;
use vstd::prelude::*;

verus! {

/// The x coordinates of the given nodes, in order.
pub open spec fn xs(nodes: Seq<(i32, i32)>) -> Seq<int> {
    nodes.map_values(|node: (i32, i32)| node.0 as int)
}

/// The y coordinates of the given nodes, in order.
pub open spec fn ys(nodes: Seq<(i32, i32)>) -> Seq<int> {
    nodes.map_values(|node: (i32, i32)| node.1 as int)
}

/// A stretch of one map axis, from `min` to `max`.
pub struct Interval {
    pub min: int,
    pub max: int,
}

impl Interval {
    /// The length of the stretch; it is negative where `max` lies before
    /// `min`.
    pub open spec fn span(self) -> int {
        self.max - self.min
    }

    /// The length by which pixels are divided: the span, and 1 in place of
    /// a span of 0.
    pub open spec fn divisor(self) -> int {
        if self.span() == 0 {
            1
        } else {
            self.span()
        }
    }
}

/// The stretch that a pair of bounds stands for.
pub open spec fn interval(range: [i64; 2]) -> Interval {
    Interval { min: range@[0] as int, max: range@[1] as int }
}

/// The range of the map along x: one unit before the smallest x and two
/// units behind the largest. Without nodes both extremes count as 0.
pub open spec fn spec_x_range(nodes: Seq<(i32, i32)>) -> Interval {
    Interval { min: xs(nodes).min() - 1, max: xs(nodes).max() + 2 }
}

/// The range of the map along y: one unit before twice the smallest y and
/// four units behind the largest. Without nodes both extremes count as 0.
pub open spec fn spec_y_range(nodes: Seq<(i32, i32)>) -> Interval {
    Interval { min: 2 * ys(nodes).min() - 1, max: ys(nodes).max() + 4 }
}

/// Whether `low` and `high` are the least and the greatest of the first
/// `count` values, or both 0 where `count` is 0.
spec fn are_extremes(values: Seq<int>, count: int, low: int, high: int) -> bool {
    if count == 0 {
        low == 0 && high == 0
    } else {
        &&& exists|i: int| 0 <= i < count && #[trigger] values[i] == low
        &&& exists|i: int| 0 <= i < count && #[trigger] values[i] == high
        &&& forall|i: int| 0 <= i < count ==> low <= #[trigger] values[i]
        &&& forall|i: int| 0 <= i < count ==> #[trigger] values[i] <= high
    }
}

proof fn lemma_extremes(values: Seq<int>, low: int, high: int)
    requires
        are_extremes(values, values.len() as int, low, high),
    ensures
        low == values.min(),
        high == values.max(),
{
    values.min_ensures();
    values.max_ensures();
    if values.len() > 0 {
        let i = choose|i: int| 0 <= i < values.len() && #[trigger] values[i] == low;
        let j = choose|j: int| 0 <= j < values.len() && #[trigger] values[j] == high;
        assert(values.min() <= values[i]);
        assert(values[j] <= values.max());
        assert(values.contains(values.min()));
        assert(values.contains(values.max()));
    }
}

/// The ranges of the map along x and along y that hold the given nodes.
pub fn compute_bounds(nodes: &[(i32, i32)]) -> (bounds: ([i64; 2], [i64; 2]))
    ensures
        interval(bounds.0) == spec_x_range(nodes@),
        interval(bounds.1) == spec_y_range(nodes@),
{
    let mut x_min: i32 = 0;
    let mut x_max: i32 = 0;
    let mut y_min: i32 = 0;
    let mut y_max: i32 = 0;
    let mut i: usize = 0;
    while i < nodes.len()
        invariant
            i <= nodes.len(),
            are_extremes(xs(nodes@), i as int, x_min as int, x_max as int),
            are_extremes(ys(nodes@), i as int, y_min as int, y_max as int),
        decreases nodes.len() - i,
    {
        let (x, y) = nodes[i];
        assert(xs(nodes@)[i as int] == x && ys(nodes@)[i as int] == y);
        if i == 0 || x < x_min {
            x_min = x;
        }
        if i == 0 || x > x_max {
            x_max = x;
        }
        if i == 0 || y < y_min {
            y_min = y;
        }
        if i == 0 || y > y_max {
            y_max = y;
        }
        i += 1;
    }
    proof {
        lemma_extremes(xs(nodes@), x_min as int, x_max as int);
        lemma_extremes(ys(nodes@), y_min as int, y_max as int);
    }
    let x_range: [i64; 2] = [x_min as i64 - 1, x_max as i64 + 2];
    let y_range: [i64; 2] = [2 * (y_min as i64) - 1, y_max as i64 + 4];
    (x_range, y_range)
}

/// The bounds of the map never touch along x: the x range of any set of
/// nodes spans at least three units.
pub proof fn lemma_x_range_spans(nodes: Seq<(i32, i32)>)
    ensures
        spec_x_range(nodes).span() >= 3,
{
    xs(nodes).min_ensures();
    xs(nodes).max_ensures();
    if nodes.len() > 0 {
        assert(xs(nodes).contains(xs(nodes).min()));
    }
}

/// An exact ratio of pixels to map units: `numerator / denominator`, with a
/// positive denominator and a numerator no larger in size than a window.
#[derive(Clone, Copy, Debug, PartialEq, Eq)]
pub struct Scale {
    numerator: i128,
    denominator: i128,
}

/// The mathematical content of a [`Scale`].
pub struct ScaleView {
    pub numerator: int,
    pub denominator: int,
}

impl ScaleView {
    /// Whether the ratio can be divided by and multiplied with safely.
    pub open spec fn well_formed(self) -> bool {
        &&& 0 < self.denominator <= 0xffff_ffff_ffff_ffff
        &&& -0xffff_ffff <= self.numerator <= 0xffff_ffff
    }

    /// Whether this ratio is at most the other one. Both denominators are
    /// taken to be positive.
    pub open spec fn le(self, other: ScaleView) -> bool {
        self.numerator * other.denominator <= other.numerator * self.denominator
    }
}

impl View for Scale {
    type V = ScaleView;

    closed spec fn view(&self) -> ScaleView {
        ScaleView { numerator: self.numerator as int, denominator: self.denominator as int }
    }
}

/// The ratio of `pixels` to `divisor`, written with a positive denominator.
pub open spec fn axis_scale(pixels: int, divisor: int) -> ScaleView {
    if divisor > 0 {
        ScaleView { numerator: pixels, denominator: divisor }
    } else {
        ScaleView { numerator: -pixels, denominator: -divisor }
    }
}

/// The scale at which the map fits the window: the smaller of width by x
/// span and height by y span, the one along x where both are equal. A span
/// of 0 is taken as 1.
pub open spec fn spec_compute_scale(
    window_width: u32,
    window_height: u32,
    x_range: Interval,
    y_range: Interval,
) -> ScaleView {
    let along_x = axis_scale(window_width as int, x_range.divisor());
    let along_y = axis_scale(window_height as int, y_range.divisor());
    if along_x.le(along_y) {
        along_x
    } else {
        along_y
    }
}

impl Scale {
    #[verifier::type_invariant]
    spec fn in_range(self) -> bool {
        self@.well_formed()
    }

    /// The ratio of `pixels` to the span of `range`, a span of 0 taken as 1.
    pub fn along(pixels: u32, range: [i64; 2]) -> (scale: Scale)
        ensures
            scale@ == axis_scale(pixels as int, interval(range).divisor()),
            scale@.well_formed(),
    {
        let span: i128 = range[1] as i128 - range[0] as i128;
        if span == 0 {
            Scale { numerator: pixels as i128, denominator: 1 }
        } else if span > 0 {
            Scale { numerator: pixels as i128, denominator: span }
        } else {
            Scale { numerator: -(pixels as i128), denominator: -span }
        }
    }

    /// The numerator of the ratio.
    pub fn numerator(&self) -> (numerator: i128)
        ensures
            numerator == self@.numerator,
            self@.well_formed(),
    {
        proof {
            use_type_invariant(self);
        }
        self.numerator
    }

    /// The denominator of the ratio, which is positive.
    pub fn denominator(&self) -> (denominator: i128)
        ensures
            denominator == self@.denominator,
            self@.well_formed(),
    {
        proof {
            use_type_invariant(self);
        }
        self.denominator
    }

    /// Tells whether this ratio is at most the other one.
    pub fn le(&self, other: &Scale) -> (smaller: bool)
        ensures
            smaller == self@.le(other@),
    {
        proof {
            use_type_invariant(self);
            use_type_invariant(other);
            lemma_product_fits(self@.numerator, other@.denominator);
            lemma_product_fits(other@.numerator, self@.denominator);
        }
        self.numerator * other.denominator <= other.numerator * self.denominator
    }
}

/// The product of a window-sized factor and a span-sized factor fits the
/// widest integer.
proof fn lemma_product_fits(small: int, large: int)
    requires
        -0xffff_ffff <= small <= 0xffff_ffff,
        -0x1_0000_0000_0000_0000 <= large <= 0x1_0000_0000_0000_0000,
    ensures
        -0xffff_ffff * 0x1_0000_0000_0000_0000 <= small * large <= 0xffff_ffff
            * 0x1_0000_0000_0000_0000,
{
    assert(-0xffff_ffff * 0x1_0000_0000_0000_0000 <= small * large <= 0xffff_ffff
        * 0x1_0000_0000_0000_0000) by (nonlinear_arith)
        requires
            -0xffff_ffff <= small <= 0xffff_ffff,
            -0x1_0000_0000_0000_0000 <= large <= 0x1_0000_0000_0000_0000,
    ;
}

/// The scale at which a map with the given ranges fits a window of the
/// given size.
pub fn compute_scale(
    window_width: u32,
    window_height: u32,
    x_range: [i64; 2],
    y_range: [i64; 2],
) -> (scale: Scale)
    ensures
        scale@ == spec_compute_scale(
            window_width,
            window_height,
            interval(x_range),
            interval(y_range),
        ),
        scale@.well_formed(),
{
    let along_x = Scale::along(window_width, x_range);
    let along_y = Scale::along(window_height, y_range);
    if along_x.le(&along_y) {
        along_x
    } else {
        along_y
    }
}

/// A position in the window, in pixels: `x / denominator` from the left and
/// `y / denominator` from the top, with a positive denominator.
#[derive(Clone, Copy, Debug, PartialEq, Eq, Structural)]
pub struct PixelPosition {
    pub x: i128,
    pub y: i128,
    pub denominator: i128,
}

/// The mathematical content of a [`PixelPosition`].
pub struct PixelPositionView {
    pub x: int,
    pub y: int,
    pub denominator: int,
}

impl View for PixelPosition {
    type V = PixelPositionView;

    open spec fn view(&self) -> PixelPositionView {
        PixelPositionView {
            x: self.x as int,
            y: self.y as int,
            denominator: self.denominator as int,
        }
    }
}

/// Where a node is drawn: its distance from the lower bound of each range,
/// times the scale.
pub open spec fn spec_place_node(
    node: (i32, i32),
    x_range: Interval,
    y_range: Interval,
    scale: ScaleView,
) -> PixelPositionView {
    PixelPositionView {
        x: (node.0 - x_range.min) * scale.numerator,
        y: (node.1 - y_range.min) * scale.numerator,
        denominator: scale.denominator,
    }
}

/// Places a node of the map in the window.
pub fn place_node(
    node: (i32, i32),
    x_range: [i64; 2],
    y_range: [i64; 2],
    scale: Scale,
) -> (position: PixelPosition)
    ensures
        position@ == spec_place_node(node, interval(x_range), interval(y_range), scale@),
        0 < position.denominator,
        node.0 == x_range[0] ==> position.x == 0,
        node.1 == y_range[0] ==> position.y == 0,
{
    let numerator = scale.numerator();
    let denominator = scale.denominator();
    let x_offset: i128 = node.0 as i128 - x_range[0] as i128;
    let y_offset: i128 = node.1 as i128 - y_range[0] as i128;
    proof {
        lemma_product_fits(numerator as int, x_offset as int);
        lemma_product_fits(numerator as int, y_offset as int);
        assert(x_offset * numerator == numerator * x_offset) by (nonlinear_arith);
        assert(y_offset * numerator == numerator * y_offset) by (nonlinear_arith);
        assert(x_offset == 0 ==> x_offset * numerator == 0) by (nonlinear_arith);
        assert(y_offset == 0 ==> y_offset * numerator == 0) by (nonlinear_arith);
    }
    PixelPosition { x: x_offset * numerator, y: y_offset * numerator, denominator }
}

/// A node that sits on the lower bound of both ranges is drawn in the
/// corner of the window, at pixel (0, 0), whatever the scale.
pub proof fn lemma_lower_bound_maps_to_origin(
    node: (i32, i32),
    x_range: Interval,
    y_range: Interval,
    scale: ScaleView,
)
    requires
        node.0 == x_range.min,
        node.1 == y_range.min,
    ensures
        spec_place_node(node, x_range, y_range, scale).x == 0,
        spec_place_node(node, x_range, y_range, scale).y == 0,
{
}

/// Where the nodes of a map are drawn in a window of the given size: each
/// node placed within the bounds of all of them, at the scale at which the
/// bounds fit the window. Bounds that span nothing along one axis give no
/// layout.
pub open spec fn spec_layout(
    nodes: Seq<(i32, i32)>,
    window_width: u32,
    window_height: u32,
) -> Result<Seq<PixelPositionView>, CoreError> {
    let x_range = spec_x_range(nodes);
    let y_range = spec_y_range(nodes);
    if x_range.span() == 0 || y_range.span() == 0 {
        Err(CoreError::DegenerateLayout)
    } else {
        let scale = spec_compute_scale(window_width, window_height, x_range, y_range);
        Ok(nodes.map_values(|node: (i32, i32)| spec_place_node(node, x_range, y_range, scale)))
    }
}

/// A layout is refused exactly when the y range spans nothing, which is
/// when the largest y lies five below twice the smallest; the x range
/// always spans something. A layout that is given places every node.
pub proof fn lemma_layout_fails_on_flat_y_only(
    nodes: Seq<(i32, i32)>,
    window_width: u32,
    window_height: u32,
)
    ensures
        spec_layout(nodes, window_width, window_height) is Err <==> ys(nodes).max() + 5 == 2 * ys(
            nodes,
        ).min(),
        spec_layout(nodes, window_width, window_height) matches Ok(placed) ==> placed.len()
            == nodes.len(),
        spec_layout(nodes, window_width, window_height) matches Err(error) ==> error
            == CoreError::DegenerateLayout,
{
    lemma_x_range_spans(nodes);
}

/// Lays the nodes of a map out in a window of the given size.
pub fn layout(nodes: &[(i32, i32)], window_width: u32, window_height: u32) -> (outcome: Result<
    Vec<PixelPosition>,
    CoreError,
>)
    ensures
        match spec_layout(nodes@, window_width, window_height) {
            Ok(placed) => outcome matches Ok(positions) && views(positions@) == placed,
            Err(error) => outcome == Err::<Vec<PixelPosition>, CoreError>(error),
        },
{
    let (x_range, y_range) = compute_bounds(nodes);
    if x_range[1] == x_range[0] || y_range[1] == y_range[0] {
        return Err(CoreError::DegenerateLayout);
    }
    let scale = compute_scale(window_width, window_height, x_range, y_range);
    let mut positions: Vec<PixelPosition> = Vec::new();
    let mut i: usize = 0;
    while i < nodes.len()
        invariant
            i <= nodes.len(),
            positions@.len() == i,
            forall|k: int|
                0 <= k < i ==> (#[trigger] positions@[k])@ == spec_place_node(
                    nodes@[k],
                    interval(x_range),
                    interval(y_range),
                    scale@,
                ),
        decreases nodes.len() - i,
    {
        positions.push(place_node(nodes[i], x_range, y_range, scale));
        i += 1;
    }
    assert(views(positions@) =~= spec_layout(nodes@, window_width, window_height)->Ok_0);
    Ok(positions)
}

} // verus!
