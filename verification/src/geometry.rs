//! Integer layout geometry: points, sizes and rectangles as the layout
//! engine reports them.

use vstd::prelude::*;

pub use self::AzLayoutPoint as LayoutPoint;
pub use self::AzLayoutRect as LayoutRect;
pub use self::AzLayoutSize as LayoutSize;

verus! {

#[derive(Debug, Clone, Copy, PartialEq, Eq, Structural)]
pub struct AzLayoutPoint {
    pub x: isize,
    pub y: isize,
}

#[derive(Debug, Clone, Copy, PartialEq, Eq, Structural)]
pub struct AzLayoutSize {
    pub width: isize,
    pub height: isize,
}

#[derive(Debug, Clone, Copy, PartialEq, Eq, Structural)]
pub struct AzLayoutRect {
    pub origin: AzLayoutPoint,
    pub size: AzLayoutSize,
}

impl LayoutSize {
    pub fn new(width: isize, height: isize) -> (r: AzLayoutSize)
        ensures
            r == (AzLayoutSize { width, height }),
    {
        AzLayoutSize { width, height }
    }

    pub fn zero() -> (r: AzLayoutSize)
        ensures
            r == (AzLayoutSize { width: 0isize, height: 0isize }),
    {
        AzLayoutSize { width: 0, height: 0 }
    }
}

impl LayoutPoint {
    pub fn new(x: isize, y: isize) -> (r: AzLayoutPoint)
        ensures
            r == (AzLayoutPoint { x, y }),
    {
        AzLayoutPoint { x, y }
    }

    pub fn zero() -> (r: AzLayoutPoint)
        ensures
            r == (AzLayoutPoint { x: 0isize, y: 0isize }),
    {
        AzLayoutPoint { x: 0, y: 0 }
    }
}

impl LayoutRect {
    /// The right and bottom edges lie within machine range.
    pub open spec fn edges_in_range(self) -> bool {
        &&& isize::MIN <= self.origin.x + self.size.width <= isize::MAX
        &&& isize::MIN <= self.origin.y + self.size.height <= isize::MAX
    }

    pub fn new(origin: AzLayoutPoint, size: AzLayoutSize) -> (r: AzLayoutRect)
        ensures
            r == (AzLayoutRect { origin, size }),
    {
        AzLayoutRect { origin, size }
    }

    pub fn zero() -> (r: AzLayoutRect)
        ensures
            r.origin == (AzLayoutPoint { x: 0isize, y: 0isize }),
            r.size == (AzLayoutSize { width: 0isize, height: 0isize }),
    {
        AzLayoutRect { origin: LayoutPoint::zero(), size: LayoutSize::zero() }
    }

    pub fn max_x(&self) -> (r: isize)
        requires
            isize::MIN <= self.origin.x + self.size.width <= isize::MAX,
        ensures
            r == self.origin.x + self.size.width,
    {
        self.origin.x + self.size.width
    }

    pub fn min_x(&self) -> (r: isize)
        ensures
            r == self.origin.x,
    {
        self.origin.x
    }

    pub fn max_y(&self) -> (r: isize)
        requires
            isize::MIN <= self.origin.y + self.size.height <= isize::MAX,
        ensures
            r == self.origin.y + self.size.height,
    {
        self.origin.y + self.size.height
    }

    pub fn min_y(&self) -> (r: isize)
        ensures
            r == self.origin.y,
    {
        self.origin.y
    }

    /// Whether `other` lies inside this rectangle, bottom and right edges
    /// excluded.
    pub open spec fn spec_contains(self, other: AzLayoutPoint) -> bool {
        &&& self.origin.x <= other.x < self.origin.x + self.size.width
        &&& self.origin.y <= other.y < self.origin.y + self.size.height
    }

    pub fn contains(&self, other: &AzLayoutPoint) -> (r: bool)
        requires
            self.edges_in_range(),
        ensures
            r == self.spec_contains(*other),
    {
        self.min_x() <= other.x && other.x < self.max_x() && self.min_y() <= other.y && other.y
            < self.max_y()
    }

    /// Whether `other` lies strictly inside this rectangle, all edges
    /// excluded.
    pub open spec fn spec_hits(self, other: AzLayoutPoint) -> bool {
        &&& self.origin.x < other.x < self.origin.x + self.size.width
        &&& self.origin.y < other.y < self.origin.y + self.size.height
    }

    /// Same as [`Self::contains`], but with every edge excluded, and
    /// answering the offset of the hit point from the rectangle's origin.
    pub fn hit_test(&self, other: &AzLayoutPoint) -> (r: Option<AzLayoutPoint>)
        requires
            self.edges_in_range(),
            isize::MIN <= other.x - self.origin.x <= isize::MAX,
            isize::MIN <= self.origin.x + self.size.width - other.x <= isize::MAX,
            isize::MIN <= other.y - self.origin.y <= isize::MAX,
            isize::MIN <= self.origin.y + self.size.height - other.y <= isize::MAX,
        ensures
            (r is Some) == self.spec_hits(*other),
            self.spec_hits(*other) ==> r == Option::Some(
                AzLayoutPoint {
                    x: (other.x - self.origin.x) as isize,
                    y: (other.y - self.origin.y) as isize,
                },
            ),
    {
        let dx_left_edge = other.x - self.min_x();
        let dx_right_edge = self.max_x() - other.x;
        let dy_top_edge = other.y - self.min_y();
        let dy_bottom_edge = self.max_y() - other.y;
        if dx_left_edge > 0 && dx_right_edge > 0 && dy_top_edge > 0 && dy_bottom_edge > 0 {
            Option::Some(LayoutPoint::new(dx_left_edge, dy_top_edge))
        } else {
            Option::None
        }
    }

    /// Whether `b` lies entirely within this rectangle.
    pub open spec fn spec_contains_rect(self, b: AzLayoutRect) -> bool {
        &&& b.origin.x >= self.origin.x
        &&& b.origin.y >= self.origin.y
        &&& b.origin.x + b.size.width <= self.origin.x + self.size.width
        &&& b.origin.y + b.size.height <= self.origin.y + self.size.height
    }

    pub fn contains_rect(&self, b: &AzLayoutRect) -> (r: bool)
        requires
            self.edges_in_range(),
            b.edges_in_range(),
        ensures
            r == self.spec_contains_rect(*b),
    {
        let a = self;
        let a_x = a.origin.x;
        let a_y = a.origin.y;
        let a_width = a.size.width;
        let a_height = a.size.height;
        let b_x = b.origin.x;
        let b_y = b.origin.y;
        let b_width = b.size.width;
        let b_height = b.size.height;
        b_x >= a_x && b_y >= a_y && b_x + b_width <= a_x + a_width && b_y + b_height <= a_y
            + a_height
    }
}

} // verus!
