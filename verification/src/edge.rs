//! The resize zone under the pointer.
//!
//! Coordinates are relative to the top-left corner of the window's content,
//! which lies inside a band of `BORDER_SIZE` on every side. A pointer in that
//! band therefore has a coordinate below zero or above the adjusted extent of
//! the window, and the side or corner it has passed is the edge from which a
//! resize starts.

use vstd::prelude::*;

verus! {

/// Width of the band along every side of the window in which a press starts a resize.
pub const BORDER_SIZE: i32 = 20;

/// A side or corner of the window from which a resize can start.
#[derive(Clone, Copy, Debug, PartialEq, Eq, Structural)]
pub enum Edge {
    NorthWest,
    North,
    NorthEast,
    West,
    East,
    SouthWest,
    South,
    SouthEast,
}

/// Where a coordinate lies along one axis, relative to the window's content.
pub enum Span {
    /// Below zero.
    Before,
    /// From zero to the extent, both included.
    Within,
    /// Above the extent.
    Beyond,
}

/// The span of `pos` on an axis whose content reaches from 0 to `extent`.
/// Where the extent is negative a coordinate can be below zero and above the
/// extent at once: it then counts as below zero.
pub open spec fn span_of(pos: int, extent: int) -> Span {
    if pos < 0 {
        Span::Before
    } else if pos > extent {
        Span::Beyond
    } else {
        Span::Within
    }
}

/// The edge that a horizontal and a vertical span name together: a corner
/// where both axes are left, a side where one is, nothing in the interior.
pub open spec fn edge_at(horizontal: Span, vertical: Span) -> Option<Edge> {
    match (horizontal, vertical) {
        (Span::Before, Span::Before) => Some(Edge::NorthWest),
        (Span::Within, Span::Before) => Some(Edge::North),
        (Span::Beyond, Span::Before) => Some(Edge::NorthEast),
        (Span::Before, Span::Within) => Some(Edge::West),
        (Span::Within, Span::Within) => None,
        (Span::Beyond, Span::Within) => Some(Edge::East),
        (Span::Before, Span::Beyond) => Some(Edge::SouthWest),
        (Span::Within, Span::Beyond) => Some(Edge::South),
        (Span::Beyond, Span::Beyond) => Some(Edge::SouthEast),
    }
}

/// The edge under a pointer at `(x, y)` over content of the given adjusted size.
pub open spec fn edge_of_point(x: int, y: int, width: int, height: int) -> Option<Edge> {
    edge_at(span_of(x, width), span_of(y, height))
}

/// The window's extent along one axis without the resize band on both sides.
pub fn adjusted_extent(raw: i32) -> (adjusted: i64)
    ensures
        adjusted == raw - 2 * BORDER_SIZE,
{
    let wide: i64 = raw.into();
    let band: i64 = BORDER_SIZE.into();
    wide - 2 * band
}

/// Which sides of the window's content a pointer has passed: the outcome of
/// the four comparisons of its coordinates with zero and the adjusted size.
#[derive(Clone, Copy, Debug, PartialEq, Eq, Structural)]
pub struct Outside {
    /// The pointer is left of the content (`x < 0`).
    pub left: bool,
    /// The pointer is right of the content (`x > width`).
    pub right: bool,
    /// The pointer is above the content (`y < 0`).
    pub above: bool,
    /// The pointer is below the content (`y > height`).
    pub below: bool,
}

impl Outside {
    /// The horizontal span that the comparisons describe.
    pub open spec fn horizontal(self) -> Span {
        if self.left {
            Span::Before
        } else if self.right {
            Span::Beyond
        } else {
            Span::Within
        }
    }

    /// The vertical span that the comparisons describe.
    pub open spec fn vertical(self) -> Span {
        if self.above {
            Span::Before
        } else if self.below {
            Span::Beyond
        } else {
            Span::Within
        }
    }

    /// The edge that the comparisons name.
    pub open spec fn spec_edge(self) -> Option<Edge> {
        edge_at(self.horizontal(), self.vertical())
    }

    /// Compares a pointer at `(x, y)` with content of the given adjusted size.
    pub fn of(x: i64, y: i64, width: i64, height: i64) -> (outside: Outside)
        ensures
            outside.left == (x < 0),
            outside.right == (x > width),
            outside.above == (y < 0),
            outside.below == (y > height),
            outside.spec_edge() == edge_of_point(x as int, y as int, width as int, height as int),
    {
        Outside { left: x < 0, right: x > width, above: y < 0, below: y > height }
    }

    /// The edge from which a resize starts, corners before sides, or `None`
    /// where the pointer has passed no side.
    pub fn edge(&self) -> (edge: Option<Edge>)
        ensures
            edge == self.spec_edge(),
            edge is None <==> !self.left && !self.right && !self.above && !self.below,
    {
        if self.left && self.above {
            Some(Edge::NorthWest)
        } else if self.right && self.above {
            Some(Edge::NorthEast)
        } else if self.left && self.below {
            Some(Edge::SouthWest)
        } else if self.right && self.below {
            Some(Edge::SouthEast)
        } else if self.left {
            Some(Edge::West)
        } else if self.right {
            Some(Edge::East)
        } else if self.above {
            Some(Edge::North)
        } else if self.below {
            Some(Edge::South)
        } else {
            None
        }
    }
}

/// The edge under a pointer at `(x, y)`, for content whose adjusted size is
/// `width` by `height`. A coordinate exactly at zero or at the adjusted size
/// is inside.
pub fn select_edge(x: i64, y: i64, width: i64, height: i64) -> (edge: Option<Edge>)
    ensures
        edge == edge_of_point(x as int, y as int, width as int, height as int),
        edge is None <==> 0 <= x <= width && 0 <= y <= height,
        x < 0 && y < 0 ==> edge == Some(Edge::NorthWest),
        0 <= x && x > width && y < 0 ==> edge == Some(Edge::NorthEast),
        x < 0 && 0 <= y && y > height ==> edge == Some(Edge::SouthWest),
        0 <= x && x > width && 0 <= y && y > height ==> edge == Some(Edge::SouthEast),
        x < 0 && 0 <= y <= height ==> edge == Some(Edge::West),
        0 <= x && x > width && 0 <= y <= height ==> edge == Some(Edge::East),
        0 <= x <= width && y < 0 ==> edge == Some(Edge::North),
        0 <= x <= width && 0 <= y && y > height ==> edge == Some(Edge::South),
{
    Outside::of(x, y, width, height).edge()
}

} // verus!
