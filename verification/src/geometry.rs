use crate::framebuffer::{DISPLAY_HEIGHT, DISPLAY_WIDTH};
use vstd::prelude::*;

verus! {

/// A position as drawing code gives it: it may lie off the panel, to the
/// left of it or above it too.
#[derive(Clone, Copy, Debug, PartialEq, Eq, Structural)]
pub struct Point {
    pub x: i32,
    pub y: i32,
}

/// A width and a height, in pixels.
#[derive(Clone, Copy, Debug, PartialEq, Eq, Structural)]
pub struct Size {
    pub width: u32,
    pub height: u32,
}

/// One pixel of a drawing: where it goes and how bright it is.
#[derive(Clone, Copy, Debug, PartialEq, Eq, Structural)]
pub struct Pixel {
    pub point: Point,
    pub luma: u8,
}

/// A region of pixels: its top left corner and its extent.
#[derive(Clone, Copy, Debug, PartialEq, Eq, Structural)]
pub struct Rectangle {
    pub x: u32,
    pub y: u32,
    pub width: u32,
    pub height: u32,
}

/// Where the part of a span that is not negative begins.
pub open spec fn span_start(start: i32) -> int {
    if start < 0 {
        0
    } else {
        start as int
    }
}

/// How long the part of a span that is not negative is.
pub open spec fn span_length(start: i32, length: u32) -> int {
    if start >= 0 {
        length as int
    } else if start + length > 0 {
        start + length
    } else {
        0
    }
}

/// The smaller of two numbers.
pub open spec fn least(a: int, b: int) -> int {
    if a <= b {
        a
    } else {
        b
    }
}

/// The part of a span that is not negative.
fn visible_span(start: i32, length: u32) -> (span: (u32, u32))
    ensures
        span.0 == span_start(start),
        span.1 == span_length(start, length),
{
    if start >= 0 {
        (start as u32, length)
    } else {
        let end: i64 = start as i64 + length as i64;
        if end > 0 {
            (0, end as u32)
        } else {
            (0, 0)
        }
    }
}

/// The part of the span from `start` on, `length` long, that lies below
/// `limit`.
fn span_below(start: u32, length: u32, limit: u32) -> (span: (u32, u32))
    ensures
        span.0 == least(start as int, limit as int),
        span.1 == least(start + length, limit as int) - least(start as int, limit as int),
{
    if start >= limit {
        (limit, 0)
    } else {
        let end: u64 = start as u64 + length as u64;
        if end > limit as u64 {
            (start, limit - start)
        } else {
            (start, length)
        }
    }
}

impl Rectangle {
    /// Whether the pixel at `(x, y)` lies in the rectangle.
    pub open spec fn covers(self, x: int, y: int) -> bool {
        self.x <= x < self.x + self.width && self.y <= y < self.y + self.height
    }

    /// Whether the whole rectangle lies on the panel.
    pub open spec fn spec_fits_panel(self) -> bool {
        self.x + self.width <= DISPLAY_WIDTH && self.y + self.height <= DISPLAY_HEIGHT
    }

    /// The rectangle of the whole panel.
    pub open spec fn spec_panel() -> Rectangle {
        Rectangle { x: 0, y: 0, width: DISPLAY_WIDTH, height: DISPLAY_HEIGHT }
    }

    /// The rectangle of the whole panel.
    #[verifier::when_used_as_spec(spec_panel)]
    pub fn panel() -> (r: Rectangle)
        ensures
            r == Rectangle::spec_panel(),
    {
        Rectangle { x: 0, y: 0, width: DISPLAY_WIDTH, height: DISPLAY_HEIGHT }
    }

    /// Whether the whole rectangle lies on the panel.
    #[verifier::when_used_as_spec(spec_fits_panel)]
    pub fn fits_panel(self) -> (fits: bool)
        ensures
            fits == self.spec_fits_panel(),
    {
        self.x as u64 + self.width as u64 <= DISPLAY_WIDTH as u64 && self.y as u64
            + self.height as u64 <= DISPLAY_HEIGHT as u64
    }

    /// The region that a drawing rectangle with a signed corner stands for:
    /// what lies left of or above the origin is cut off.
    pub fn from_corner(top_left: Point, size: Size) -> (r: Rectangle)
        ensures
            r.x == span_start(top_left.x),
            r.y == span_start(top_left.y),
            r.width == span_length(top_left.x, size.width),
            r.height == span_length(top_left.y, size.height),
            forall|x: int, y: int|
                #[trigger] r.covers(x, y) <==> x >= 0 && y >= 0 && top_left.x <= x < top_left.x
                    + size.width && top_left.y <= y < top_left.y + size.height,
    {
        let (x, width) = visible_span(top_left.x, size.width);
        let (y, height) = visible_span(top_left.y, size.height);
        Rectangle { x, y, width, height }
    }

    /// The part of the rectangle that lies on the panel.
    pub fn clip_to_panel(self) -> (r: Rectangle)
        ensures
            r.x == least(self.x as int, DISPLAY_WIDTH as int),
            r.y == least(self.y as int, DISPLAY_HEIGHT as int),
            r.x + r.width == least(self.x + self.width, DISPLAY_WIDTH as int),
            r.y + r.height == least(self.y + self.height, DISPLAY_HEIGHT as int),
            r.spec_fits_panel(),
            forall|x: int, y: int|
                #[trigger] r.covers(x, y) <==> self.covers(x, y) && x < DISPLAY_WIDTH && y
                    < DISPLAY_HEIGHT,
    {
        let (x, width) = span_below(self.x, self.width, DISPLAY_WIDTH);
        let (y, height) = span_below(self.y, self.height, DISPLAY_HEIGHT);
        Rectangle { x, y, width, height }
    }
}

} // verus!
