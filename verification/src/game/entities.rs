//! The raindrop: a particle that falls under constant gravity.
use crate::game::engine::{Color, DrawRect, GameInfo, UpdateResponse};
use crate::math::point2::Point2;
use std::cmp::Ordering;
use std::ops::Add;
use vstd::prelude::*;
use vstd::std_specs::cmp::PartialOrdSpec;
use vstd::std_specs::ops::AddSpec;

verus! {

/// Width and height of the rectangle that shows a raindrop, in pixels.
pub const RAINDROP_RECT_SIZE: (u32, u32) = (5, 20);

/// The colour of a raindrop.
pub fn raindrop_color() -> (c: Color)
    ensures
        c == (Color { r: 100, g: 25, b: 130 }),
{
    Color { r: 100, g: 25, b: 130 }
}

/// A particle with a position and a velocity, both in pixels and ticks.
#[derive(Debug, Clone, Copy)]
pub struct Raindrop<T> {
    pub speed: Point2<T>,
    pub pos: Point2<T>,
}

/// Whether the height `y` has reached `floor`: it is greater or equal.
pub open spec fn reached<T: PartialOrd>(y: T, floor: T) -> bool {
    y.partial_cmp_spec(&floor) matches Some(Ordering::Greater | Ordering::Equal)
}

impl<T: Copy + Add<Output = T> + PartialOrd> Raindrop<T> {
    /// The raindrop one tick later: moved by its velocity, and its vertical
    /// velocity grown by `gravity`.
    pub open spec fn advanced(self, gravity: T) -> Self {
        Raindrop {
            speed: Point2 { x: self.speed.x, y: self.speed.y.add_spec(gravity) },
            pos: Point2 {
                x: self.pos.x.add_spec(self.speed.x),
                y: self.pos.y.add_spec(self.speed.y),
            },
        }
    }

    /// Whether one tick can be computed: the three sums it needs exist.
    pub open spec fn can_advance(self, gravity: T) -> bool {
        self.pos.x.add_req(self.speed.x) && self.pos.y.add_req(self.speed.y) && self.speed.y.add_req(
            gravity,
        )
    }

    /// Advances the raindrop by one tick. It asks to be removed exactly when
    /// its new height has reached `floor`, the height of the window.
    pub fn advance(&mut self, gravity: T, floor: T) -> (r: UpdateResponse)
        requires
            old(self).can_advance(gravity),
        ensures
            T::obeys_add_spec() ==> *final(self) == old(self).advanced(gravity),
            T::obeys_add_spec() && T::obeys_partial_cmp_spec() ==> r.should_delete == reached(
                old(self).advanced(gravity).pos.y,
                floor,
            ),
    {
        self.pos = self.pos + self.speed;
        self.speed.y = self.speed.y + gravity;
        UpdateResponse { should_delete: self.pos.y >= floor }
    }
}

/// The rectangle that shows a raindrop whose position, in whole pixels, is
/// (`px`, `py`): of the fixed size and colour, with its centre there. Half
/// the size is rounded down.
pub fn raindrop_rect(px: i32, py: i32) -> (r: DrawRect)
    requires
        px - 2 >= i32::MIN,
        py - 10 >= i32::MIN,
    ensures
        r == (DrawRect {
            x: (px - 2) as i32,
            y: (py - 10) as i32,
            width: 5,
            height: 20,
            color: Color { r: 100, g: 25, b: 130 },
        }),
{
    let half_size = Point2::<u32>::from(RAINDROP_RECT_SIZE) / Point2::<u32>::new(2, 2);
    DrawRect {
        x: px - half_size.x as i32,
        y: py - half_size.y as i32,
        width: RAINDROP_RECT_SIZE.0,
        height: RAINDROP_RECT_SIZE.1,
        color: raindrop_color(),
    }
}

/// The width of the range of horizontal start positions: the window's width
/// less the raindrop's own, and zero where the window is narrower than a
/// raindrop. A raindrop that starts in `[0, spawn_span]` lies wholly inside
/// the window's width whenever the window is wide enough to hold one.
pub fn spawn_span(info: &GameInfo) -> (r: u32)
    ensures
        r == if info.win_size.x >= 5 {
            info.win_size.x - 5
        } else {
            0
        },
        r + 5 <= info.win_size.x || r == 0,
{
    info.win_size.x.saturating_sub(RAINDROP_RECT_SIZE.0)
}

/// The vertical start position: the raindrop's own height above the top edge.
pub fn spawn_height() -> (r: i32)
    ensures
        r == -20,
{
    let h: u32 = RAINDROP_RECT_SIZE.1;
    -(h as i32)
}

} // verus!
