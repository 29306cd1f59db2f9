//! What every simulated object can do, and the data it is handed each frame.
use crate::math::point2::Point2;
use vstd::prelude::*;

verus! {

/// Read-only data shared by all entities during one frame.
pub struct GameInfo {
    /// The extent of the window, in pixels.
    pub win_size: Point2<u32>,
}

/// What an entity reports after it has advanced by one tick.
pub struct UpdateResponse {
    /// Whether the entity is to be dropped after this frame.
    pub should_delete: bool,
}

impl Default for UpdateResponse {
    fn default() -> (r: Self)
        ensures
            !r.should_delete,
    {
        Self { should_delete: false }
    }
}

/// A colour with three channels.
#[derive(Debug, Clone, Copy, PartialEq, Eq, Structural)]
pub struct Color {
    pub r: u8,
    pub g: u8,
    pub b: u8,
}

/// One filled, axis-aligned rectangle for the drawing surface: its top-left
/// corner, its size and its colour.
#[derive(Debug, Clone, Copy, PartialEq, Eq, Structural)]
pub struct DrawRect {
    pub x: i32,
    pub y: i32,
    pub width: u32,
    pub height: u32,
    pub color: Color,
}

/// A simulated object: it advances by one tick and it draws itself.
///
/// Both operations are functions of the entity's state and the frame's data
/// alone, which the three spec functions name.
pub trait Entity: Sized {
    /// The state after one tick.
    spec fn advanced(&self, info: &GameInfo) -> Self;

    /// Whether the tick that starts in this state ends with the entity's
    /// request to be removed.
    spec fn leaves(&self, info: &GameInfo) -> bool;

    /// What the entity draws in this state.
    spec fn shape(&self, info: &GameInfo) -> DrawRect;

    /// Advances the entity by one tick and reports whether it is to be removed.
    fn update(&mut self, info: &GameInfo) -> (r: UpdateResponse)
        ensures
            *final(self) == old(self).advanced(info),
            r.should_delete == old(self).leaves(info),
    ;

    /// The rectangle that shows the entity; the entity is left as it is.
    fn render(&self, info: &GameInfo) -> (r: DrawRect)
        ensures
            r == self.shape(info),
    ;
}

} // verus!
