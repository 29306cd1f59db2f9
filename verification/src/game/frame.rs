//! The decisions of the frame loop: when to spawn, when to stop, how long to
//! sleep.
use crate::game::engine::{DrawRect, Entity, GameInfo};
use crate::game::state::{after_update, drawn, fresh, survivors, EntityWrapper, GameState};
use crate::math::point2::Point2;
use vstd::prelude::*;

verus! {

/// Frames per second.
pub const FRAMERATE: u32 = 60;

/// Width and height of the window, in pixels.
pub const WIN_SIZE: (u32, u32) = (800, 600);

/// The number of frames that pass between two frames that spawn.
pub const RAINDROP_TIMER_CYCLE: u8 = 1;

/// The number of entities that one spawning frame adds.
pub const SPAWN_BATCH: usize = 2;

/// The countdown that spaces the spawning frames.
#[derive(Debug, Clone, Copy, PartialEq, Eq, Structural)]
pub struct SpawnTimer {
    /// Frames left before the next spawning frame.
    pub remaining: u8,
    /// The value the countdown restarts from.
    pub cycle: u8,
}

impl SpawnTimer {
    /// A countdown that starts at `cycle` and restarts from it.
    pub fn new(cycle: u8) -> (r: Self)
        ensures
            r.remaining == cycle,
            r.cycle == cycle,
    {
        Self { remaining: cycle, cycle }
    }

    /// The countdown after one frame.
    pub open spec fn ticked(self) -> Self {
        if self.remaining == 0 {
            SpawnTimer { remaining: self.cycle, cycle: self.cycle }
        } else {
            SpawnTimer { remaining: (self.remaining - 1) as u8, cycle: self.cycle }
        }
    }

    /// Counts one frame. Returns how many entities this frame spawns: a whole
    /// batch when the countdown had run out, which restarts it, and none
    /// otherwise.
    pub fn tick(&mut self) -> (due: usize)
        ensures
            *final(self) == old(self).ticked(),
            due == if old(self).remaining == 0 {
                SPAWN_BATCH
            } else {
                0
            },
    {
        if self.remaining == 0 {
            self.remaining = self.cycle;
            SPAWN_BATCH
        } else {
            self.remaining -= 1;
            0
        }
    }
}

/// The countdown `t` after `frames` frames.
pub open spec fn after_frames(t: SpawnTimer, frames: nat) -> SpawnTimer
    decreases frames,
{
    if frames == 0 {
        t
    } else {
        after_frames(t, (frames - 1) as nat).ticked()
    }
}

/// While the countdown has not run out, each frame takes one from it and
/// spawns nothing.
pub proof fn lemma_countdown(t: SpawnTimer, frames: nat)
    requires
        frames <= t.remaining,
    ensures
        after_frames(t, frames).remaining == t.remaining - frames,
        after_frames(t, frames).cycle == t.cycle,
    decreases frames,
{
    if frames > 0 {
        lemma_countdown(t, (frames - 1) as nat);
    }
}

/// A countdown that shows `remaining` has run out after that many frames;
/// the frame after them, which spawns, restarts it from `cycle`. So the
/// frames that spawn are `cycle + 1` frames apart.
pub proof fn lemma_spawn_cadence(t: SpawnTimer)
    ensures
        after_frames(t, t.remaining as nat).remaining == 0,
        after_frames(t, (t.remaining + 1) as nat) == (SpawnTimer {
            remaining: t.cycle,
            cycle: t.cycle,
        }),
{
    lemma_countdown(t, t.remaining as nat);
    assert(after_frames(t, (t.remaining + 1) as nat) == after_frames(t, t.remaining as nat).ticked());
}

/// The keys the loop tells apart.
#[derive(Debug, Clone, Copy, PartialEq, Eq, Structural)]
pub enum Key {
    Escape,
    Other,
}

/// One input event, as far as the loop reads it.
#[derive(Debug, Clone, Copy, PartialEq, Eq, Structural)]
pub enum InputEvent {
    /// The window was asked to close.
    Quit,
    /// A key went down; `None` where the platform gave no key code.
    KeyDown(Option<Key>),
    /// Anything else.
    Other,
}

/// Whether `event` ends the loop: a quit, or the escape key going down.
pub open spec fn stops(event: InputEvent) -> bool {
    event == InputEvent::Quit || event == InputEvent::KeyDown(Some(Key::Escape))
}

/// Whether `event` ends the loop.
pub fn is_stop(event: &InputEvent) -> (r: bool)
    ensures
        r == stops(*event),
{
    match event {
        InputEvent::Quit => true,
        InputEvent::KeyDown(Some(Key::Escape)) => true,
        _ => false,
    }
}

/// Reads all events of one frame. The loop goes on exactly when it was
/// running and none of them ends it.
pub fn keep_running(running: bool, events: &Vec<InputEvent>) -> (r: bool)
    ensures
        r == (running && forall|i: int| 0 <= i < events@.len() ==> !stops(#[trigger] events@[i])),
{
    let mut go = running;
    let mut i: usize = 0;
    while i < events.len()
        invariant
            0 <= i <= events@.len(),
            go == (running && forall|k: int| 0 <= k < i ==> !stops(#[trigger] events@[k])),
        decreases events@.len() - i,
    {
        if is_stop(&events[i]) {
            go = false;
        }
        i += 1;
    }
    go
}

/// The time one frame may take, in nanoseconds: a second divided by the
/// frame rate, rounded down.
pub fn frame_budget_nanos(framerate: u32) -> (r: u64)
    requires
        framerate > 0,
    ensures
        r == 1_000_000_000int / (framerate as int),
{
    1_000_000_000u64 / (framerate as u64)
}

/// How long to sleep at the end of a frame that took `elapsed` nanoseconds:
/// the rest of the budget where the frame ended early, and nothing where it
/// used the budget up or overran it.
pub fn sleep_nanos(budget: u64, elapsed: u64) -> (r: Option<u64>)
    ensures
        elapsed < budget ==> r == Some((budget - elapsed) as u64),
        elapsed >= budget ==> r.is_none(),
{
    if elapsed < budget {
        Some(budget - elapsed)
    } else {
        None
    }
}

/// The simulation: the entities, the frame's data, the spawn countdown and
/// the flag that keeps the loop going.
pub struct Game<E> {
    pub state: GameState<E>,
    pub info: GameInfo,
    pub timer: SpawnTimer,
    pub running: bool,
}

impl<E: Entity> Game<E> {
    /// A running simulation without entities, in a window of the given size,
    /// whose countdown starts at `cycle`.
    pub fn new(win_size: (u32, u32), cycle: u8) -> (r: Self)
        ensures
            r.state.entities@ == Seq::<EntityWrapper<E>>::empty(),
            r.info.win_size == (Point2 { x: win_size.0, y: win_size.1 }),
            r.timer == (SpawnTimer { remaining: cycle, cycle }),
            r.running,
    {
        Self {
            state: GameState::new(),
            info: GameInfo { win_size: Point2::from(win_size) },
            timer: SpawnTimer::new(cycle),
            running: true,
        }
    }

    /// The update phase of one frame. Every entity advances by one tick;
    /// those that do not ask to be removed are drawn, the others are dropped
    /// once all have advanced. Then the countdown counts the frame. Returns
    /// the rectangles to draw, in collection order, and the number of
    /// entities that the spawn phase of this frame is to add.
    pub fn update_phase(&mut self) -> (r: (Vec<DrawRect>, usize))
        ensures
            r.0@ == drawn(after_update(old(self).state.entities@, &old(self).info), &old(self).info),
            final(self).state.entities@ == survivors(
                after_update(old(self).state.entities@, &old(self).info),
            ),
            final(self).timer == old(self).timer.ticked(),
            r.1 == if old(self).timer.remaining == 0 {
                SPAWN_BATCH
            } else {
                0
            },
            final(self).info == old(self).info,
            final(self).running == old(self).running,
    {
        let draws = self.state.update_entities(&self.info);
        self.state.remove_marked();
        let due = self.timer.tick();
        (draws, due)
    }

    /// The spawn phase of a frame whose update phase asked for a batch: adds
    /// the two new entities, unmarked, behind the others.
    pub fn spawn_phase(&mut self, first: E, second: E)
        ensures
            final(self).state.entities@ == old(self).state.entities@.push(fresh(first)).push(
                fresh(second),
            ),
            final(self).timer == old(self).timer,
            final(self).info == old(self).info,
            final(self).running == old(self).running,
    {
        self.state.spawn_batch(first, second);
    }

    /// The input phase of one frame: the loop stops when one of the frame's
    /// events ends it, and it never starts again.
    pub fn input_phase(&mut self, events: &Vec<InputEvent>)
        ensures
            final(self).running == (old(self).running && forall|i: int|
                0 <= i < events@.len() ==> !stops(#[trigger] events@[i])),
            final(self).state == old(self).state,
            final(self).timer == old(self).timer,
            final(self).info == old(self).info,
    {
        self.running = keep_running(self.running, events);
    }
}

} // verus!
