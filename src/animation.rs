//! The decisions of the render loop, as a state machine.
//!
//! The terminal side runs the loop: it draws the current frame, waits for a
//! key for at most [`poll_timeout`] of the time since the last tick, and then
//! hands what happened to [`Animation::step`], which decides whether to stop,
//! to advance the animation, or to go round again. Times are in nanoseconds.
use vstd::prelude::*;
use crate::frame::{frame_text, Eye, EyeView};

verus! {

/// The interval between two ticks: 20 ms.
pub const TICK_RATE_NANOS: u64 = 20_000_000;

/// The smallest terminal width the animation runs in.
pub const MIN_WIDTH: u16 = 74;

/// The smallest terminal height the animation runs in.
pub const MIN_HEIGHT: u16 = 21;

/// The key that stops the animation.
pub const QUIT_KEY: char = 'q';

/// Whether a terminal of the given size is large enough for the animation.
pub fn fits(width: u16, height: u16) -> (r: bool)
    ensures
        r == (width >= MIN_WIDTH && height >= MIN_HEIGHT),
{
    width >= MIN_WIDTH && height >= MIN_HEIGHT
}

/// The text shown instead of the animation when the terminal is too small.
pub fn too_small_message() -> (r: String)
    ensures
        r@ == "terminal too small, must be at least 74x21"@,
{
    String::from_str("terminal too small, must be at least 74x21")
}

/// How long to wait for a key when `since_tick` nanoseconds have passed since
/// the last tick: what is left of the tick interval, and zero once it is over.
pub fn poll_timeout(since_tick: u64) -> (r: u64)
    ensures
        r == if since_tick >= TICK_RATE_NANOS {
            0
        } else {
            TICK_RATE_NANOS - since_tick
        },
{
    if since_tick >= TICK_RATE_NANOS {
        0
    } else {
        TICK_RATE_NANOS - since_tick
    }
}

/// Whether the loop goes on.
#[derive(PartialEq, Eq, Structural, Clone, Copy, Debug)]
pub enum Phase {
    Running,
    Quitting,
}

/// What the terminal side does after a step.
#[derive(PartialEq, Eq, Structural, Clone, Copy, Debug)]
pub enum Action {
    /// Leave the loop.
    Exit,
    /// A new frame was made: restart the tick clock and go round again.
    Advanced,
    /// Nothing changed: go round again.
    Wait,
}

/// The render loop's state: the frame generator, the number of the next
/// tick, and the phase.
pub struct Animation {
    eye: Eye,
    next_tick: u64,
    phase: Phase,
}

/// What an animation holds.
pub struct AnimationView {
    pub eye: EyeView,
    pub next_tick: nat,
    pub phase: Phase,
}

impl View for Animation {
    type V = AnimationView;

    closed spec fn view(&self) -> AnimationView {
        AnimationView { eye: self.eye@, next_tick: self.next_tick as nat, phase: self.phase }
    }
}

/// The tick that follows `m`; the counter stops at the largest `u64`.
pub open spec fn following_tick(m: nat) -> nat {
    if m < u64::MAX {
        m + 1
    } else {
        m
    }
}

/// Whether the key pressed, if the wait ended with one, is the quit key.
pub open spec fn is_quit(key: Option<char>) -> bool {
    key == Some(QUIT_KEY)
}

impl Animation {
    /// A running animation on a grid of `width` by `height`, with no frame yet
    /// and tick 1 next.
    pub fn new(width: u16, height: u16) -> (r: Animation)
        ensures
            r@.eye.width == width,
            r@.eye.height == height,
            r@.eye.frame == Seq::<char>::empty(),
            r@.next_tick == 1,
            r@.phase == Phase::Running,
    {
        Animation { eye: Eye::new(width, height), next_tick: 1, phase: Phase::Running }
    }

    /// The animation for a terminal of the given size, if it is large enough.
    pub fn start(width: u16, height: u16) -> (r: Option<Animation>)
        ensures
            r.is_some() == (width >= MIN_WIDTH && height >= MIN_HEIGHT),
            r matches Some(a) ==> a@.eye.width == width && a@.eye.height == height
                && a@.eye.frame == Seq::<char>::empty() && a@.next_tick == 1 && a@.phase
                == Phase::Running,
    {
        if fits(width, height) {
            Some(Animation::new(width, height))
        } else {
            None
        }
    }

    /// One round of the loop, after the wait: `key` is the key pressed, if
    /// any, and `since_tick` the nanoseconds since the last tick.
    ///
    /// The quit key stops the loop at once, whatever the time. Otherwise, once
    /// a full tick interval has passed, the frame of the next tick is made.
    /// A stopped loop stays stopped.
    pub fn step(&mut self, key: Option<char>, since_tick: u64) -> (r: Action)
        ensures
            is_quit(key) ==> r == Action::Exit && final(self)@.phase == Phase::Quitting,
            r == Action::Advanced ==> since_tick >= TICK_RATE_NANOS,
            r != Action::Advanced ==> final(self)@.eye == old(self)@.eye
                && final(self)@.next_tick == old(self)@.next_tick,
            old(self)@.phase == Phase::Quitting ==> r == Action::Exit && final(self)@ == old(
                self,
            )@,
            old(self)@.phase == Phase::Running && is_quit(key) ==> r == Action::Exit
                && final(self)@ == (AnimationView { phase: Phase::Quitting, ..old(self)@ }),
            old(self)@.phase == Phase::Running && !is_quit(key) && since_tick >= TICK_RATE_NANOS
                ==> r == Action::Advanced && final(self)@ == (AnimationView {
                eye: EyeView {
                    frame: frame_text(
                        old(self)@.eye.width as int,
                        old(self)@.eye.height as int,
                        old(self)@.next_tick as int,
                    ),
                    ..old(self)@.eye
                },
                next_tick: following_tick(old(self)@.next_tick),
                ..old(self)@
            }),
            old(self)@.phase == Phase::Running && !is_quit(key) && since_tick < TICK_RATE_NANOS
                ==> r == Action::Wait && final(self)@ == old(self)@,
    {
        if self.phase == Phase::Quitting {
            return Action::Exit;
        }
        if key == Some(QUIT_KEY) {
            self.phase = Phase::Quitting;
            return Action::Exit;
        }
        if since_tick >= TICK_RATE_NANOS {
            self.eye.tick(self.next_tick);
            if self.next_tick < u64::MAX {
                self.next_tick = self.next_tick + 1;
            }
            Action::Advanced
        } else {
            Action::Wait
        }
    }

    /// The current frame.
    pub fn frame(&self) -> (r: &str)
        ensures
            r@ == self@.eye.frame,
    {
        self.eye.frame()
    }

    /// The number of the next tick.
    pub fn next_tick(&self) -> (r: u64)
        ensures
            r == self@.next_tick,
    {
        self.next_tick
    }

    /// The current phase.
    pub fn phase(&self) -> (r: Phase)
        ensures
            r == self@.phase,
    {
        self.phase
    }
}

} // verus!
