//! Typed animation states of the character.  Each state wraps one
//! animation context; the type parameter tags which clip the state
//! samples, so a transition consumes the old state and produces exactly
//! one new one.

use crate::engine::Point;
use vstd::prelude::*;

verus! {

/// Vertical ground offset the character starts at.
pub const FLOOR: i16 = 475;

/// The animation context owned by the live state: a wrapping frame
/// counter, the position, and the velocity applied once per tick.
#[derive(Clone, Copy, PartialEq, Eq, Structural, Debug)]
pub struct RedHatBoyContext {
    pub frame: u8,
    pub pos: Point,
    pub vel: Point,
}

impl RedHatBoyContext {
    /// One simulation tick: the frame counter advances and wraps modulo
    /// its representable range, and the velocity is added to the
    /// position (component-wise, wrapping).
    pub open spec fn spec_update(self) -> RedHatBoyContext {
        RedHatBoyContext {
            frame: self.frame.wrapping_add(1),
            pos: self.pos.spec_wrapping_add(self.vel),
            vel: self.vel,
        }
    }

    /// Advances the frame counter (wrapping) and accumulates the
    /// velocity into the position.
    pub fn update(&mut self)
        ensures
            *final(self) == old(self).spec_update(),
    {
        self.frame = self.frame.wrapping_add(1);
        self.pos = self.pos.wrapping_add(self.vel);
    }
}

/// Tag of the state that samples the idle clip.
#[derive(Clone, Copy, PartialEq, Eq, Structural, Debug)]
pub struct Idle;

/// Tag of the state that samples the running clip.
#[derive(Clone, Copy, PartialEq, Eq, Structural, Debug)]
pub struct Running;

/// An animation state: one context plus a zero-sized type-level tag of
/// the clip it samples.
#[derive(Clone, Copy)]
pub struct RedHatBoyState<S> {
    pub context: RedHatBoyContext,
    pub clip: S,
}

impl<S> RedHatBoyState<S> {
    /// Runs one simulation tick on the owned context.
    pub fn update(&mut self)
        ensures
            final(self).context == old(self).context.spec_update(),
            final(self).clip == old(self).clip,
    {
        self.context.update();
    }
}

impl RedHatBoyState<Idle> {
    /// The initial state: idle at the ground offset, standing still, at
    /// the first frame.
    pub fn new() -> (r: Self)
        ensures
            r == (RedHatBoyState::<Idle> {
                context: RedHatBoyContext {
                    frame: 0,
                    pos: Point { x: 0, y: FLOOR },
                    vel: Point { x: 0, y: 0 },
                },
                clip: Idle,
            }),
    {
        Self {
            context: RedHatBoyContext {
                frame: 0,
                pos: Point { x: 0, y: FLOOR },
                vel: Point { x: 0, y: 0 },
            },
            clip: Idle,
        }
    }

    /// Starts running: the frame counter restarts at zero and the
    /// velocity becomes `vel`; the position is kept.
    pub fn run(self, vel: Point) -> (r: RedHatBoyState<Running>)
        ensures
            r == (RedHatBoyState::<Running> {
                context: RedHatBoyContext { frame: 0, pos: self.context.pos, vel },
                clip: Running,
            }),
    {
        let mut context = self.context;
        context.frame = 0;
        context.vel = vel;
        RedHatBoyState { context, clip: Running }
    }

    /// A redundant idle event while already idle: only the velocity is
    /// reset to zero, the frame counter is left untouched.
    pub fn reset(&mut self)
        ensures
            *final(self) == (RedHatBoyState::<Idle> {
                context: RedHatBoyContext {
                    frame: old(self).context.frame,
                    pos: old(self).context.pos,
                    vel: Point { x: 0, y: 0 },
                },
                clip: old(self).clip,
            }),
    {
        self.context.vel = Point { x: 0, y: 0 };
    }
}

impl RedHatBoyState<Running> {
    /// Keeps running with a replaced velocity; the frame counter is not
    /// reset, so the animation continues smoothly.
    pub fn with_velocity(self, vel: Point) -> (r: Self)
        ensures
            r == (RedHatBoyState::<Running> {
                context: RedHatBoyContext {
                    frame: self.context.frame,
                    pos: self.context.pos,
                    vel,
                },
                clip: self.clip,
            }),
    {
        let mut this = self;
        this.context.vel = vel;
        this
    }

    /// Stops running: the frame counter restarts at zero and the
    /// velocity is zeroed; the position is kept.
    pub fn idle(self) -> (r: RedHatBoyState<Idle>)
        ensures
            r == (RedHatBoyState::<Idle> {
                context: RedHatBoyContext {
                    frame: 0,
                    pos: self.context.pos,
                    vel: Point { x: 0, y: 0 },
                },
                clip: Idle,
            }),
    {
        let mut context = self.context;
        context.frame = 0;
        context.vel = Point { x: 0, y: 0 };
        RedHatBoyState { context, clip: Idle }
    }
}

} // verus!
