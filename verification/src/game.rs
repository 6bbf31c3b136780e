//! The game side: the intent derived from the held-key set, the
//! character's animation state machine with its transition table, and
//! the per-callback frame step that drives the simulation at a fixed
//! rate.

use crate::engine::FRAME_SIZE_MICROS;
use crate::engine::GameLoop;
use crate::engine::KeyState;
use crate::engine::KeyboardState;
use crate::engine::Point;
use crate::engine::apply_key_events;
use crate::engine::spec_tick_count;
use crate::game::red_hat_boy_states::Idle;
use crate::game::red_hat_boy_states::RedHatBoyContext;
use crate::game::red_hat_boy_states::RedHatBoyState;
use crate::game::red_hat_boy_states::Running;
use vstd::prelude::*;

pub mod red_hat_boy_states;

verus! {

use vstd::string::StringExecFns;

/// Count of cards in the idle animation clip.
pub const IDLE_CARDS: u8 = 10;

/// Count of cards in the running animation clip.
pub const RUN_CARDS: u8 = 8;

/// Simulation ticks spent on each atlas card: playback speed of the
/// animation relative to the tick rate.
pub const FRAMES_PER_ATLAS_STEP: u8 = 3;

/// Velocity added per held movement key, per axis.
pub const WALK_SPEED: i16 = 3;

/// The per-tick intent derived from the held-key set: either no movement
/// key is held, or the character runs with the summed velocity.
#[derive(Clone, Copy, PartialEq, Eq, Structural, Debug)]
pub enum GameEvent {
    Idle,
    Run { vel: Point },
}

/// The character's state machine.  Exactly one variant is live at a
/// time; a transition consumes the old variant and produces exactly one
/// new one, so the variant tag and the clip being sampled can never
/// disagree.
#[derive(Clone, Copy)]
pub enum RedHatBoyStateMachine {
    Idle(RedHatBoyState<Idle>),
    Running(RedHatBoyState<Running>),
}

impl RedHatBoyStateMachine {
    /// The animation context owned by the live variant.
    pub open spec fn spec_context(self) -> RedHatBoyContext {
        match self {
            RedHatBoyStateMachine::Idle(state) => state.context,
            RedHatBoyStateMachine::Running(state) => state.context,
        }
    }

    /// The transition table over the full (variant x event) space.  Every
    /// pair yields exactly one successor:
    /// - Idle x Idle keeps the variant, zeroes the velocity and leaves
    ///   the frame counter untouched;
    /// - Idle x Run starts running with the frame counter reset to zero;
    /// - Running x Idle stops with the frame counter reset and the
    ///   velocity zeroed;
    /// - Running x Run keeps the variant and the frame counter, only the
    ///   velocity is replaced.
    pub open spec fn spec_transition(self, event: GameEvent) -> RedHatBoyStateMachine {
        match (self, event) {
            (RedHatBoyStateMachine::Idle(state), GameEvent::Idle) => RedHatBoyStateMachine::Idle(
                RedHatBoyState {
                    context: RedHatBoyContext {
                        frame: state.context.frame,
                        pos: state.context.pos,
                        vel: Point { x: 0, y: 0 },
                    },
                    clip: state.clip,
                },
            ),
            (
                RedHatBoyStateMachine::Idle(state),
                GameEvent::Run { vel },
            ) => RedHatBoyStateMachine::Running(
                RedHatBoyState {
                    context: RedHatBoyContext { frame: 0, pos: state.context.pos, vel },
                    clip: Running,
                },
            ),
            (RedHatBoyStateMachine::Running(state), GameEvent::Idle) => RedHatBoyStateMachine::Idle(
                RedHatBoyState {
                    context: RedHatBoyContext {
                        frame: 0,
                        pos: state.context.pos,
                        vel: Point { x: 0, y: 0 },
                    },
                    clip: Idle,
                },
            ),
            (
                RedHatBoyStateMachine::Running(state),
                GameEvent::Run { vel },
            ) => RedHatBoyStateMachine::Running(
                RedHatBoyState {
                    context: RedHatBoyContext {
                        frame: state.context.frame,
                        pos: state.context.pos,
                        vel,
                    },
                    clip: state.clip,
                },
            ),
        }
    }

    /// One simulation tick applied to the live variant's context; the
    /// variant itself is kept.
    pub open spec fn spec_update(self) -> RedHatBoyStateMachine {
        match self {
            RedHatBoyStateMachine::Idle(state) => RedHatBoyStateMachine::Idle(
                RedHatBoyState { context: state.context.spec_update(), clip: state.clip },
            ),
            RedHatBoyStateMachine::Running(state) => RedHatBoyStateMachine::Running(
                RedHatBoyState { context: state.context.spec_update(), clip: state.clip },
            ),
        }
    }

    /// Count of atlas cards of the clip the live variant samples.
    pub open spec fn spec_card_count(self) -> u8 {
        match self {
            RedHatBoyStateMachine::Idle(_) => IDLE_CARDS,
            RedHatBoyStateMachine::Running(_) => RUN_CARDS,
        }
    }

    /// Name of the clip the live variant samples, as it appears in the
    /// atlas naming convention.
    pub open spec fn spec_clip_name(self) -> Seq<char> {
        match self {
            RedHatBoyStateMachine::Idle(_) => "Idle"@,
            RedHatBoyStateMachine::Running(_) => "Run"@,
        }
    }

    /// The 1-based atlas card the live variant currently shows: the
    /// frame counter divided by the playback step, modulo the clip's
    /// card count, plus one.
    pub open spec fn spec_card_index(self) -> int {
        (self.spec_context().frame / FRAMES_PER_ATLAS_STEP) % self.spec_card_count() + 1
    }

    /// The atlas name of the card the live variant currently shows:
    /// the clip name, the 1-based card index in parentheses, and the
    /// image suffix.
    pub open spec fn spec_frame_name(self) -> Seq<char> {
        self.spec_clip_name() + " ("@ + spec_card_label(self.spec_card_index()) + ").png"@
    }

    /// Applies one event to the state machine, following the transition
    /// table.
    pub fn transition(self, event: GameEvent) -> (r: Self)
        ensures
            r == self.spec_transition(event),
    {
        match (self, event) {
            (RedHatBoyStateMachine::Idle(mut state), GameEvent::Idle) => {
                state.reset();
                RedHatBoyStateMachine::Idle(state)
            },
            (RedHatBoyStateMachine::Idle(state), GameEvent::Run { vel }) => {
                RedHatBoyStateMachine::Running(state.run(vel))
            },
            (RedHatBoyStateMachine::Running(state), GameEvent::Idle) => {
                RedHatBoyStateMachine::Idle(state.idle())
            },
            (RedHatBoyStateMachine::Running(state), GameEvent::Run { vel }) => {
                RedHatBoyStateMachine::Running(state.with_velocity(vel))
            },
        }
    }

    /// Runs one simulation tick on the live variant.
    pub fn update(self) -> (r: Self)
        ensures
            r == self.spec_update(),
    {
        match self {
            RedHatBoyStateMachine::Idle(mut state) => {
                state.update();
                RedHatBoyStateMachine::Idle(state)
            },
            RedHatBoyStateMachine::Running(mut state) => {
                state.update();
                RedHatBoyStateMachine::Running(state)
            },
        }
    }

    /// The context owned by the live variant.
    pub fn context(&self) -> (r: &RedHatBoyContext)
        ensures
            *r == self.spec_context(),
    {
        match self {
            RedHatBoyStateMachine::Idle(state) => &state.context,
            RedHatBoyStateMachine::Running(state) => &state.context,
        }
    }

    /// Count of atlas cards of the clip the live variant samples.
    pub fn card_count(&self) -> (r: u8)
        ensures
            r == self.spec_card_count(),
    {
        match self {
            RedHatBoyStateMachine::Idle(_) => IDLE_CARDS,
            RedHatBoyStateMachine::Running(_) => RUN_CARDS,
        }
    }

    /// Builds the atlas name of the card to draw for the current state.
    pub fn frame_name(&self) -> (r: String)
        ensures
            r@ == self.spec_frame_name(),
    {
        let cur_card_count = (self.context().frame / FRAMES_PER_ATLAS_STEP) % self.card_count()
            + 1;
        let clip = match self {
            RedHatBoyStateMachine::Idle(_) => "Idle",
            RedHatBoyStateMachine::Running(_) => "Run",
        };
        let mut name = String::from_str(clip);
        name.append(" (");
        name.append(card_label(cur_card_count));
        name.append(").png");
        name
    }
}

/// The transition table is exhaustive over the (variant x event) space:
/// each of the four combinations yields exactly one defined successor,
/// with the variant given here.
pub proof fn lemma_transition_exhaustive(machine: RedHatBoyStateMachine, event: GameEvent)
    ensures
        machine is Idle && event is Idle ==> machine.spec_transition(event) is Idle,
        machine is Idle && event is Run ==> machine.spec_transition(event) is Running,
        machine is Running && event is Idle ==> machine.spec_transition(event) is Idle,
        machine is Running && event is Run ==> machine.spec_transition(event) is Running,
{
}

/// Idle events from the idle variant are idempotent: the transition
/// zeroes the velocity and touches nothing else — the frame counter and
/// position can only move through updates, never through the transition
/// itself — so applying the event again changes nothing.
pub proof fn lemma_idle_event_idempotent(machine: RedHatBoyStateMachine)
    requires
        machine is Idle,
    ensures
        machine.spec_transition(GameEvent::Idle) is Idle,
        machine.spec_transition(GameEvent::Idle).spec_context().vel == (Point { x: 0, y: 0 }),
        machine.spec_transition(GameEvent::Idle).spec_context().frame == machine.spec_context().frame,
        machine.spec_transition(GameEvent::Idle).spec_context().pos == machine.spec_context().pos,
        machine.spec_transition(GameEvent::Idle).spec_transition(GameEvent::Idle)
            == machine.spec_transition(GameEvent::Idle),
{
}

/// A run event while already running does not reset the frame counter:
/// the transition keeps it, and only the unconditional update that
/// follows advances it by one (wrapping).
pub proof fn lemma_running_continuity(machine: RedHatBoyStateMachine, vel: Point)
    requires
        machine is Running,
    ensures
        machine.spec_transition(GameEvent::Run { vel }) is Running,
        machine.spec_transition(GameEvent::Run { vel }).spec_context().frame
            == machine.spec_context().frame,
        machine.spec_transition(GameEvent::Run { vel }).spec_update().spec_context().frame
            == machine.spec_context().frame.wrapping_add(1),
{
}

/// The decimal label of a card index between one and ten.
pub open spec fn spec_card_label(n: int) -> Seq<char> {
    if n == 1 {
        "1"@
    } else if n == 2 {
        "2"@
    } else if n == 3 {
        "3"@
    } else if n == 4 {
        "4"@
    } else if n == 5 {
        "5"@
    } else if n == 6 {
        "6"@
    } else if n == 7 {
        "7"@
    } else if n == 8 {
        "8"@
    } else if n == 9 {
        "9"@
    } else if n == 10 {
        "10"@
    } else {
        Seq::empty()
    }
}

/// The decimal label of a card index between one and ten.
fn card_label(n: u8) -> (r: &'static str)
    requires
        1 <= n <= 10,
    ensures
        r@ == spec_card_label(n as int),
{
    match n {
        1 => "1",
        2 => "2",
        3 => "3",
        4 => "4",
        5 => "5",
        6 => "6",
        7 => "7",
        8 => "8",
        9 => "9",
        _ => "10",
    }
}

/// The velocity the held movement keys sum to: the left key subtracts
/// the walk speed from the horizontal axis and the right key adds it;
/// the down key adds it to the vertical axis and the up key subtracts
/// it.  The axes are independent, so diagonals are allowed.
pub open spec fn spec_keyboard_velocity(held: Set<Seq<char>>) -> Point {
    Point {
        x: ((if held.contains("KeyA"@) {
            -WALK_SPEED as int
        } else {
            0
        }) + (if held.contains("KeyF"@) {
            WALK_SPEED as int
        } else {
            0
        })) as i16,
        y: ((if held.contains("KeyS"@) {
            WALK_SPEED as int
        } else {
            0
        }) + (if held.contains("KeyD"@) {
            -WALK_SPEED as int
        } else {
            0
        })) as i16,
    }
}

/// The event one tick derives from the held-key set: idle when the keys
/// sum to a standstill, otherwise a run with the summed velocity.
pub open spec fn spec_derived_event(held: Set<Seq<char>>) -> GameEvent {
    let vel = spec_keyboard_velocity(held);
    if vel.x == 0 && vel.y == 0 {
        GameEvent::Idle
    } else {
        GameEvent::Run { vel }
    }
}

/// One simulation tick of the state machine under a fixed held-key set:
/// the derived event is applied through the transition table, then the
/// context is updated.
pub open spec fn spec_tick(machine: RedHatBoyStateMachine, held: Set<Seq<char>>) -> RedHatBoyStateMachine {
    machine.spec_transition(spec_derived_event(held)).spec_update()
}

/// The player character: its animation state machine.  The sheet image
/// it is drawn from lives with the renderer, outside the library.
#[derive(Clone, Copy)]
pub struct RedHatBoy {
    pub state_machine: RedHatBoyStateMachine,
}

impl RedHatBoy {
    /// A character in the initial state: idle at the ground offset.
    pub fn new() -> (r: RedHatBoy)
        ensures
            r.state_machine == spec_initial_machine(),
    {
        RedHatBoy { state_machine: RedHatBoyStateMachine::Idle(RedHatBoyState::new()) }
    }

    /// The velocity the held movement keys currently sum to.
    pub fn keyboard_velocity(kb_state: &KeyboardState) -> (vel: Point)
        ensures
            vel == spec_keyboard_velocity(kb_state@),
    {
        let mut vel = Point { x: 0, y: 0 };
        if kb_state.is_pressed("KeyA") {
            vel.x = vel.x - WALK_SPEED;
        }
        if kb_state.is_pressed("KeyF") {
            vel.x = vel.x + WALK_SPEED;
        }
        if kb_state.is_pressed("KeyS") {
            vel.y = vel.y + WALK_SPEED;
        }
        if kb_state.is_pressed("KeyD") {
            vel.y = vel.y - WALK_SPEED;
        }
        vel
    }

    /// One simulation tick: derives the event from the held keys, feeds
    /// it through the transition table, then updates the context.
    pub fn update(&mut self, kb_state: &KeyboardState)
        ensures
            final(self).state_machine == spec_tick(old(self).state_machine, kb_state@),
    {
        let vel = Self::keyboard_velocity(kb_state);
        let event = if vel.x == 0 && vel.y == 0 {
            GameEvent::Idle
        } else {
            GameEvent::Run { vel }
        };
        self.state_machine = self.state_machine.transition(event);
        self.state_machine = self.state_machine.update();
    }
}

/// The state machine a new character starts with: the idle variant at
/// the ground offset, standing still, at frame zero.
pub open spec fn spec_initial_machine() -> RedHatBoyStateMachine {
    RedHatBoyStateMachine::Idle(
        RedHatBoyState {
            context: RedHatBoyContext {
                frame: 0,
                pos: Point { x: 0, y: crate::game::red_hat_boy_states::FLOOR },
                vel: Point { x: 0, y: 0 },
            },
            clip: Idle,
        },
    )
}

/// The whole game as the loop sees it: the character, once the assets
/// it is drawn from have been loaded.
#[derive(Clone, Copy)]
pub struct WalkTheDog {
    pub rhb: Option<RedHatBoy>,
}

/// One simulation tick of the whole game under a fixed held-key set: a
/// game without a character yet is left unchanged.
pub open spec fn spec_game_tick(game: WalkTheDog, held: Set<Seq<char>>) -> WalkTheDog {
    match game.rhb {
        None => game,
        Some(boy) => WalkTheDog {
            rhb: Some(RedHatBoy { state_machine: spec_tick(boy.state_machine, held) }),
        },
    }
}

/// `n` simulation ticks of the whole game under a fixed held-key set.
pub open spec fn spec_game_ticks(game: WalkTheDog, held: Set<Seq<char>>, n: nat) -> WalkTheDog
    decreases n,
{
    if n == 0 {
        game
    } else {
        spec_game_tick(spec_game_ticks(game, held, (n - 1) as nat), held)
    }
}

impl WalkTheDog {
    /// A game with no character yet: assets are still to be loaded.
    pub fn new() -> (r: WalkTheDog)
        ensures
            r.rhb is None,
    {
        WalkTheDog { rhb: None }
    }

    /// One simulation tick: the character, if present, takes one step
    /// under the current held-key set.
    pub fn update(&mut self, kb_state: &KeyboardState)
        ensures
            *final(self) == spec_game_tick(*old(self), kb_state@),
    {
        match self.rhb {
            Some(mut boy) => {
                boy.update(kb_state);
                self.rhb = Some(boy);
            },
            None => {},
        }
    }

    /// One host callback at timestamp `perf_micros`: drains the queued
    /// key occurrences into the held set, converts the elapsed real time
    /// into whole simulation ticks, and runs one update per tick, all
    /// ticks under the freshly drained held-key set.  Drawing happens
    /// once after this, outside the library.
    pub fn run_frame(
        &mut self,
        game_loop: &mut GameLoop,
        kb_state: &mut KeyboardState,
        events: &Vec<KeyState>,
        perf_micros: u64,
    ) -> (ticks: u64)
        requires
            old(game_loop).last_frame <= perf_micros,
            old(game_loop).accumulated_delta + (perf_micros - old(game_loop).last_frame)
                <= u64::MAX,
        ensures
            final(kb_state)@ == apply_key_events(old(kb_state)@, events@),
            final(game_loop).last_frame == perf_micros,
            final(game_loop).accumulated_delta <= FRAME_SIZE_MICROS,
            ticks * FRAME_SIZE_MICROS + final(game_loop).accumulated_delta == old(
                game_loop,
            ).accumulated_delta + (perf_micros - old(game_loop).last_frame),
            ticks == spec_tick_count(
                old(game_loop).accumulated_delta + (perf_micros - old(game_loop).last_frame),
            ),
            *final(self) == spec_game_ticks(*old(self), final(kb_state)@, ticks as nat),
    {
        kb_state.process_input(events);
        let ticks = game_loop.advance(perf_micros);
        let ghost drained: KeyboardState = *kb_state;
        let mut i: u64 = 0;
        while i < ticks
            invariant
                i <= ticks,
                *kb_state == drained,
                *self == spec_game_ticks(*old(self), kb_state@, i as nat),
            decreases ticks - i,
        {
            self.update(kb_state);
            i = i + 1;
        }
        ticks
    }
}

} // verus!
