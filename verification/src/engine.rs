//! Engine-side data types: 2D points, sprite-atlas records, and the
//! fixed-timestep accumulator that decouples simulation rate from the
//! host's display callback rate.

use vstd::prelude::*;

verus! {

use vstd::assert_by_contradiction;
use vstd::string::StringExecFns;

/// Length of one simulation tick in microseconds of game time: one
/// sixtieth of a second, rounded down to a whole microsecond.
pub const FRAME_SIZE_MICROS: u64 = 1000000 / 60;

/// A 2D position or displacement with signed integer components.
#[derive(Clone, Copy, PartialEq, Eq, Structural, Debug)]
pub struct Point {
    pub x: i16,
    pub y: i16,
}

impl Point {
    /// Component-wise addition; each component wraps around on overflow,
    /// so the operation is total.
    pub open spec fn spec_wrapping_add(self, rhs: Point) -> Point {
        Point { x: self.x.wrapping_add(rhs.x), y: self.y.wrapping_add(rhs.y) }
    }

    /// Adds `rhs` component-wise, wrapping each component on overflow.
    pub fn wrapping_add(self, rhs: Point) -> (r: Point)
        ensures
            r == self.spec_wrapping_add(rhs),
    {
        Point { x: self.x.wrapping_add(rhs.x), y: self.y.wrapping_add(rhs.y) }
    }
}

/// A pixel rectangle inside the sprite-sheet image.
#[derive(Clone, Copy, PartialEq, Eq, Structural, Debug)]
pub struct Rect {
    pub x: u16,
    pub y: u16,
    pub w: u16,
    pub h: u16,
}

/// One named card of the sprite sheet: the rectangle it occupies.
#[derive(Clone, Copy, PartialEq, Eq, Structural, Debug)]
pub struct Sprite {
    pub frame: Rect,
}

/// The sprite atlas: a mapping from sprite name to the rectangle the
/// sprite occupies in the sheet image.  It is loaded once at game start
/// and read-only thereafter.
pub struct Sheet {
    frames: Vec<(String, Sprite)>,
}

impl View for Sheet {
    type V = Seq<(String, Sprite)>;

    closed spec fn view(&self) -> Seq<(String, Sprite)> {
        self.frames@
    }
}

impl Sheet {
    /// The sprite stored under `key`: the first entry whose name matches,
    /// or nothing when no entry does.
    pub open spec fn spec_lookup(entries: Seq<(String, Sprite)>, key: Seq<char>) -> Option<
        Sprite,
    >
        decreases entries.len(),
    {
        if entries.len() == 0 {
            None
        } else if entries[0].0@ == key {
            Some(entries[0].1)
        } else {
            Self::spec_lookup(entries.drop_first(), key)
        }
    }

    /// Wraps a loaded name-to-rectangle table.
    pub fn new(frames: Vec<(String, Sprite)>) -> (r: Sheet)
        ensures
            r@ == frames@,
    {
        Sheet { frames }
    }

    /// Looks the name up in the table.  An absent name is a normal
    /// outcome, reported to the caller, not a defect of the lookup.
    pub fn get<'a>(&'a self, key: &str) -> (r: Option<&'a Sprite>)
        ensures
            match r {
                Some(sprite) => Self::spec_lookup(self@, key@) == Some(*sprite),
                None => Self::spec_lookup(self@, key@) is None,
            },
    {
        let needle = String::from_str(key);
        let mut i: usize = 0;
        proof {
            assert(self.frames@.skip(0) =~= self.frames@);
        }
        while i < self.frames.len()
            invariant
                i <= self.frames@.len(),
                needle@ == key@,
                Self::spec_lookup(self.frames@, key@) == Self::spec_lookup(
                    self.frames@.skip(i as int),
                    key@,
                ),
            decreases self.frames@.len() - i,
        {
            proof {
                assert(self.frames@.skip(i as int)[0] == self.frames@[i as int]);
                assert(self.frames@.skip(i as int).drop_first() =~= self.frames@.skip(i + 1));
            }
            if self.frames[i].0 == needle {
                return Some(&self.frames[i].1);
            }
            i = i + 1;
        }
        proof {
            assert(self.frames@.skip(i as int).len() == 0);
        }
        None
    }
}

/// One key occurrence delivered by the host: the key with the given code
/// went down or up.
#[derive(Debug)]
pub enum KeyState {
    Up(String),
    Down(String),
}

/// The held-key set after one occurrence: a key-down inserts the code, a
/// key-up removes it.  A key-up for a code not held is a no-op, and a
/// key-down for a code already held leaves the set unchanged.
pub open spec fn apply_key_event(held: Set<Seq<char>>, event: KeyState) -> Set<Seq<char>> {
    match event {
        KeyState::Down(code) => held.insert(code@),
        KeyState::Up(code) => held.remove(code@),
    }
}

/// The held-key set after a whole queue of occurrences, applied in
/// arrival order.  No occurrence is dropped; only the final held state
/// matters for queries made after the drain.
pub open spec fn apply_key_events(held: Set<Seq<char>>, events: Seq<KeyState>) -> Set<Seq<char>>
    decreases events.len(),
{
    if events.len() == 0 {
        held
    } else {
        apply_key_event(apply_key_events(held, events.drop_last()), events.last())
    }
}

/// The keyboard aggregator: the set of key codes currently held.  A code
/// is stored exactly once, and is present exactly while it is held.
pub struct KeyboardState {
    pressed_keys: Vec<String>,
}

impl View for KeyboardState {
    type V = Set<Seq<char>>;

    closed spec fn view(&self) -> Set<Seq<char>> {
        Set::new(
            |code: Seq<char>|
                exists|i: int|
                    0 <= i < self.pressed_keys@.len() && self.pressed_keys@[i]@ == code,
        )
    }
}

impl KeyboardState {
    /// Each held code is stored once.
    #[verifier::type_invariant]
    spec fn wf(self) -> bool {
        forall|i: int, j: int|
            0 <= i < j < self.pressed_keys@.len()
                ==> self.pressed_keys@[i]@ != self.pressed_keys@[j]@
    }

    /// An aggregator with no key held.
    pub fn new() -> (r: KeyboardState)
        ensures
            r@ == Set::<Seq<char>>::empty(),
    {
        let r = KeyboardState { pressed_keys: Vec::new() };
        proof {
            assert(r@ =~= Set::<Seq<char>>::empty());
        }
        r
    }

    /// Index of the stored entry for `code`, if one exists.
    fn position_of(&self, code: &String) -> (r: Option<usize>)
        ensures
            match r {
                Some(i) => i < self.pressed_keys@.len() && self.pressed_keys@[i as int]@
                    == code@,
                None => forall|i: int|
                    0 <= i < self.pressed_keys@.len() ==> self.pressed_keys@[i]@ != code@,
            },
    {
        let mut i: usize = 0;
        while i < self.pressed_keys.len()
            invariant
                i <= self.pressed_keys@.len(),
                forall|j: int| 0 <= j < i ==> self.pressed_keys@[j]@ != code@,
            decreases self.pressed_keys@.len() - i,
        {
            if self.pressed_keys[i] == *code {
                return Some(i);
            }
            i = i + 1;
        }
        None
    }

    /// Pure query: is the key with this code currently held?
    pub fn is_pressed(&self, code: &str) -> (r: bool)
        ensures
            r == self@.contains(code@),
    {
        let key = String::from_str(code);
        match self.position_of(&key) {
            Some(i) => {
                proof {
                    assert(0 <= i < self.pressed_keys@.len() && self.pressed_keys@[i as int]@
                        == code@);
                }
                true
            },
            None => {
                proof {
                    assert_by_contradiction!(!self@.contains(code@), {
                        let j = choose|j: int|
                            0 <= j < self.pressed_keys@.len()
                                && self.pressed_keys@[j]@ == code@;
                    });
                }
                false
            },
        }
    }

    /// Records a key-down occurrence: the code joins the held set.  If it
    /// is already held the stored entry is simply kept.
    pub fn set_pressed(&mut self, code: &str)
        ensures
            final(self)@ == old(self)@.insert(code@),
    {
        proof {
            use_type_invariant(&*self);
        }
        let key = String::from_str(code);
        match self.position_of(&key) {
            Some(i) => {
                proof {
                    assert(0 <= i < self.pressed_keys@.len() && self.pressed_keys@[i as int]@
                        == code@);
                    assert(self@ =~= old(self)@.insert(code@));
                }
            },
            None => {
                let mut keys: Vec<String> = Vec::new();
                core::mem::swap(&mut keys, &mut self.pressed_keys);
                keys.push(key);
                core::mem::swap(&mut keys, &mut self.pressed_keys);
                proof {
                    let prev = old(self).pressed_keys@;
                    let cur = self.pressed_keys@;
                    assert(cur == prev.push(key));
                    assert forall|c: Seq<char>| old(self)@.insert(code@).contains(c)
                        implies self@.contains(c) by {
                        if c == code@ {
                            assert(cur[prev.len() as int]@ == c);
                        } else {
                            let j = choose|j: int|
                                0 <= j < prev.len() && prev[j]@ == c;
                            assert(cur[j]@ == c);
                        }
                    }
                    assert(self@ =~= old(self)@.insert(code@));
                }
            },
        }
    }

    /// Records a key-up occurrence: the code leaves the held set.  A
    /// key-up for a code not held is a no-op.
    pub fn set_released(&mut self, code: &str)
        ensures
            final(self)@ == old(self)@.remove(code@),
    {
        proof {
            use_type_invariant(&*self);
        }
        let key = String::from_str(code);
        match self.position_of(&key) {
            Some(i) => {
                let mut keys: Vec<String> = Vec::new();
                core::mem::swap(&mut keys, &mut self.pressed_keys);
                keys.remove(i);
                core::mem::swap(&mut keys, &mut self.pressed_keys);
                proof {
                    let prev = old(self).pressed_keys@;
                    let cur = self.pressed_keys@;
                    assert(cur == prev.remove(i as int));
                    assert forall|c: Seq<char>| self@.contains(c)
                        implies old(self)@.remove(code@).contains(c) by {
                        let j = choose|j: int| 0 <= j < cur.len() && cur[j]@ == c;
                        if j < i {
                            assert(prev[j]@ == c);
                        } else {
                            assert(prev[j + 1]@ == c);
                        }
                    }
                    assert forall|c: Seq<char>| old(self)@.remove(code@).contains(c)
                        implies self@.contains(c) by {
                        let j = choose|j: int| 0 <= j < prev.len() && prev[j]@ == c;
                        if j < i {
                            assert(cur[j]@ == c);
                        } else {
                            assert(j != i);
                            assert(cur[j - 1]@ == c);
                        }
                    }
                    assert(self@ =~= old(self)@.remove(code@));
                }
            },
            None => {
                proof {
                    assert_by_contradiction!(!old(self)@.contains(code@), {
                        let j = choose|j: int|
                            0 <= j < self.pressed_keys@.len()
                                && self.pressed_keys@[j]@ == code@;
                    });
                    assert(self@ =~= old(self)@.remove(code@));
                }
            },
        }
    }

    /// Drains one callback's worth of key occurrences into the held set,
    /// applying them in arrival order.
    pub fn process_input(&mut self, events: &Vec<KeyState>)
        ensures
            final(self)@ == apply_key_events(old(self)@, events@),
    {
        let mut i: usize = 0;
        while i < events.len()
            invariant
                i <= events@.len(),
                self@ == apply_key_events(old(self)@, events@.take(i as int)),
            decreases events@.len() - i,
        {
            match &events[i] {
                KeyState::Down(code) => self.set_pressed(code.as_str()),
                KeyState::Up(code) => self.set_released(code.as_str()),
            }
            proof {
                assert(events@.take(i + 1).drop_last() =~= events@.take(i as int));
                assert(events@.take(i + 1).last() == events@[i as int]);
            }
            i = i + 1;
        }
        proof {
            assert(events@.take(events@.len() as int) =~= events@);
        }
    }
}

/// The fixed-timestep accumulator.  `last_frame` is the timestamp of the
/// previous host callback and `accumulated_delta` the simulation debt not
/// yet consumed by whole ticks, both in microseconds.
#[derive(Clone, Copy, PartialEq, Eq, Structural, Debug)]
pub struct GameLoop {
    pub last_frame: u64,
    pub accumulated_delta: u64,
}

/// How many simulation ticks a total debt of `total` microseconds yields:
/// the accumulator is drained by whole frames while it stays strictly
/// above `FRAME_SIZE_MICROS`.
pub open spec fn spec_tick_count(total: int) -> int {
    if total == 0 {
        0
    } else {
        (total - 1) / FRAME_SIZE_MICROS as int
    }
}

impl GameLoop {
    /// Starts the loop at timestamp `now_micros` with no accumulated debt.
    pub fn new(now_micros: u64) -> (r: GameLoop)
        ensures
            r.last_frame == now_micros,
            r.accumulated_delta == 0,
    {
        GameLoop { last_frame: now_micros, accumulated_delta: 0 }
    }

    /// One host callback at timestamp `perf_micros`: adds the elapsed real
    /// time to the debt, then converts the debt into whole simulation
    /// ticks, leaving a remainder of at most one frame.  No time is lost
    /// or double-counted across callback boundaries: the old debt plus the
    /// elapsed time equals the ticks run times the frame length plus the
    /// remaining debt.
    pub fn advance(&mut self, perf_micros: u64) -> (ticks: u64)
        requires
            old(self).last_frame <= perf_micros,
            old(self).accumulated_delta + (perf_micros - old(self).last_frame) <= u64::MAX,
        ensures
            final(self).last_frame == perf_micros,
            final(self).accumulated_delta <= FRAME_SIZE_MICROS,
            ticks * FRAME_SIZE_MICROS + final(self).accumulated_delta
                == old(self).accumulated_delta + (perf_micros - old(self).last_frame),
            ticks > 0 ==> final(self).accumulated_delta > 0,
            ticks == spec_tick_count(
                old(self).accumulated_delta + (perf_micros - old(self).last_frame)),
    {
        let ghost total: int = old(self).accumulated_delta + (perf_micros - old(self).last_frame);
        self.accumulated_delta = self.accumulated_delta + (perf_micros - self.last_frame);
        let mut ticks: u64 = 0;
        while self.accumulated_delta > FRAME_SIZE_MICROS
            invariant
                ticks * FRAME_SIZE_MICROS + self.accumulated_delta == total,
                total <= u64::MAX,
                total > 0 ==> self.accumulated_delta > 0,
                self.last_frame == old(self).last_frame,
            decreases self.accumulated_delta,
        {
            proof {
                assert((ticks + 1) * FRAME_SIZE_MICROS == ticks * FRAME_SIZE_MICROS
                    + FRAME_SIZE_MICROS) by (nonlinear_arith);
                assert(ticks <= ticks * FRAME_SIZE_MICROS) by (nonlinear_arith)
                    requires FRAME_SIZE_MICROS >= 1;
            }
            self.accumulated_delta = self.accumulated_delta - FRAME_SIZE_MICROS;
            ticks = ticks + 1;
        }
        self.last_frame = perf_micros;
        proof {
            if total != 0 {
                vstd::arithmetic::div_mod::lemma_fundamental_div_mod_converse(
                    total - 1,
                    FRAME_SIZE_MICROS as int,
                    ticks as int,
                    total - 1 - ticks * FRAME_SIZE_MICROS as int,
                );
            }
        }
        ticks
    }
}

} // verus!
