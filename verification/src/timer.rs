//! One countdown: its temporal state and the operations on it.
//!
//! Time is counted in whole seconds. A duration is a `u64` number of seconds.
//! An instant is a `u64` number of seconds on the host's monotonic clock,
//! counted from an origin of the host's choosing; the library never reads a
//! clock itself, every operation that needs the current instant takes it as
//! `now`. What the user enters (initial duration, nudge steps) is in minutes
//! and is multiplied by [`BASE_TIME`]. All arithmetic saturates.

use vstd::prelude::*;

verus! {

/// Seconds in one user-facing unit of time (a minute).
pub const BASE_TIME: u64 = 60;

/// Step, in minutes, that a new timer or a new board nudges by.
pub const DEFAULT_STEP: u64 = 10;

/// Minutes that a timer made by `Timer::default` counts down from.
pub const DEFAULT_MINUTES: u64 = 60;

/// The seconds in `minutes` minutes, clamped to `u64::MAX`.
pub open spec fn seconds_in(minutes: u64) -> u64 {
    if minutes * BASE_TIME > u64::MAX {
        u64::MAX
    } else {
        (minutes * BASE_TIME) as u64
    }
}

/// `a + b`, clamped to `u64::MAX`.
pub open spec fn clamped_sum(a: u64, b: u64) -> u64 {
    if a + b > u64::MAX {
        u64::MAX
    } else {
        (a + b) as u64
    }
}

/// `a - b`, clamped to zero.
pub open spec fn clamped_diff(a: u64, b: u64) -> u64 {
    if a < b {
        0
    } else {
        (a - b) as u64
    }
}

/// Converts minutes to seconds, clamping at `u64::MAX`.
pub fn to_seconds(minutes: u64) -> (seconds: u64)
    ensures
        seconds == seconds_in(minutes),
{
    match minutes.checked_mul(BASE_TIME) {
        Some(seconds) => seconds,
        None => u64::MAX,
    }
}

/// The whole minutes and the seconds beyond them in `seconds`, as a clock
/// face shows a time left.
pub fn clock_face(seconds: u64) -> (face: (u64, u64))
    ensures
        face.0 == seconds / BASE_TIME,
        face.1 == seconds % BASE_TIME,
        face.0 * BASE_TIME + face.1 == seconds,
        face.1 < BASE_TIME,
{
    (seconds / BASE_TIME, seconds % BASE_TIME)
}

/// Where a countdown stands: running towards a deadline, or frozen.
#[derive(Clone, Copy, Debug, PartialEq, Eq, Structural)]
pub enum TimerState {
    /// Running; the countdown reaches zero at this instant.
    RunningUntil(u64),
    /// Not advancing; this many seconds are left.
    Paused(u64),
}

impl TimerState {
    /// Seconds left at `now`: the frozen duration, or the distance to the
    /// deadline, zero once the deadline has passed.
    pub open spec fn remaining(self, now: u64) -> u64 {
        match self {
            TimerState::RunningUntil(deadline) => clamped_diff(deadline, now),
            TimerState::Paused(left) => left,
        }
    }

    /// Whether the countdown is frozen.
    pub open spec fn paused(self) -> bool {
        self is Paused
    }

    /// The state with `seconds` more to go, in the same variant.
    pub open spec fn extended(self, seconds: u64) -> TimerState {
        match self {
            TimerState::RunningUntil(deadline) => TimerState::RunningUntil(
                clamped_sum(deadline, seconds),
            ),
            TimerState::Paused(left) => TimerState::Paused(clamped_sum(left, seconds)),
        }
    }

    /// The state with `seconds` less to go, in the same variant. A deadline
    /// may move into the past of any `now`; it never moves before the clock's
    /// origin.
    pub open spec fn shortened(self, seconds: u64) -> TimerState {
        match self {
            TimerState::RunningUntil(deadline) => TimerState::RunningUntil(
                clamped_diff(deadline, seconds),
            ),
            TimerState::Paused(left) => TimerState::Paused(clamped_diff(left, seconds)),
        }
    }

    /// The state with exactly `seconds` to go at `now`, in the same variant.
    pub open spec fn reset(self, seconds: u64, now: u64) -> TimerState {
        match self {
            TimerState::RunningUntil(_) => TimerState::RunningUntil(clamped_sum(now, seconds)),
            TimerState::Paused(_) => TimerState::Paused(seconds),
        }
    }

    /// A paused state set running at `now`; a running state as it is.
    pub open spec fn started(self, now: u64) -> TimerState {
        match self {
            TimerState::RunningUntil(deadline) => self,
            TimerState::Paused(left) => TimerState::RunningUntil(clamped_sum(now, left)),
        }
    }

    /// The state frozen at `now`: paused with what is left at that instant.
    /// This is the form in which a state is stored, since a deadline means
    /// nothing to another process.
    pub open spec fn frozen(self, now: u64) -> TimerState {
        TimerState::Paused(self.remaining(now))
    }

    /// Seconds left at `now`; never negative, zero once a deadline has passed.
    pub fn time_remaining(&self, now: u64) -> (left: u64)
        ensures
            left == self.remaining(now),
            self matches TimerState::Paused(d) ==> left == d,
            self matches TimerState::RunningUntil(deadline) ==> left == if deadline > now {
                deadline - now
            } else {
                0
            },
    {
        match *self {
            TimerState::RunningUntil(deadline) => deadline.saturating_sub(now),
            TimerState::Paused(left) => left,
        }
    }

    /// Whether the countdown is frozen.
    pub fn is_paused(&self) -> (p: bool)
        ensures
            p == self.paused(),
            p == (self is Paused),
    {
        match *self {
            TimerState::RunningUntil(_) => false,
            TimerState::Paused(_) => true,
        }
    }
}

impl From<u64> for TimerState {
    /// A stored duration comes back as a paused state.
    fn from(seconds: u64) -> (state: TimerState) {
        TimerState::Paused(seconds)
    }
}

impl vstd::std_specs::convert::FromSpecImpl<u64> for TimerState {
    open spec fn obeys_from_spec() -> bool {
        true
    }

    open spec fn from_spec(seconds: u64) -> TimerState {
        TimerState::Paused(seconds)
    }
}

/// What a `Timer` is to the contracts: its fields, the name as a sequence of
/// characters.
pub struct TimerView {
    pub name: Seq<char>,
    pub state: TimerState,
    /// The step, in minutes, by which this timer's own controls nudge it.
    pub displayed_time: u64,
    pub local_pause: bool,
    pub id: u32,
    pub played_sound: bool,
}

impl TimerView {
    /// The timer that `Timer::new` makes.
    pub open spec fn fresh(name: Seq<char>, minutes: u64, id: u32) -> TimerView {
        TimerView {
            name,
            state: TimerState::Paused(seconds_in(minutes)),
            displayed_time: DEFAULT_STEP,
            local_pause: false,
            id,
            played_sound: false,
        }
    }

    /// The same timer in another state.
    pub open spec fn with_state(self, state: TimerState) -> TimerView {
        TimerView { state, ..self }
    }

    /// Seconds left at `now`.
    pub open spec fn remaining(self, now: u64) -> u64 {
        self.state.remaining(now)
    }

    /// Whether the timer is paused, by the board or on its own.
    pub open spec fn paused(self) -> bool {
        self.state.paused()
    }

    /// Done means that nothing is left.
    pub open spec fn done(self, now: u64) -> bool {
        self.remaining(now) == 0
    }

    /// The timer with `minutes` minutes more to go.
    pub open spec fn add_time(self, minutes: u64) -> TimerView {
        self.with_state(self.state.extended(seconds_in(minutes)))
    }

    /// The timer with `minutes` minutes less to go.
    pub open spec fn remove_time(self, minutes: u64) -> TimerView {
        self.with_state(self.state.shortened(seconds_in(minutes)))
    }

    /// The timer with `minutes` minutes to go at `now`.
    pub open spec fn set_time(self, minutes: u64, now: u64) -> TimerView {
        self.with_state(self.state.reset(seconds_in(minutes), now))
    }

    /// The timer set running at `now`, if it was paused.
    pub open spec fn start(self, now: u64) -> TimerView {
        self.with_state(self.state.started(now))
    }

    /// The timer paused with `time_left` seconds to go.
    pub open spec fn pause(self, time_left: u64) -> TimerView {
        self.with_state(TimerState::Paused(time_left))
    }

    /// Paused with what is left at `now`.
    pub open spec fn freeze(self, now: u64) -> TimerView {
        self.with_state(self.state.frozen(now))
    }

    /// The timer after its own "more time" control was used at `now`: its
    /// step is added, and if that gave a done timer time again, the cue is
    /// armed again.
    pub open spec fn add_step(self, now: u64) -> TimerView {
        let longer = self.add_time(self.displayed_time);
        if self.done(now) && !longer.done(now) {
            TimerView { played_sound: false, ..longer }
        } else {
            longer
        }
    }

    /// The timer after its own "less time" control was used.
    pub open spec fn remove_step(self) -> TimerView {
        self.remove_time(self.displayed_time)
    }

    /// The timer after its own "set" control was used at `now`.
    pub open spec fn set_to_step(self, now: u64) -> TimerView {
        self.set_time(self.displayed_time, now)
    }

    /// The timer after its local pause was flipped at `now` on a board whose
    /// global flag is `running`. Switched on, the timer is paused with what
    /// is left. Switched off, it starts if the board is running.
    pub open spec fn toggle_local_pause(self, running: bool, now: u64) -> TimerView {
        if self.local_pause {
            if running {
                TimerView { local_pause: false, ..self.start(now) }
            } else {
                TimerView { local_pause: false, ..self }
            }
        } else {
            TimerView { local_pause: true, ..self.freeze(now) }
        }
    }

    /// Whether looking at the timer at `now` fires the completion cue: it is
    /// done and has not fired since it was last not done.
    pub open spec fn fires(self, now: u64) -> bool {
        self.done(now) && !self.played_sound
    }

    /// The timer after it was looked at at `now`: the flag records whether it
    /// is done.
    pub open spec fn observed(self, now: u64) -> TimerView {
        TimerView { played_sound: self.done(now), ..self }
    }
}

/// One countdown with its name, its own nudge step and its flags.
#[derive(Debug)]
pub struct Timer {
    /// Free text shown beside the countdown.
    pub name: String,
    pub state: TimerState,
    /// The step, in minutes, by which this timer's own controls nudge it.
    pub displayed_time: u64,
    /// Set while the timer is paused on its own, apart from the board.
    pub local_pause: bool,
    /// The timer's identity on its board.
    pub id: u32,
    /// Set once the completion cue has fired, until the timer is seen with
    /// time left again.
    pub played_sound: bool,
}

impl View for Timer {
    type V = TimerView;

    open spec fn view(&self) -> TimerView {
        TimerView {
            name: self.name@,
            state: self.state,
            displayed_time: self.displayed_time,
            local_pause: self.local_pause,
            id: self.id,
            played_sound: self.played_sound,
        }
    }
}

impl Timer {
    /// A paused timer with `duration` minutes to go.
    pub fn new(name: String, duration: u64, id: u32) -> (timer: Timer)
        ensures
            timer@ == TimerView::fresh(name@, duration, id),
            timer.name == name,
    {
        Timer {
            name,
            state: TimerState::Paused(to_seconds(duration)),
            displayed_time: DEFAULT_STEP,
            local_pause: false,
            played_sound: false,
            id,
        }
    }

    /// Takes `removal_time` minutes off, stopping at zero when paused and at
    /// the clock's origin when running.
    pub fn remove_time(&mut self, removal_time: u64)
        ensures
            final(self)@ == old(self)@.remove_time(removal_time),
            old(self).state matches TimerState::Paused(d) ==> final(self).state
                == TimerState::Paused(
                if d - removal_time * BASE_TIME > 0 {
                    (d - removal_time * BASE_TIME) as u64
                } else {
                    0
                },
            ),
    {
        let d: u64 = to_seconds(removal_time);
        match &mut self.state {
            TimerState::RunningUntil(end) => *end = end.saturating_sub(d),
            TimerState::Paused(duration) => *duration = duration.saturating_sub(d),
        }
    }

    /// Puts `added_time` minutes on, stopping at `u64::MAX` seconds.
    pub fn add_time(&mut self, added_time: u64)
        ensures
            final(self)@ == old(self)@.add_time(added_time),
    {
        let d: u64 = to_seconds(added_time);
        match &mut self.state {
            TimerState::RunningUntil(end) => *end = end.saturating_add(d),
            TimerState::Paused(duration) => *duration = duration.saturating_add(d),
        }
    }

    /// Makes the time left at `now` exactly `time` minutes, whether the timer
    /// runs or not.
    pub fn set_time(&mut self, time: u64, now: u64)
        ensures
            final(self)@ == old(self)@.set_time(time, now),
    {
        let d: u64 = to_seconds(time);
        match &mut self.state {
            TimerState::RunningUntil(end) => *end = now.saturating_add(d),
            TimerState::Paused(duration) => *duration = d,
        }
    }

    /// Seconds left at `now`; never negative, zero once a deadline has passed.
    pub fn time_remaining(&self, now: u64) -> (left: u64)
        ensures
            left == self@.remaining(now),
            self.state matches TimerState::Paused(d) ==> left == d,
            self.state matches TimerState::RunningUntil(deadline) ==> left == if deadline > now {
                deadline - now
            } else {
                0
            },
    {
        self.state.time_remaining(now)
    }

    /// Whether the timer is paused, by the board or on its own.
    pub fn is_paused(&self) -> (p: bool)
        ensures
            p == self@.paused(),
            p == (self.state is Paused),
    {
        self.state.is_paused()
    }

    /// Whether nothing is left at `now`.
    pub fn is_done(&self, now: u64) -> (done: bool)
        ensures
            done == self@.done(now),
    {
        self.state.time_remaining(now) == 0
    }

    /// Sets a paused timer running at `now`; leaves a running one alone.
    pub fn start(&mut self, now: u64)
        ensures
            final(self)@ == old(self)@.start(now),
            old(self).state is RunningUntil ==> *final(self) == *old(self),
    {
        if let TimerState::Paused(duration) = self.state {
            self.state = TimerState::RunningUntil(now.saturating_add(duration));
        }
    }

    /// Pauses the timer with `time_left` seconds to go, whatever it was doing.
    pub fn pause(&mut self, time_left: u64)
        ensures
            final(self)@ == old(self)@.pause(time_left),
    {
        self.state = TimerState::Paused(time_left);
    }

    /// The timer's own "more time" control: adds its step and, if that gave
    /// a done timer time again, arms the completion cue again.
    pub fn add_step(&mut self, now: u64)
        ensures
            final(self)@ == old(self)@.add_step(now),
    {
        let was_done: bool = self.is_done(now);
        self.add_time(self.displayed_time);
        if was_done && !self.is_done(now) {
            self.played_sound = false;
        }
    }

    /// The timer's own "less time" control: takes its step off.
    pub fn remove_step(&mut self)
        ensures
            final(self)@ == old(self)@.remove_step(),
    {
        self.remove_time(self.displayed_time);
    }

    /// The timer's own "set" control: makes the time left at `now` its step.
    pub fn set_to_step(&mut self, now: u64)
        ensures
            final(self)@ == old(self)@.set_to_step(now),
    {
        self.set_time(self.displayed_time, now);
    }

    /// Flips the local pause at `now`, on a board whose global flag is
    /// `running`. Switching it on pauses the timer with what is left at
    /// `now`. Switching it off starts the timer if the board is running.
    pub fn toggle_local_pause(&mut self, running: bool, now: u64)
        ensures
            final(self)@ == old(self)@.toggle_local_pause(running, now),
    {
        if self.local_pause {
            if running {
                self.start(now);
            }
            self.local_pause = false;
        } else {
            let time_left: u64 = self.time_remaining(now);
            self.pause(time_left);
            self.local_pause = true;
        }
    }

    /// Looks at the timer at `now` on behalf of the completion cue. Returns
    /// whether the cue is to fire: the timer is done and has not fired since
    /// it last had time left. The flag is set while the timer is done and
    /// cleared as soon as it is seen with time left.
    pub fn observe(&mut self, now: u64) -> (cue: bool)
        ensures
            cue == old(self)@.fires(now),
            final(self)@ == old(self)@.observed(now),
    {
        let done: bool = self.state.time_remaining(now) == 0;
        let cue: bool = done && !self.played_sound;
        self.played_sound = done;
        cue
    }
}

impl Clone for Timer {
    fn clone(&self) -> (copy: Timer)
        ensures
            copy == *self,
    {
        Timer {
            name: self.name.clone(),
            state: self.state,
            displayed_time: self.displayed_time,
            local_pause: self.local_pause,
            id: self.id,
            played_sound: self.played_sound,
        }
    }
}

impl Default for Timer {
    /// A nameless paused timer of `DEFAULT_MINUTES` minutes with identity 0.
    fn default() -> (timer: Timer)
        ensures
            timer@ == TimerView::fresh(Seq::<char>::empty(), DEFAULT_MINUTES, 0),
    {
        Timer::new(String::new(), DEFAULT_MINUTES, 0)
    }
}

} // verus!
