//! The board: an ordered collection of timers under one global run/pause
//! control, with a template for new timers and a step for bulk nudges.
//!
//! A timer is addressed by its identity. Identities are handed out by a
//! counter that wraps around, so nothing rules out that two rows carry the
//! same one: an operation "on the timer with identity `id`" is an operation
//! on every row that carries `id`.

use crate::saved::{restore_each, save_each, BoardState};
use crate::timer::{Timer, TimerView, DEFAULT_MINUTES, DEFAULT_STEP};
use vstd::prelude::*;

verus! {

/// The views of a sequence of timers, in order.
pub open spec fn views(timers: Seq<Timer>) -> Seq<TimerView> {
    timers.map_values(|t: Timer| t@)
}

/// The identity handed out after `id`.
pub open spec fn next_identity(id: u32) -> u32 {
    if id == u32::MAX {
        0
    } else {
        (id + 1) as u32
    }
}

/// What a `TimerBoard` is to the contracts.
pub struct BoardView {
    /// The rows, top to bottom.
    pub timers: Seq<TimerView>,
    /// Minutes that a timer spawned from the template starts with.
    pub start_duration: u64,
    /// The step, in minutes, of the bulk nudges.
    pub displayed_time: u64,
    /// Name that a timer spawned from the template starts with.
    pub new_name: Seq<char>,
    /// The identity that the next spawned timer gets.
    pub next_timer_id: u32,
    /// Whether "start" was pressed more recently than "pause".
    pub running: bool,
}

impl BoardView {
    /// The flags and the states agree: a timer runs only while the board
    /// runs and the timer is not paused on its own.
    pub open spec fn coherent(self) -> bool {
        forall|i: int|
            0 <= i < self.timers.len() && (#[trigger] self.timers[i]).state is RunningUntil
                ==> self.running && !self.timers[i].local_pause
    }

    /// The board with every timer that `hit` selects replaced by what
    /// `change` makes of it; order, length and settings stay.
    pub open spec fn change_where(
        self,
        hit: spec_fn(TimerView) -> bool,
        change: spec_fn(TimerView) -> TimerView,
    ) -> BoardView {
        BoardView {
            timers: self.timers.map_values(
                |t: TimerView|
                    if hit(t) {
                        change(t)
                    } else {
                        t
                    },
            ),
            ..self
        }
    }

    /// The timer that `spawn_timer` makes at `now`: fresh, with the next
    /// identity, and started if the board runs.
    pub open spec fn newcomer(self, name: Seq<char>, minutes: u64, now: u64) -> TimerView {
        let fresh = TimerView::fresh(name, minutes, self.next_timer_id);
        if self.running {
            fresh.start(now)
        } else {
            fresh
        }
    }

    /// Where a timer spawned at `index` lands: there, or at the end if
    /// `index` is past it.
    pub open spec fn landing(self, index: int) -> int {
        if index < self.timers.len() {
            index
        } else {
            self.timers.len() as int
        }
    }

    /// The board with a new timer put in at row `index`; the rows from there
    /// on move down by one.
    pub open spec fn spawn_timer(self, name: Seq<char>, minutes: u64, index: int, now: u64)
        -> BoardView {
        BoardView {
            timers: self.timers.insert(self.landing(index), self.newcomer(name, minutes, now)),
            next_timer_id: next_identity(self.next_timer_id),
            ..self
        }
    }

    /// The board with a new timer made from the template put in at row
    /// `index`.
    pub open spec fn spawn_from_template(self, index: int, now: u64) -> BoardView {
        self.spawn_timer(self.new_name, self.start_duration, index, now)
    }

    /// The board without the rows that carry `id`; the others keep their
    /// order.
    pub open spec fn remove_timer(self, id: u32) -> BoardView {
        BoardView { timers: self.timers.filter(|t: TimerView| t.id != id), ..self }
    }

    /// The board with `minutes` minutes added to every timer that is not
    /// paused on its own.
    pub open spec fn bulk_add(self, minutes: u64) -> BoardView {
        self.change_where(|t: TimerView| !t.local_pause, |t: TimerView| t.add_time(minutes))
    }

    /// The board with `minutes` minutes taken off every timer that is not
    /// paused on its own.
    pub open spec fn bulk_remove(self, minutes: u64) -> BoardView {
        self.change_where(|t: TimerView| !t.local_pause, |t: TimerView| t.remove_time(minutes))
    }

    /// The board after "start" at `now`: every paused timer that is not
    /// paused on its own runs, and the flag is set.
    pub open spec fn global_start(self, now: u64) -> BoardView {
        BoardView {
            running: true,
            ..self.change_where(
                |t: TimerView| t.paused() && !t.local_pause,
                |t: TimerView| t.start(now),
            )
        }
    }

    /// The board after "pause" at `now`: every running timer is paused with
    /// what it has left, and the flag is cleared.
    pub open spec fn global_pause(self, now: u64) -> BoardView {
        BoardView {
            running: false,
            ..self.change_where(|t: TimerView| !t.paused(), |t: TimerView| t.freeze(now))
        }
    }

    /// The board after the local pause of the timer with identity `id` was
    /// flipped at `now`.
    pub open spec fn toggle_local_pause(self, id: u32, now: u64) -> BoardView {
        self.change_where(
            |t: TimerView| t.id == id,
            |t: TimerView| t.toggle_local_pause(self.running, now),
        )
    }

    /// The board after the timer with identity `id` was given its own step
    /// more.
    pub open spec fn add_step(self, id: u32, now: u64) -> BoardView {
        self.change_where(|t: TimerView| t.id == id, |t: TimerView| t.add_step(now))
    }

    /// The board after the timer with identity `id` had its own step taken
    /// off.
    pub open spec fn remove_step(self, id: u32) -> BoardView {
        self.change_where(|t: TimerView| t.id == id, |t: TimerView| t.remove_step())
    }

    /// The board after the timer with identity `id` was set to its own step.
    pub open spec fn set_to_step(self, id: u32, now: u64) -> BoardView {
        self.change_where(|t: TimerView| t.id == id, |t: TimerView| t.set_to_step(now))
    }

    /// The board with the timer with identity `id` named `name`.
    pub open spec fn rename_timer(self, id: u32, name: Seq<char>) -> BoardView {
        self.change_where(|t: TimerView| t.id == id, |t: TimerView| TimerView { name, ..t })
    }

    /// The board with the step of the timer with identity `id` made
    /// `minutes`.
    pub open spec fn set_timer_step(self, id: u32, minutes: u64) -> BoardView {
        self.change_where(
            |t: TimerView| t.id == id,
            |t: TimerView| TimerView { displayed_time: minutes, ..t },
        )
    }

    /// The board after every timer was looked at at `now`.
    pub open spec fn tick(self, now: u64) -> BoardView {
        self.change_where(|t: TimerView| true, |t: TimerView| t.observed(now))
    }

    /// Whether some row carries `id`.
    pub open spec fn carries(self, id: u32) -> bool {
        exists|i: int| 0 <= i < self.timers.len() && (#[trigger] self.timers[i]).id == id
    }

    /// Whether no two rows carry the same identity.
    pub open spec fn distinct_identities(self) -> bool {
        forall|i: int, j: int|
            0 <= i < j < self.timers.len() ==> (#[trigger] self.timers[i]).id != (
            #[trigger] self.timers[j]).id
    }

    /// Whether row `i` is the first row that carries `id`.
    pub open spec fn first_with(self, id: u32, i: int) -> bool {
        &&& 0 <= i < self.timers.len()
        &&& self.timers[i].id == id
        &&& forall|j: int| 0 <= j < i ==> (#[trigger] self.timers[j]).id != id
    }

    /// The first row that carries `id`, if any does.
    pub open spec fn position_of(self, id: u32) -> Option<int> {
        if exists|i: int| self.first_with(id, i) {
            Some(choose|i: int| self.first_with(id, i))
        } else {
            None
        }
    }

    /// How many timers fire their completion cue when looked at at `now`.
    pub open spec fn cues(self, now: u64) -> nat {
        self.timers.filter(|t: TimerView| t.fires(now)).len()
    }
}

/// Which timers a pass over the rows changes.
enum Target {
    /// Those not paused on their own.
    Unlocked,
    /// Those paused, but not on their own.
    Startable,
    /// Those running.
    Running,
    /// Those with this identity.
    WithId(u32),
}

impl Target {
    spec fn hits(self, t: TimerView) -> bool {
        match self {
            Target::Unlocked => !t.local_pause,
            Target::Startable => t.paused() && !t.local_pause,
            Target::Running => !t.paused(),
            Target::WithId(id) => t.id == id,
        }
    }

    fn selects(&self, timer: &Timer) -> (hit: bool)
        ensures
            hit == self.hits(timer@),
    {
        match self {
            Target::Unlocked => !timer.local_pause,
            Target::Startable => timer.is_paused() && !timer.local_pause,
            Target::Running => !timer.is_paused(),
            Target::WithId(id) => timer.id == *id,
        }
    }
}

/// What a pass over the rows does to the timers it changes.
enum Change {
    AddTime(u64),
    RemoveTime(u64),
    Start { now: u64 },
    Freeze { now: u64 },
    ToggleLocalPause { running: bool, now: u64 },
    AddStep { now: u64 },
    RemoveStep,
    SetToStep { now: u64 },
    Rename(String),
    SetStep(u64),
}

impl Change {
    spec fn applied(self, t: TimerView) -> TimerView {
        match self {
            Change::AddTime(minutes) => t.add_time(minutes),
            Change::RemoveTime(minutes) => t.remove_time(minutes),
            Change::Start { now } => t.start(now),
            Change::Freeze { now } => t.freeze(now),
            Change::ToggleLocalPause { running, now } => t.toggle_local_pause(running, now),
            Change::AddStep { now } => t.add_step(now),
            Change::RemoveStep => t.remove_step(),
            Change::SetToStep { now } => t.set_to_step(now),
            Change::Rename(name) => TimerView { name: name@, ..t },
            Change::SetStep(minutes) => TimerView { displayed_time: minutes, ..t },
        }
    }

    fn apply(&self, timer: &mut Timer)
        ensures
            final(timer)@ == self.applied(old(timer)@),
    {
        match self {
            Change::AddTime(minutes) => timer.add_time(*minutes),
            Change::RemoveTime(minutes) => timer.remove_time(*minutes),
            Change::Start { now } => timer.start(*now),
            Change::Freeze { now } => {
                let time_left: u64 = timer.time_remaining(*now);
                timer.pause(time_left);
            },
            Change::ToggleLocalPause { running, now } => timer.toggle_local_pause(*running, *now),
            Change::AddStep { now } => timer.add_step(*now),
            Change::RemoveStep => timer.remove_step(),
            Change::SetToStep { now } => timer.set_to_step(*now),
            Change::Rename(name) => {
                timer.name = name.clone();
            },
            Change::SetStep(minutes) => {
                timer.displayed_time = *minutes;
            },
        }
    }
}

/// Applies `change` to every timer that `target` selects.
fn change_each(timers: &mut Vec<Timer>, target: &Target, change: &Change)
    ensures
        views(final(timers)@) == views(old(timers)@).map_values(
            |t: TimerView|
                if target.hits(t) {
                    change.applied(t)
                } else {
                    t
                },
        ),
{
    let ghost before = views(timers@);
    let mut i: usize = 0;
    while i < timers.len()
        invariant
            i <= timers@.len(),
            timers@.len() == before.len(),
            forall|j: int|
                0 <= j < i ==> #[trigger] timers@[j]@ == if target.hits(before[j]) {
                    change.applied(before[j])
                } else {
                    before[j]
                },
            forall|j: int| i <= j < timers@.len() ==> #[trigger] timers@[j]@ == before[j],
        decreases timers.len() - i,
    {
        if target.selects(&timers[i]) {
            change.apply(&mut timers[i]);
        }
        i += 1;
    }
    assert(views(timers@) =~= before.map_values(
        |t: TimerView|
            if target.hits(t) {
                change.applied(t)
            } else {
                t
            },
    ));
}

/// Looks at every timer at `now`; returns how many fire their cue.
fn observe_each(timers: &mut Vec<Timer>, now: u64) -> (cues: usize)
    ensures
        views(final(timers)@) == views(old(timers)@).map_values(|t: TimerView| t.observed(now)),
        cues == views(old(timers)@).filter(|t: TimerView| t.fires(now)).len(),
{
    let ghost before = views(timers@);
    let ghost fires = |t: TimerView| t.fires(now);
    let mut cues: usize = 0;
    let mut i: usize = 0;
    while i < timers.len()
        invariant
            i <= timers@.len(),
            timers@.len() == before.len(),
            fires == |t: TimerView| t.fires(now),
            cues == before.take(i as int).filter(fires).len(),
            cues <= i,
            forall|j: int| 0 <= j < i ==> #[trigger] timers@[j]@ == before[j].observed(now),
            forall|j: int| i <= j < timers@.len() ==> #[trigger] timers@[j]@ == before[j],
        decreases timers.len() - i,
    {
        proof {
            before.take(i as int).lemma_filter_push(before[i as int], fires);
            assert(before.take(i as int).push(before[i as int]) =~= before.take(i + 1));
        }
        if timers[i].observe(now) {
            cues += 1;
        }
        i += 1;
    }
    assert(before.take(i as int) =~= before);
    cues
}

/// Takes out every timer with identity `id`; the others keep their order.
fn drop_with_id(timers: &mut Vec<Timer>, id: u32)
    ensures
        views(final(timers)@) == views(old(timers)@).filter(|t: TimerView| t.id != id),
{
    let ghost before = views(timers@);
    let ghost keeps = |t: TimerView| t.id != id;
    let ghost mut seen: int = 0;
    let mut i: usize = 0;
    while i < timers.len()
        invariant
            keeps == |t: TimerView| t.id != id,
            0 <= seen <= before.len(),
            i <= timers@.len(),
            timers@.len() - i == before.len() - seen,
            views(timers@).take(i as int) == before.take(seen).filter(keeps),
            views(timers@).skip(i as int) == before.skip(seen),
        decreases timers.len() - i,
    {
        let ghost rows = views(timers@);
        proof {
            assert(rows[i as int] == rows.skip(i as int)[0]);
            before.take(seen).lemma_filter_push(before[seen], keeps);
            assert(before.take(seen).push(before[seen]) =~= before.take(seen + 1));
        }
        if timers[i].id == id {
            timers.remove(i);
            proof {
                assert(views(timers@).skip(i as int) =~= rows.skip(i as int).skip(1));
            }
        } else {
            proof {
                assert(rows.skip(i + 1) =~= rows.skip(i as int).skip(1));
            }
            i += 1;
        }
        proof {
            seen = seen + 1;
        }
    }
    assert(before.take(seen) =~= before);
}

/// The first row that carries `id`, if any does.
fn first_with_id(timers: &Vec<Timer>, id: u32) -> (found: Option<usize>)
    ensures
        match found {
            Some(i) => i < timers@.len() && timers@[i as int].id == id && forall|j: int|
                0 <= j < i ==> (#[trigger] timers@[j]).id != id,
            None => forall|j: int| 0 <= j < timers@.len() ==> (#[trigger] timers@[j]).id != id,
        },
{
    let mut i: usize = 0;
    while i < timers.len()
        invariant
            i <= timers@.len(),
            forall|j: int| 0 <= j < i ==> (#[trigger] timers@[j]).id != id,
        decreases timers.len() - i,
    {
        if timers[i].id == id {
            return Some(i);
        }
        i += 1;
    }
    None
}

/// Name of the template of a board made by `TimerBoard::new`.
pub const DEFAULT_NAME: &'static str = "torch";

impl BoardView {
    /// The board that `TimerBoard::new` makes: one paused timer from the
    /// default template, not running.
    pub open spec fn initial() -> BoardView {
        BoardView {
            timers: seq![TimerView::fresh(DEFAULT_NAME@, DEFAULT_MINUTES, 0)],
            start_duration: DEFAULT_MINUTES,
            displayed_time: DEFAULT_STEP,
            new_name: DEFAULT_NAME@,
            next_timer_id: 1,
            running: false,
        }
    }
}

/// Seconds after which the host is to look at the board again at the latest,
/// so that what it shows of running timers stays current.
pub const TICK_SECONDS: u64 = 1;

/// An ordered collection of timers with global controls. Its flags and its
/// timers' states always agree (`BoardView::coherent`).
#[derive(Debug)]
pub struct TimerBoard {
    timers: Vec<Timer>,
    start_duration: u64,
    displayed_time: u64,
    new_name: String,
    next_timer_id: u32,
    running: bool,
}

impl View for TimerBoard {
    type V = BoardView;

    closed spec fn view(&self) -> BoardView {
        BoardView {
            timers: views(self.timers@),
            start_duration: self.start_duration,
            displayed_time: self.displayed_time,
            new_name: self.new_name@,
            next_timer_id: self.next_timer_id,
            running: self.running,
        }
    }
}

impl TimerBoard {
    /// Holds of every board at all times: the flags and the states agree.
    #[verifier::type_invariant]
    pub(crate) open spec fn inv(self) -> bool {
        self@.coherent()
    }

    /// A board with one paused timer made from the default template.
    pub fn new() -> (board: TimerBoard)
        ensures
            board@ == BoardView::initial(),
            board@.coherent(),
    {
        let mut timers: Vec<Timer> = Vec::new();
        timers.push(Timer::new(DEFAULT_NAME.to_owned(), DEFAULT_MINUTES, 0));
        let board = TimerBoard {
            timers,
            start_duration: DEFAULT_MINUTES,
            displayed_time: DEFAULT_STEP,
            new_name: DEFAULT_NAME.to_owned(),
            next_timer_id: 1,
            running: false,
        };
        assert(board@.timers =~= BoardView::initial().timers);
        board
    }

    /// The rows, top to bottom.
    pub fn timers(&self) -> (rows: &Vec<Timer>)
        ensures
            views(rows@) == self@.timers,
            self@.coherent(),
    {
        proof {
            use_type_invariant(self);
        }
        &self.timers
    }

    /// Whether "start" was pressed more recently than "pause".
    pub fn is_running(&self) -> (running: bool)
        ensures
            running == self@.running,
    {
        self.running
    }

    /// Minutes that a timer spawned from the template starts with.
    pub fn start_duration(&self) -> (minutes: u64)
        ensures
            minutes == self@.start_duration,
    {
        self.start_duration
    }

    /// The step, in minutes, of the bulk nudges.
    pub fn displayed_time(&self) -> (minutes: u64)
        ensures
            minutes == self@.displayed_time,
    {
        self.displayed_time
    }

    /// Name that a timer spawned from the template starts with.
    pub fn new_name(&self) -> (name: &String)
        ensures
            name@ == self@.new_name,
    {
        &self.new_name
    }

    /// The identity that the next spawned timer gets.
    pub fn next_timer_id(&self) -> (id: u32)
        ensures
            id == self@.next_timer_id,
    {
        self.next_timer_id
    }

    /// Changes the minutes that a timer spawned from the template starts
    /// with.
    pub fn set_start_duration(&mut self, minutes: u64)
        ensures
            final(self)@ == (BoardView { start_duration: minutes, ..old(self)@ }),
            final(self)@.coherent(),
    {
        proof {
            use_type_invariant(&*self);
        }
        self.start_duration = minutes;
    }

    /// Changes the step of the bulk nudges.
    pub fn set_displayed_time(&mut self, minutes: u64)
        ensures
            final(self)@ == (BoardView { displayed_time: minutes, ..old(self)@ }),
            final(self)@.coherent(),
    {
        proof {
            use_type_invariant(&*self);
        }
        self.displayed_time = minutes;
    }

    /// Changes the name that a timer spawned from the template starts with.
    pub fn set_new_name(&mut self, name: String)
        ensures
            final(self)@ == (BoardView { new_name: name@, ..old(self)@ }),
            final(self)@.coherent(),
    {
        proof {
            use_type_invariant(&*self);
        }
        self.new_name = name;
    }

    /// Moves the rows out, leaving none.
    fn take_timers(&mut self) -> (timers: Vec<Timer>)
        ensures
            timers == old(self).timers,
            final(self).timers@.len() == 0,
            final(self).start_duration == old(self).start_duration,
            final(self).displayed_time == old(self).displayed_time,
            final(self).new_name == old(self).new_name,
            final(self).next_timer_id == old(self).next_timer_id,
            final(self).running == old(self).running,
    {
        let mut timers: Vec<Timer> = Vec::new();
        std::mem::swap(&mut timers, &mut self.timers);
        timers
    }

    /// Applies `change` to every timer that `target` selects.
    fn change(&mut self, target: Target, change: Change)
        requires
            forall|t: TimerView|
                target.hits(t) && (t.state is RunningUntil ==> old(self)@.running
                    && !t.local_pause) ==> ((#[trigger] change.applied(t)).state is RunningUntil
                    ==> old(self)@.running && !change.applied(t).local_pause),
        ensures
            final(self)@ == old(self)@.change_where(
                |t: TimerView| target.hits(t),
                |t: TimerView| change.applied(t),
            ),
            final(self)@.coherent(),
    {
        proof {
            use_type_invariant(&*self);
        }
        let mut timers = self.take_timers();
        change_each(&mut timers, &target, &change);
        self.timers = timers;
        assert(self@.timers =~= old(self)@.change_where(
            |t: TimerView| target.hits(t),
            |t: TimerView| change.applied(t),
        ).timers);
    }

    /// Makes a timer of `duration` minutes named `name` with the next
    /// identity, starts it at `now` if the board is running, and puts it in
    /// at row `index`, or at the end if `index` is past the end. Returns the
    /// timer's identity. The identity counter wraps around.
    pub fn spawn_timer(&mut self, name: String, duration: u64, index: usize, now: u64) -> (id:
        u32)
        ensures
            final(self)@ == old(self)@.spawn_timer(name@, duration, index as int, now),
            id == old(self)@.next_timer_id,
            final(self)@.coherent(),
    {
        proof {
            use_type_invariant(&*self);
        }
        let id: u32 = self.next_timer_id;
        let mut timer = Timer::new(name, duration, id);
        if self.running {
            timer.start(now);
        }
        let mut timers = self.take_timers();
        let at: usize = if index < timers.len() {
            index
        } else {
            timers.len()
        };
        let ghost rows = views(timers@);
        timers.insert(at, timer);
        assert(views(timers@) =~= rows.insert(at as int, timer@));
        self.next_timer_id = id.wrapping_add(1);
        self.timers = timers;
        id
    }

    /// Makes a timer from the template and puts it in at row `index`, as
    /// `spawn_timer` does.
    pub fn spawn_from_template(&mut self, index: usize, now: u64) -> (id: u32)
        ensures
            final(self)@ == old(self)@.spawn_from_template(index as int, now),
            id == old(self)@.next_timer_id,
            final(self)@.coherent(),
    {
        let name = self.new_name.clone();
        self.spawn_timer(name, self.start_duration, index, now)
    }

    /// Removes the timer with identity `id`; does nothing if there is none.
    pub fn remove_timer(&mut self, id: u32)
        ensures
            final(self)@ == old(self)@.remove_timer(id),
            final(self)@.coherent(),
    {
        proof {
            use_type_invariant(&*self);
        }
        let mut timers = self.take_timers();
        let ghost rows = views(timers@);
        drop_with_id(&mut timers, id);
        proof {
            let kept = rows.filter(|t: TimerView| t.id != id);
            assert forall|i: int| 0 <= i < kept.len() implies rows.contains(#[trigger] kept[i]) by {
                rows.lemma_filter_contains_rev(|t: TimerView| t.id != id, kept[i]);
            }
        }
        self.timers = timers;
    }

    /// Adds `delta` minutes to every timer that is not paused on its own.
    pub fn bulk_add(&mut self, delta: u64)
        ensures
            final(self)@ == old(self)@.bulk_add(delta),
            final(self)@.coherent(),
    {
        self.change(Target::Unlocked, Change::AddTime(delta));
        assert(self@.timers =~= old(self)@.bulk_add(delta).timers);
    }

    /// Takes `delta` minutes off every timer that is not paused on its own.
    pub fn bulk_remove(&mut self, delta: u64)
        ensures
            final(self)@ == old(self)@.bulk_remove(delta),
            final(self)@.coherent(),
    {
        self.change(Target::Unlocked, Change::RemoveTime(delta));
        assert(self@.timers =~= old(self)@.bulk_remove(delta).timers);
    }

    /// Starts at `now` every paused timer that is not paused on its own, and
    /// sets the global flag.
    pub fn global_start(&mut self, now: u64)
        ensures
            final(self)@ == old(self)@.global_start(now),
            final(self)@.coherent(),
    {
        proof {
            use_type_invariant(&*self);
        }
        self.running = true;
        self.change(Target::Startable, Change::Start { now });
        assert(self@.timers =~= old(self)@.global_start(now).timers);
    }

    /// Pauses every running timer with what it has left at `now`, and clears
    /// the global flag.
    pub fn global_pause(&mut self, now: u64)
        ensures
            final(self)@ == old(self)@.global_pause(now),
            final(self)@.coherent(),
    {
        self.change(Target::Running, Change::Freeze { now });
        self.running = false;
        assert(self@.timers =~= old(self)@.global_pause(now).timers);
    }

    /// Flips the local pause of the timer with identity `id` at `now`.
    /// Switching it on pauses the timer with what it has left; switching it
    /// off starts the timer if the board is running.
    pub fn toggle_local_pause(&mut self, id: u32, now: u64)
        ensures
            final(self)@ == old(self)@.toggle_local_pause(id, now),
            final(self)@.coherent(),
    {
        let running: bool = self.running;
        self.change(Target::WithId(id), Change::ToggleLocalPause { running, now });
        assert(self@.timers =~= old(self)@.toggle_local_pause(id, now).timers);
    }

    /// Adds its own step to the timer with identity `id`; if that gives a
    /// done timer time again, its completion cue is armed again.
    pub fn add_step(&mut self, id: u32, now: u64)
        ensures
            final(self)@ == old(self)@.add_step(id, now),
            final(self)@.coherent(),
    {
        self.change(Target::WithId(id), Change::AddStep { now });
        assert(self@.timers =~= old(self)@.add_step(id, now).timers);
    }

    /// Takes its own step off the timer with identity `id`.
    pub fn remove_step(&mut self, id: u32)
        ensures
            final(self)@ == old(self)@.remove_step(id),
            final(self)@.coherent(),
    {
        self.change(Target::WithId(id), Change::RemoveStep);
        assert(self@.timers =~= old(self)@.remove_step(id).timers);
    }

    /// Makes the time that the timer with identity `id` has left at `now`
    /// its own step.
    pub fn set_to_step(&mut self, id: u32, now: u64)
        ensures
            final(self)@ == old(self)@.set_to_step(id, now),
            final(self)@.coherent(),
    {
        self.change(Target::WithId(id), Change::SetToStep { now });
        assert(self@.timers =~= old(self)@.set_to_step(id, now).timers);
    }

    /// Gives the timer with identity `id` the name `name`.
    pub fn rename_timer(&mut self, id: u32, name: String)
        ensures
            final(self)@ == old(self)@.rename_timer(id, name@),
            final(self)@.coherent(),
    {
        self.change(Target::WithId(id), Change::Rename(name));
        assert(self@.timers =~= old(self)@.rename_timer(id, name@).timers);
    }

    /// Gives the timer with identity `id` the step `minutes`.
    pub fn set_timer_step(&mut self, id: u32, minutes: u64)
        ensures
            final(self)@ == old(self)@.set_timer_step(id, minutes),
            final(self)@.coherent(),
    {
        self.change(Target::WithId(id), Change::SetStep(minutes));
        assert(self@.timers =~= old(self)@.set_timer_step(id, minutes).timers);
    }

    /// Looks at every timer at `now` and returns how many completion cues
    /// are to fire: one for each timer that is done and has not fired since
    /// it last had time left.
    pub fn tick(&mut self, now: u64) -> (cues: usize)
        ensures
            final(self)@ == old(self)@.tick(now),
            cues == old(self)@.cues(now),
            final(self)@.coherent(),
    {
        proof {
            use_type_invariant(&*self);
        }
        let mut timers = self.take_timers();
        let cues = observe_each(&mut timers, now);
        self.timers = timers;
        assert(self@.timers =~= old(self)@.tick(now).timers);
        cues
    }

    /// The stored form of the board as of `now`: every timer with what it
    /// has left at `now`, and the settings. The board itself is not changed.
    pub fn save(&self, now: u64) -> (state: BoardState)
        ensures
            state@ == self@.saved(now),
    {
        BoardState {
            timers: save_each(&self.timers, now),
            start_duration: self.start_duration,
            displayed_time: self.displayed_time,
            new_name: self.new_name.clone(),
            next_timer_id: self.next_timer_id,
        }
    }

    /// The board to begin with: the one that `loaded` stands for, or, where
    /// nothing could be loaded, a new one.
    pub fn load_or_new(loaded: Option<&BoardState>) -> (board: TimerBoard)
        ensures
            board@ == match loaded {
                Some(state) => state@.restored(),
                None => BoardView::initial(),
            },
            board@.coherent(),
    {
        match loaded {
            Some(state) => TimerBoard::load(state),
            None => TimerBoard::new(),
        }
    }

    /// The board that `state` stands for: every timer paused with the
    /// seconds that were stored, the board not running.
    pub fn load(state: &BoardState) -> (board: TimerBoard)
        ensures
            board@ == state@.restored(),
            board@.coherent(),
    {
        TimerBoard {
            timers: restore_each(&state.timers),
            start_duration: state.start_duration,
            displayed_time: state.displayed_time,
            new_name: state.new_name.clone(),
            next_timer_id: state.next_timer_id,
            running: false,
        }
    }

    /// The first row that carries `id`, if any does.
    pub fn position_of(&self, id: u32) -> (found: Option<usize>)
        ensures
            match found {
                Some(i) => self@.first_with(id, i as int),
                None => forall|j: int|
                    0 <= j < self@.timers.len() ==> (#[trigger] self@.timers[j]).id != id,
            },
            match found {
                Some(i) => self@.position_of(id) == Some(i as int),
                None => self@.position_of(id) is None,
            },
    {
        let found = first_with_id(&self.timers, id);
        proof {
            if let Some(i) = found {
                assert(self@.first_with(id, i as int));
            }
        }
        found
    }
}

impl Default for TimerBoard {
    /// The board that `TimerBoard::new` makes.
    fn default() -> (board: TimerBoard)
        ensures
            board@ == BoardView::initial(),
    {
        TimerBoard::new()
    }
}

} // verus!
