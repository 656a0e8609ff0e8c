//! What of a board is kept across a restart.
//!
//! A deadline means nothing to another process, so a timer is always stored
//! as the number of seconds it had left when it was saved, and comes back
//! paused. The global running flag is not stored: a board that comes back is
//! not running.

use crate::board::{views, BoardView, TimerBoard};
use crate::timer::{Timer, TimerState, TimerView, DEFAULT_MINUTES};
use vstd::prelude::*;

verus! {

/// What a `TimerRecord` is to the contracts.
pub struct TimerRecordView {
    pub name: Seq<char>,
    pub remaining: u64,
    pub displayed_time: u64,
    pub local_pause: bool,
    pub id: u32,
    pub played_sound: bool,
}

impl TimerRecordView {
    /// The timer that comes back from this record: paused, with the seconds
    /// that were stored.
    pub open spec fn restored(self) -> TimerView {
        TimerView {
            name: self.name,
            state: TimerState::Paused(self.remaining),
            displayed_time: self.displayed_time,
            local_pause: self.local_pause,
            id: self.id,
            played_sound: self.played_sound,
        }
    }
}

impl TimerView {
    /// The record of this timer as of `now`.
    pub open spec fn saved(self, now: u64) -> TimerRecordView {
        TimerRecordView {
            name: self.name,
            remaining: self.remaining(now),
            displayed_time: self.displayed_time,
            local_pause: self.local_pause,
            id: self.id,
            played_sound: self.played_sound,
        }
    }
}

/// One timer as it is stored.
#[derive(Debug)]
pub struct TimerRecord {
    pub name: String,
    /// Seconds that were left when the timer was saved.
    pub remaining: u64,
    pub displayed_time: u64,
    pub local_pause: bool,
    pub id: u32,
    pub played_sound: bool,
}

impl View for TimerRecord {
    type V = TimerRecordView;

    open spec fn view(&self) -> TimerRecordView {
        TimerRecordView {
            name: self.name@,
            remaining: self.remaining,
            displayed_time: self.displayed_time,
            local_pause: self.local_pause,
            id: self.id,
            played_sound: self.played_sound,
        }
    }
}

impl TimerRecord {
    /// The timer that this record stands for: paused, with the seconds that
    /// were stored.
    pub fn restore(&self) -> (timer: Timer)
        ensures
            timer@ == self@.restored(),
    {
        Timer {
            name: self.name.clone(),
            state: TimerState::from(self.remaining),
            displayed_time: self.displayed_time,
            local_pause: self.local_pause,
            id: self.id,
            played_sound: self.played_sound,
        }
    }
}

impl Default for TimerRecord {
    /// The record of `Timer::default()`; a field that a stored record lacks
    /// takes its value from here.
    fn default() -> (record: TimerRecord)
        ensures
            record@ == TimerView::fresh(Seq::<char>::empty(), DEFAULT_MINUTES, 0).saved(0),
    {
        Timer::default().save(0)
    }
}

impl Timer {
    /// The record of this timer as of `now`: a running timer is stored with
    /// what it has left at `now`.
    pub fn save(&self, now: u64) -> (record: TimerRecord)
        ensures
            record@ == self@.saved(now),
    {
        TimerRecord {
            name: self.name.clone(),
            remaining: self.time_remaining(now),
            displayed_time: self.displayed_time,
            local_pause: self.local_pause,
            id: self.id,
            played_sound: self.played_sound,
        }
    }
}

/// The views of a sequence of records, in order.
pub open spec fn record_views(records: Seq<TimerRecord>) -> Seq<TimerRecordView> {
    records.map_values(|r: TimerRecord| r@)
}

/// What a `BoardState` is to the contracts.
pub struct BoardStateView {
    pub timers: Seq<TimerRecordView>,
    pub start_duration: u64,
    pub displayed_time: u64,
    pub new_name: Seq<char>,
    pub next_timer_id: u32,
}

/// A board as it is stored: its rows in order and its settings.
#[derive(Debug)]
pub struct BoardState {
    pub timers: Vec<TimerRecord>,
    pub start_duration: u64,
    pub displayed_time: u64,
    pub new_name: String,
    pub next_timer_id: u32,
}

impl View for BoardState {
    type V = BoardStateView;

    open spec fn view(&self) -> BoardStateView {
        BoardStateView {
            timers: record_views(self.timers@),
            start_duration: self.start_duration,
            displayed_time: self.displayed_time,
            new_name: self.new_name@,
            next_timer_id: self.next_timer_id,
        }
    }
}

impl BoardView {
    /// The stored form of this board as of `now`.
    pub open spec fn saved(self, now: u64) -> BoardStateView {
        BoardStateView {
            timers: self.timers.map_values(|t: TimerView| t.saved(now)),
            start_duration: self.start_duration,
            displayed_time: self.displayed_time,
            new_name: self.new_name,
            next_timer_id: self.next_timer_id,
        }
    }
}

impl BoardStateView {
    /// The board that comes back from this stored form: every timer paused,
    /// the board not running.
    pub open spec fn restored(self) -> BoardView {
        BoardView {
            timers: self.timers.map_values(|r: TimerRecordView| r.restored()),
            start_duration: self.start_duration,
            displayed_time: self.displayed_time,
            new_name: self.new_name,
            next_timer_id: self.next_timer_id,
            running: false,
        }
    }
}

impl Default for BoardState {
    /// The stored form of `TimerBoard::new()`; a field that a stored board
    /// lacks takes its value from here.
    fn default() -> (state: BoardState)
        ensures
            state@ == BoardView::initial().saved(0),
    {
        TimerBoard::new().save(0)
    }
}

/// The records of `timers` as of `now`, in order.
pub fn save_each(timers: &Vec<Timer>, now: u64) -> (records: Vec<TimerRecord>)
    ensures
        record_views(records@) == views(timers@).map_values(
            |t: TimerView| t.saved(now),
        ),
{
    let mut records: Vec<TimerRecord> = Vec::new();
    let mut i: usize = 0;
    while i < timers.len()
        invariant
            i <= timers@.len(),
            records@.len() == i,
            forall|j: int| 0 <= j < i ==> #[trigger] records@[j]@ == timers@[j]@.saved(now),
        decreases timers.len() - i,
    {
        records.push(timers[i].save(now));
        i += 1;
    }
    assert(record_views(records@) =~= views(timers@).map_values(
        |t: TimerView| t.saved(now),
    ));
    records
}

/// The timers that `records` stand for, in order; all of them paused.
pub fn restore_each(records: &Vec<TimerRecord>) -> (timers: Vec<Timer>)
    ensures
        views(timers@) == record_views(records@).map_values(
            |r: TimerRecordView| r.restored(),
        ),
{
    let mut timers: Vec<Timer> = Vec::new();
    let mut i: usize = 0;
    while i < records.len()
        invariant
            i <= records@.len(),
            timers@.len() == i,
            forall|j: int| 0 <= j < i ==> #[trigger] timers@[j]@ == records@[j]@.restored(),
        decreases records.len() - i,
    {
        timers.push(records[i].restore());
        i += 1;
    }
    assert(views(timers@) =~= record_views(records@).map_values(
        |r: TimerRecordView| r.restored(),
    ));
    timers
}

} // verus!
