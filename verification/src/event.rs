//! What the user can do to a board, as values: the host collects the events
//! of one tick while it shows the board and hands them over one by one.

use crate::board::{BoardView, TimerBoard};
use vstd::prelude::*;

verus! {

/// One action of the user on the board.
#[derive(Debug)]
pub enum Event {
    /// Remove the timer with this identity.
    Remove(u32),
    /// Give the timer with this identity this name.
    Rename(u32, String),
    /// Give the timer with this identity this step, in minutes.
    SetStep(u32, u64),
    /// Flip the local pause of the timer with this identity.
    ToggleLocalPause(u32),
    /// Add its step to the timer with this identity.
    AddStep(u32),
    /// Take its step off the timer with this identity.
    RemoveStep(u32),
    /// Make what the timer with this identity has left its step.
    SetToStep(u32),
    /// Spawn a timer from the template below the row with this identity.
    SpawnAfter(u32),
    /// Spawn a timer from the template at the end.
    SpawnLast,
    /// Change the template's name.
    SetNewName(String),
    /// Change the template's duration, in minutes.
    SetStartDuration(u64),
    /// Change the step of the bulk nudges, in minutes.
    SetDisplayedTime(u64),
    /// Add the bulk step to every timer that is not paused on its own.
    BulkAdd,
    /// Take the bulk step off every timer that is not paused on its own.
    BulkRemove,
    /// Press "start".
    GlobalStart,
    /// Press "pause".
    GlobalPause,
}

/// What an `Event` is to the contracts.
pub enum EventView {
    Remove(u32),
    Rename(u32, Seq<char>),
    SetStep(u32, u64),
    ToggleLocalPause(u32),
    AddStep(u32),
    RemoveStep(u32),
    SetToStep(u32),
    SpawnAfter(u32),
    SpawnLast,
    SetNewName(Seq<char>),
    SetStartDuration(u64),
    SetDisplayedTime(u64),
    BulkAdd,
    BulkRemove,
    GlobalStart,
    GlobalPause,
}

impl View for Event {
    type V = EventView;

    open spec fn view(&self) -> EventView {
        match *self {
            Event::Remove(id) => EventView::Remove(id),
            Event::Rename(id, name) => EventView::Rename(id, name@),
            Event::SetStep(id, minutes) => EventView::SetStep(id, minutes),
            Event::ToggleLocalPause(id) => EventView::ToggleLocalPause(id),
            Event::AddStep(id) => EventView::AddStep(id),
            Event::RemoveStep(id) => EventView::RemoveStep(id),
            Event::SetToStep(id) => EventView::SetToStep(id),
            Event::SpawnAfter(id) => EventView::SpawnAfter(id),
            Event::SpawnLast => EventView::SpawnLast,
            Event::SetNewName(name) => EventView::SetNewName(name@),
            Event::SetStartDuration(minutes) => EventView::SetStartDuration(minutes),
            Event::SetDisplayedTime(minutes) => EventView::SetDisplayedTime(minutes),
            Event::BulkAdd => EventView::BulkAdd,
            Event::BulkRemove => EventView::BulkRemove,
            Event::GlobalStart => EventView::GlobalStart,
            Event::GlobalPause => EventView::GlobalPause,
        }
    }
}

/// The views of a sequence of events, in order.
pub open spec fn event_views(events: Seq<Event>) -> Seq<EventView> {
    events.map_values(|e: Event| e@)
}

impl BoardView {
    /// The row below the first row that carries `id`; the end of the board
    /// if no row carries it.
    pub open spec fn row_after(self, id: u32) -> int {
        match self.position_of(id) {
            Some(i) => i + 1,
            None => self.timers.len() as int,
        }
    }

    /// The board after `event` happened at `now`.
    pub open spec fn apply(self, event: EventView, now: u64) -> BoardView {
        match event {
            EventView::Remove(id) => self.remove_timer(id),
            EventView::Rename(id, name) => self.rename_timer(id, name),
            EventView::SetStep(id, minutes) => self.set_timer_step(id, minutes),
            EventView::ToggleLocalPause(id) => self.toggle_local_pause(id, now),
            EventView::AddStep(id) => self.add_step(id, now),
            EventView::RemoveStep(id) => self.remove_step(id),
            EventView::SetToStep(id) => self.set_to_step(id, now),
            EventView::SpawnAfter(id) => self.spawn_from_template(self.row_after(id), now),
            EventView::SpawnLast => self.spawn_from_template(self.timers.len() as int, now),
            EventView::SetNewName(name) => BoardView { new_name: name, ..self },
            EventView::SetStartDuration(minutes) => BoardView { start_duration: minutes, ..self },
            EventView::SetDisplayedTime(minutes) => BoardView { displayed_time: minutes, ..self },
            EventView::BulkAdd => self.bulk_add(self.displayed_time),
            EventView::BulkRemove => self.bulk_remove(self.displayed_time),
            EventView::GlobalStart => self.global_start(now),
            EventView::GlobalPause => self.global_pause(now),
        }
    }
}

impl BoardView {
    /// The board after `events` happened at `now`, one after the other.
    pub open spec fn apply_all(self, events: Seq<EventView>, now: u64) -> BoardView {
        events.fold_left(self, |board: BoardView, event: EventView| board.apply(event, now))
    }
}

impl TimerBoard {
    /// Carries out one action of the user at `now`.
    pub fn apply(&mut self, event: Event, now: u64)
        ensures
            final(self)@ == old(self)@.apply(event@, now),
            final(self)@.coherent(),
    {
        match event {
            Event::Remove(id) => self.remove_timer(id),
            Event::Rename(id, name) => self.rename_timer(id, name),
            Event::SetStep(id, minutes) => self.set_timer_step(id, minutes),
            Event::ToggleLocalPause(id) => self.toggle_local_pause(id, now),
            Event::AddStep(id) => self.add_step(id, now),
            Event::RemoveStep(id) => self.remove_step(id),
            Event::SetToStep(id) => self.set_to_step(id, now),
            Event::SpawnAfter(id) => {
                let end: usize = self.timers().len();
                let index: usize = match self.position_of(id) {
                    Some(i) => i + 1,
                    None => end,
                };
                self.spawn_from_template(index, now);
            },
            Event::SpawnLast => {
                let index: usize = self.timers().len();
                self.spawn_from_template(index, now);
            },
            Event::SetNewName(name) => self.set_new_name(name),
            Event::SetStartDuration(minutes) => self.set_start_duration(minutes),
            Event::SetDisplayedTime(minutes) => self.set_displayed_time(minutes),
            Event::BulkAdd => {
                let delta: u64 = self.displayed_time();
                self.bulk_add(delta);
            },
            Event::BulkRemove => {
                let delta: u64 = self.displayed_time();
                self.bulk_remove(delta);
            },
            Event::GlobalStart => self.global_start(now),
            Event::GlobalPause => self.global_pause(now),
        }
    }
}

impl TimerBoard {
    /// Carries out the actions that the user took during one tick, in the
    /// order in which they were collected.
    pub fn apply_all(&mut self, events: Vec<Event>, now: u64)
        ensures
            final(self)@ == old(self)@.apply_all(event_views(events@), now),
            final(self)@.coherent(),
    {
        let ghost all = event_views(events@);
        let ghost step = |board: BoardView, event: EventView| board.apply(event, now);
        proof {
            use_type_invariant(&*self);
        }
        for event in it: events
            invariant
                step == |board: BoardView, event: EventView| board.apply(event, now),
                all == event_views(it.seq()),
                self@ == all.take(it.index() as int).fold_left(old(self)@, step),
                self@.coherent(),
        {
            proof {
                assert(all.take(it.index() + 1).drop_last() =~= all.take(it.index() as int));
            }
            self.apply(event, now);
        }
    }
}

} // verus!
