//! Laws of the model: what holds of the operations taken together, stated
//! over the same spec functions as the operations' contracts.

use crate::board::BoardView;
use crate::event::EventView;
use crate::timer::{clamped_diff, seconds_in, TimerState, TimerView, BASE_TIME};
use vstd::prelude::*;

verus! {

/// A paused timer has the same time left at every instant: the duration it
/// was paused with.
pub proof fn paused_time_stands_still(timer: TimerView, d: u64, now: u64)
    requires
        timer.state == TimerState::Paused(d),
    ensures
        timer.remaining(now) == d,
{
}

/// Starting a timer loses no time: right after `start(now)` the timer has at
/// `now` what it had before. A paused timer whose deadline `now + left` does
/// not fit the clock is left out: its deadline is clamped.
pub proof fn start_loses_no_time(timer: TimerView, now: u64)
    requires
        timer.paused() ==> now + timer.remaining(now) <= u64::MAX,
    ensures
        timer.start(now).remaining(now) == timer.remaining(now),
        !timer.start(now).paused(),
{
}

/// Starting a timer at `now` and pausing it with what it then has left at
/// `now` gives back the time it had before; a timer that was paused before
/// is exactly what it was. A paused timer whose deadline `now + left` does
/// not fit the clock is left out.
pub proof fn start_then_pause_restores(timer: TimerView, now: u64)
    requires
        timer.paused() ==> now + timer.remaining(now) <= u64::MAX,
    ensures
        timer.start(now).pause(timer.start(now).remaining(now)).state == TimerState::Paused(
            timer.remaining(now),
        ),
        timer.paused() ==> timer.start(now).pause(timer.start(now).remaining(now)) == timer,
{
}

/// Pausing a timer some time after it was started keeps what it had when
/// it was started less the time that passed, and nothing once more time
/// has passed than it had. A paused timer whose deadline `now + left` does
/// not fit the clock is left out.
pub proof fn pause_keeps_what_the_clock_left(timer: TimerView, now: u64, later: u64)
    requires
        now <= later,
        timer.paused() ==> now + timer.remaining(now) <= u64::MAX,
    ensures
        timer.start(now).pause(timer.start(now).remaining(later)).state == TimerState::Paused(
            clamped_diff(timer.remaining(now), (later - now) as u64),
        ),
{
}

/// On a paused timer, adding `x` minutes and taking them off again gives
/// back the timer, as long as the addition is not clamped.
pub proof fn add_then_remove_restores(timer: TimerView, d: u64, x: u64)
    requires
        timer.state == TimerState::Paused(d),
        d + seconds_in(x) <= u64::MAX,
    ensures
        timer.add_time(x).remove_time(x) == timer,
{
}

/// On a paused timer, taking `x` minutes off and adding them again gives
/// back the timer, as long as the timer had that much left.
pub proof fn remove_then_add_restores(timer: TimerView, d: u64, x: u64)
    requires
        timer.state == TimerState::Paused(d),
        x * BASE_TIME <= d,
    ensures
        timer.remove_time(x).add_time(x) == timer,
{
}

/// Taking time off a paused timer never leaves less than nothing: what is
/// left is `d - 60 x` seconds, or zero where that would be negative.
pub proof fn remove_time_floors_at_zero(timer: TimerView, d: u64, x: u64)
    requires
        timer.state == TimerState::Paused(d),
    ensures
        timer.remove_time(x).state == TimerState::Paused(
            if d - x * BASE_TIME > 0 {
                (d - x * BASE_TIME) as u64
            } else {
                0
            },
        ),
{
}

/// No operation on a timer changes whether it runs, except `start` and
/// `pause`: nudging and setting keep the variant.
pub proof fn nudges_keep_the_variant(timer: TimerView, x: u64, now: u64)
    ensures
        timer.add_time(x).paused() == timer.paused(),
        timer.remove_time(x).paused() == timer.paused(),
        timer.set_time(x, now).paused() == timer.paused(),
{
}

/// Adding time never leaves less at any instant, and taking time off never
/// leaves more: taking time off cannot make a done timer live again.
pub proof fn nudges_go_one_way(timer: TimerView, x: u64, now: u64)
    ensures
        timer.add_time(x).remaining(now) >= timer.remaining(now),
        timer.remove_time(x).remaining(now) <= timer.remaining(now),
        timer.done(now) ==> timer.remove_time(x).done(now),
{
}

/// Setting the time makes exactly that much left at `now`, unless the
/// timer runs and its deadline does not fit the clock.
pub proof fn set_time_sets_what_is_left(timer: TimerView, x: u64, now: u64)
    requires
        !timer.paused() ==> now + seconds_in(x) <= u64::MAX,
    ensures
        timer.set_time(x, now).remaining(now) == seconds_in(x),
{
}

/// The time left never grows while the clock advances.
pub proof fn time_left_never_grows(timer: TimerView, now: u64, later: u64)
    requires
        now <= later,
    ensures
        timer.remaining(later) <= timer.remaining(now),
{
}

/// The completion cue fires once per arrival at zero: a timer that was
/// looked at when done does not fire when looked at again later, however
/// often, until it has time left again.
pub proof fn cue_fires_once(timer: TimerView, now: u64, later: u64)
    requires
        timer.done(now),
        now <= later,
    ensures
        timer.observed(now).played_sound,
        !timer.observed(now).fires(later),
        timer.observed(now).observed(later) == timer.observed(now),
{
}

/// A timer that is seen with time left is armed: it fires the next time it
/// is seen done.
pub proof fn cue_is_armed_again(timer: TimerView, now: u64, later: u64)
    requires
        !timer.done(now),
        timer.observed(now).done(later),
    ensures
        timer.observed(now).fires(later),
{
}

/// Looking at the board twice at one instant fires no cue the second time.
pub proof fn tick_again_is_silent(board: BoardView, now: u64)
    ensures
        board.tick(now).cues(now) == 0,
        board.tick(now).tick(now) == board.tick(now),
{
    let seen = board.tick(now).timers;
    let fires = |t: TimerView| t.fires(now);
    seen.lemma_all_neg_filter_empty(fires);
    assert(board.tick(now).tick(now).timers =~= seen);
}

/// The bulk nudges skip every timer that is paused on its own and do to
/// every other timer what `add_time` and `remove_time` do to it.
pub proof fn bulk_nudges_act_as_nudges(board: BoardView, minutes: u64, i: int)
    requires
        0 <= i < board.timers.len(),
    ensures
        board.bulk_add(minutes).timers.len() == board.timers.len(),
        board.bulk_remove(minutes).timers.len() == board.timers.len(),
        board.timers[i].local_pause ==> board.bulk_add(minutes).timers[i] == board.timers[i],
        board.timers[i].local_pause ==> board.bulk_remove(minutes).timers[i] == board.timers[i],
        !board.timers[i].local_pause ==> board.bulk_add(minutes).timers[i]
            == board.timers[i].add_time(minutes),
        !board.timers[i].local_pause ==> board.bulk_remove(minutes).timers[i]
            == board.timers[i].remove_time(minutes),
{
}

/// A timer that is paused on its own is out of reach of the global controls:
/// "start", "pause" and the bulk nudges leave it as it is.
pub proof fn local_pause_shields(board: BoardView, minutes: u64, now: u64, i: int)
    requires
        board.coherent(),
        0 <= i < board.timers.len(),
        board.timers[i].local_pause,
    ensures
        board.timers[i].paused(),
        board.global_start(now).timers[i] == board.timers[i],
        board.global_pause(now).timers[i] == board.timers[i],
        board.bulk_add(minutes).timers[i] == board.timers[i],
        board.bulk_remove(minutes).timers[i] == board.timers[i],
{
}

/// After "start" every timer runs but those paused on their own; after
/// "pause" no timer runs.
pub proof fn global_controls_reach_all(board: BoardView, now: u64, i: int)
    requires
        board.coherent(),
        0 <= i < board.timers.len(),
    ensures
        board.global_start(now).running,
        board.global_start(now).timers[i].paused() == board.timers[i].local_pause,
        !board.global_pause(now).running,
        board.global_pause(now).timers[i].paused(),
        board.global_pause(now).timers[i].remaining(now) == board.timers[i].remaining(now),
{
}

/// Saving a board at `now` and loading it again is pressing "pause" at
/// `now`: every timer comes back paused with what it had left at `now`, the
/// board comes back not running, and nothing else changes.
pub proof fn save_then_load_is_pause(board: BoardView, now: u64)
    ensures
        board.saved(now).restored() == board.global_pause(now),
        !board.saved(now).restored().running,
        board.saved(now).restored().timers.len() == board.timers.len(),
        forall|i: int|
            0 <= i < board.timers.len() ==> (#[trigger] board.saved(now).restored().timers[i]).state
                == TimerState::Paused(board.timers[i].remaining(now)),
{
    assert(board.saved(now).restored().timers =~= board.global_pause(now).timers);
}

/// Removing a timer that is not there changes nothing, so removing a timer
/// a second time changes nothing; once removed, no row carries the identity.
pub proof fn remove_timer_is_idempotent(board: BoardView, id: u32)
    ensures
        board.position_of(id) is None ==> board.remove_timer(id) == board,
        board.remove_timer(id).position_of(id) is None,
        board.remove_timer(id).remove_timer(id) == board.remove_timer(id),
        forall|i: int|
            0 <= i < board.remove_timer(id).timers.len() ==> (
            #[trigger] board.remove_timer(id).timers[i]).id != id,
{
    let keeps = |t: TimerView| t.id != id;
    let kept = board.timers.filter(keeps);
    filter_of_all_kept(kept, keeps);
    assert forall|k: int| !board.remove_timer(id).first_with(id, k) by {}
    if board.position_of(id) is None {
        assert forall|i: int| 0 <= i < board.timers.len() implies keeps(
            #[trigger] board.timers[i],
        ) by {
            least_row_with(board, id, i);
        }
        filter_of_all_kept(board.timers, keeps);
    }
}

/// If row `i` carries `id`, some row is the first to carry it.
proof fn least_row_with(board: BoardView, id: u32, i: int)
    requires
        0 <= i < board.timers.len(),
    ensures
        board.timers[i].id == id ==> exists|k: int| board.first_with(id, k),
    decreases i,
{
    if board.timers[i].id == id {
        if exists|j: int| 0 <= j < i && (#[trigger] board.timers[j]).id == id {
            let j = choose|j: int| 0 <= j < i && (#[trigger] board.timers[j]).id == id;
            least_row_with(board, id, j);
        } else {
            assert(board.first_with(id, i));
        }
    }
}

/// Filtering a sequence whose elements all pass changes nothing.
proof fn filter_of_all_kept(s: Seq<TimerView>, keeps: spec_fn(TimerView) -> bool)
    requires
        forall|i: int| 0 <= i < s.len() ==> keeps(#[trigger] s[i]),
    ensures
        s.filter(keeps) == s,
    decreases s.len(),
{
    reveal(Seq::filter);
    if s.len() > 0 {
        filter_of_all_kept(s.drop_last(), keeps);
    }
}

/// A spawned timer gets the identity that the board held ready, and the
/// board holds the next one ready: two timers spawned one after the other
/// differ in identity.
pub proof fn spawned_identities_differ(
    board: BoardView,
    name1: Seq<char>,
    name2: Seq<char>,
    minutes: u64,
    index1: int,
    index2: int,
    now: u64,
)
    requires
        0 <= index1,
        0 <= index2,
    ensures
        board.newcomer(name1, minutes, now).id == board.next_timer_id,
        board.spawn_timer(name1, minutes, index1, now).newcomer(name2, minutes, now).id
            != board.next_timer_id,
        board.spawn_timer(name1, minutes, index1, now).timers.len() == board.timers.len() + 1,
        board.spawn_timer(name1, minutes, index1, now).timers[board.landing(index1)]
            == board.newcomer(name1, minutes, now),
{
}

/// Rows that differ in identity keep doing so: whatever the user does, no
/// two rows come to carry the same identity, as long as a spawned timer's
/// identity is not already on the board.
pub proof fn identities_stay_apart(board: BoardView, event: EventView, now: u64)
    requires
        board.distinct_identities(),
        (event is SpawnAfter || event is SpawnLast) ==> !board.carries(board.next_timer_id),
    ensures
        board.apply(event, now).distinct_identities(),
{
    let after = board.apply(event, now);
    match event {
        EventView::Remove(id) => {
            filter_keeps_apart(board.timers, |t: TimerView| t.id != id);
        },
        EventView::SpawnAfter(id) => {
            spawn_keeps_apart(board, board.new_name, board.start_duration, board.row_after(id), now);
        },
        EventView::SpawnLast => {
            spawn_keeps_apart(
                board,
                board.new_name,
                board.start_duration,
                board.timers.len() as int,
                now,
            );
        },
        _ => {
            assert forall|i: int| 0 <= i < after.timers.len() implies (#[trigger] after.timers[i]).id
                == board.timers[i].id by {}
        },
    }
}

/// A spawned timer whose identity is not on the board leaves the
/// identities apart.
proof fn spawn_keeps_apart(board: BoardView, name: Seq<char>, minutes: u64, index: int, now: u64)
    requires
        board.distinct_identities(),
        !board.carries(board.next_timer_id),
        0 <= index,
    ensures
        board.spawn_timer(name, minutes, index, now).distinct_identities(),
{
    let at = board.landing(index);
    let rows = board.spawn_timer(name, minutes, index, now).timers;
    assert forall|i: int, j: int| 0 <= i < j < rows.len() implies (#[trigger] rows[i]).id != (
    #[trigger] rows[j]).id by {
        // a row is the newcomer or a row of the board, one up if it is below the newcomer
        if i != at && j != at {
            assert(rows[i] == board.timers[if i < at { i } else { i - 1 }]);
            assert(rows[j] == board.timers[if j < at { j } else { j - 1 }]);
        }
    }
}

/// Taking rows out leaves the identities of the others apart.
proof fn filter_keeps_apart(s: Seq<TimerView>, keeps: spec_fn(TimerView) -> bool)
    requires
        forall|i: int, j: int| 0 <= i < j < s.len() ==> (#[trigger] s[i]).id != (#[trigger] s[j]).id,
    ensures
        forall|i: int, j: int|
            0 <= i < j < s.filter(keeps).len() ==> (#[trigger] s.filter(keeps)[i]).id != (
            #[trigger] s.filter(keeps)[j]).id,
        forall|i: int|
            0 <= i < s.filter(keeps).len() ==> s.contains(#[trigger] s.filter(keeps)[i]),
    decreases s.len(),
{
    reveal(Seq::filter);
    if s.len() > 0 {
        let front = s.drop_last();
        filter_keeps_apart(front, keeps);
        let kept = s.filter(keeps);
        // what was kept of the front is in the front, so it differs from the last row
        assert forall|i: int| 0 <= i < front.filter(keeps).len() implies s.contains(
            #[trigger] kept[i],
        ) && kept[i].id != s.last().id by {
            let k = choose|k: int| 0 <= k < front.len() && front[k] == front.filter(keeps)[i];
            assert(s[k] == kept[i]);
        }
    }
}

/// The global flag says which of "start" and "pause" was pressed last:
/// "start" sets it, "pause" clears it, and nothing else touches it.
pub proof fn only_start_and_pause_set_the_flag(board: BoardView, event: EventView, now: u64)
    ensures
        board.apply(event, now).running == match event {
            EventView::GlobalStart => true,
            EventView::GlobalPause => false,
            _ => board.running,
        },
{
}

/// Only the spawning events hand out an identity.
pub proof fn only_spawning_takes_an_identity(board: BoardView, event: EventView, now: u64)
    ensures
        board.apply(event, now).next_timer_id == match event {
            EventView::SpawnAfter(_) => crate::board::next_identity(board.next_timer_id),
            EventView::SpawnLast => crate::board::next_identity(board.next_timer_id),
            _ => board.next_timer_id,
        },
{
}

} // verus!
