use torch_timer::board::TimerBoard;
use torch_timer::timer::TimerState;

/// A board with the default template and no rows.
fn empty_board() -> TimerBoard {
    let mut board = TimerBoard::new();
    board.remove_timer(0);
    assert!(board.timers().is_empty());
    assert_eq!(board.new_name(), "torch");
    assert_eq!(board.start_duration(), 60);
    board
}

#[test]
fn a_torch_burns_down_and_cues_once() {
    let t0: u64 = 5000;
    let mut board = empty_board();
    let id = board.spawn_from_template(0, t0);
    assert_eq!(board.timers().len(), 1);
    assert_eq!(board.timers()[0].name, "torch");
    assert_eq!(board.timers()[0].time_remaining(t0), 3600);
    assert!(board.timers()[0].is_paused());

    board.global_start(t0);
    assert_eq!(board.timers()[0].state, TimerState::RunningUntil(t0 + 3600));
    assert_eq!(board.tick(t0), 0);
    assert_eq!(board.tick(t0 + 3599), 0);

    assert_eq!(board.timers()[0].time_remaining(t0 + 3600), 0);
    assert_eq!(board.tick(t0 + 3600), 1);
    assert_eq!(board.timers()[0].time_remaining(t0 + 3601), 0);
    assert_eq!(board.tick(t0 + 3601), 0);
    assert_eq!(board.tick(t0 + 7200), 0);

    board.add_step(id, t0 + 7200);
    assert_eq!(board.timers()[0].state, TimerState::RunningUntil(t0 + 4200));
    assert_eq!(board.tick(t0 + 7200), 0);

    board.set_to_step(id, t0 + 7200);
    assert_eq!(board.timers()[0].time_remaining(t0 + 7200), 600);
    assert_eq!(board.tick(t0 + 7200), 0);
    assert_eq!(board.tick(t0 + 7800), 1);
    assert_eq!(board.tick(t0 + 7801), 0);
}

#[test]
fn the_new_board_burns_down_and_cues_once() {
    let mut board = TimerBoard::new();
    assert_eq!(board.timers()[0].time_remaining(0), 3600);
    board.global_start(0);
    assert_eq!(board.timers()[0].state, TimerState::RunningUntil(3600));
    assert_eq!(board.tick(3600), 1);
    assert_eq!(board.tick(3601), 0);
}

#[test]
fn a_timer_paused_on_its_own_ignores_the_global_controls() {
    let mut board = empty_board();
    let id = board.spawn_from_template(0, 0);
    board.toggle_local_pause(id, 0);
    assert!(board.timers()[0].local_pause);

    board.global_start(10);
    assert!(board.is_running());
    assert!(board.timers()[0].is_paused());
    assert_eq!(board.timers()[0].state, TimerState::Paused(3600));

    board.bulk_add(5);
    assert_eq!(board.timers()[0].state, TimerState::Paused(3600));
    board.bulk_remove(5);
    assert_eq!(board.timers()[0].state, TimerState::Paused(3600));
}

#[test]
fn a_restart_brings_every_timer_back_paused() {
    let mut board = empty_board();
    let first = board.spawn_from_template(0, 0);
    let second = board.spawn_from_template(1, 0);
    board.toggle_local_pause(second, 0);
    board.global_start(100);
    assert_eq!(board.timers()[0].state, TimerState::RunningUntil(3700));
    assert_eq!(board.timers()[1].state, TimerState::Paused(3600));

    let state = board.save(1100);
    assert!(board.is_running());
    assert_eq!(board.timers()[0].state, TimerState::RunningUntil(3700));

    let back = TimerBoard::load(&state);
    assert!(!back.is_running());
    assert_eq!(back.timers().len(), 2);
    assert_eq!(back.timers()[0].state, TimerState::Paused(2600));
    assert_eq!(back.timers()[1].state, TimerState::Paused(3600));
    assert_eq!(back.timers()[0].id, first);
    assert_eq!(back.timers()[1].id, second);
    assert!(!back.timers()[0].local_pause);
    assert!(back.timers()[1].local_pause);
    assert_eq!(back.next_timer_id(), 3);
    assert_eq!(back.new_name(), "torch");
    assert_eq!(back.start_duration(), 60);
    assert_eq!(back.displayed_time(), 10);
}
