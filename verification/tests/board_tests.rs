use torch_timer::board::{TimerBoard, DEFAULT_NAME, TICK_SECONDS};
use torch_timer::saved::{BoardState, TimerRecord};
use torch_timer::timer::{Timer, TimerState};

fn record(name: &str, remaining: u64, id: u32, local_pause: bool) -> TimerRecord {
    TimerRecord {
        name: String::from(name),
        remaining,
        displayed_time: 10,
        local_pause,
        id,
        played_sound: false,
    }
}

fn board_of(records: Vec<TimerRecord>, next_timer_id: u32) -> TimerBoard {
    TimerBoard::load(&BoardState {
        timers: records,
        start_duration: 60,
        displayed_time: 10,
        new_name: String::from("torch"),
        next_timer_id,
    })
}

fn states(board: &TimerBoard) -> Vec<TimerState> {
    board.timers().iter().map(|t: &Timer| t.state).collect()
}

fn ids(board: &TimerBoard) -> Vec<u32> {
    board.timers().iter().map(|t: &Timer| t.id).collect()
}

#[test]
fn new_board_has_one_paused_torch() {
    let board = TimerBoard::new();
    assert_eq!(DEFAULT_NAME, "torch");
    assert_eq!(TICK_SECONDS, 1);
    assert_eq!(board.timers().len(), 1);
    let timer = &board.timers()[0];
    assert_eq!(timer.name, "torch");
    assert_eq!(timer.state, TimerState::Paused(3600));
    assert_eq!(timer.id, 0);
    assert_eq!(timer.displayed_time, 10);
    assert!(!timer.local_pause);
    assert!(!timer.played_sound);
    assert!(!board.is_running());
    assert_eq!(board.start_duration(), 60);
    assert_eq!(board.displayed_time(), 10);
    assert_eq!(board.new_name(), "torch");
    assert_eq!(board.next_timer_id(), 1);
}

#[test]
fn default_board_is_the_new_board() {
    let board = TimerBoard::default();
    assert_eq!(board.timers().len(), 1);
    assert_eq!(board.timers()[0].name, "torch");
    assert_eq!(board.next_timer_id(), 1);
    assert!(!board.is_running());
}

#[test]
fn settings_can_be_changed() {
    let mut board = TimerBoard::new();
    board.set_start_duration(5);
    board.set_displayed_time(2);
    board.set_new_name(String::from("lamp"));
    assert_eq!(board.start_duration(), 5);
    assert_eq!(board.displayed_time(), 2);
    assert_eq!(board.new_name(), "lamp");
    assert_eq!(board.timers().len(), 1);
    assert_eq!(board.next_timer_id(), 1);
    assert!(!board.is_running());
}

#[test]
fn spawn_on_a_paused_board_gives_a_paused_timer() {
    let mut board = board_of(vec![], 0);
    let id = board.spawn_timer(String::from("torch"), 60, 0, 1000);
    assert_eq!(id, 0);
    assert_eq!(board.timers().len(), 1);
    assert_eq!(board.timers()[0].state, TimerState::Paused(3600));
    assert_eq!(board.timers()[0].name, "torch");
    assert_eq!(board.timers()[0].id, 0);
    assert_eq!(board.next_timer_id(), 1);
}

#[test]
fn spawn_on_a_running_board_starts_the_timer() {
    let mut board = TimerBoard::new();
    board.global_start(100);
    let id = board.spawn_timer(String::from("lamp"), 2, 1, 500);
    assert_eq!(id, 1);
    assert_eq!(board.timers()[1].state, TimerState::RunningUntil(620));
    assert!(!board.timers()[1].local_pause);
}

#[test]
fn spawn_puts_the_timer_at_the_row_asked_for() {
    let mut board = board_of(vec![record("a", 1, 10, false), record("b", 2, 11, false)], 20);
    board.spawn_timer(String::from("x"), 1, 1, 0);
    assert_eq!(ids(&board), vec![10, 20, 11]);
    board.spawn_timer(String::from("y"), 1, 0, 0);
    assert_eq!(ids(&board), vec![21, 10, 20, 11]);
    board.spawn_timer(String::from("z"), 1, 4, 0);
    assert_eq!(ids(&board), vec![21, 10, 20, 11, 22]);
}

#[test]
fn spawn_past_the_end_appends() {
    let mut board = board_of(vec![record("a", 1, 10, false)], 20);
    board.spawn_timer(String::from("x"), 1, 99, 0);
    assert_eq!(ids(&board), vec![10, 20]);
    board.spawn_timer(String::from("y"), 1, usize::MAX, 0);
    assert_eq!(ids(&board), vec![10, 20, 21]);
}

#[test]
fn identities_count_up_and_wrap_around() {
    let mut board = board_of(vec![], u32::MAX - 1);
    assert_eq!(board.spawn_timer(String::new(), 1, 0, 0), u32::MAX - 1);
    assert_eq!(board.spawn_timer(String::new(), 1, 0, 0), u32::MAX);
    assert_eq!(board.next_timer_id(), 0);
    assert_eq!(board.spawn_timer(String::new(), 1, 0, 0), 0);
    assert_eq!(board.next_timer_id(), 1);
}

#[test]
fn spawn_from_template_uses_the_templates_name_and_duration() {
    let mut board = TimerBoard::new();
    board.set_new_name(String::from("lamp"));
    board.set_start_duration(3);
    let id = board.spawn_from_template(1, 0);
    assert_eq!(id, 1);
    assert_eq!(board.timers()[1].name, "lamp");
    assert_eq!(board.timers()[1].state, TimerState::Paused(180));
    assert_eq!(board.new_name(), "lamp");
}

#[test]
fn remove_timer_takes_the_row_out() {
    let mut board = board_of(
        vec![record("a", 1, 10, false), record("b", 2, 11, false), record("c", 3, 12, false)],
        20,
    );
    board.remove_timer(11);
    assert_eq!(ids(&board), vec![10, 12]);
    assert_eq!(board.timers()[1].name, "c");
    assert_eq!(board.next_timer_id(), 20);
}

#[test]
fn remove_timer_of_an_absent_identity_does_nothing() {
    let mut board = board_of(vec![record("a", 1, 10, false), record("b", 2, 11, false)], 20);
    board.remove_timer(99);
    assert_eq!(ids(&board), vec![10, 11]);
}

#[test]
fn remove_timer_twice_is_as_once() {
    let mut board = board_of(vec![record("a", 1, 10, false), record("b", 2, 11, false)], 20);
    board.remove_timer(10);
    board.remove_timer(10);
    assert_eq!(ids(&board), vec![11]);
}

#[test]
fn remove_timer_takes_out_every_row_with_the_identity() {
    let mut board = board_of(
        vec![
            record("a", 1, 5, false),
            record("b", 2, 6, false),
            record("c", 3, 5, false),
            record("d", 4, 5, false),
        ],
        20,
    );
    board.remove_timer(5);
    assert_eq!(ids(&board), vec![6]);
    board.remove_timer(6);
    assert!(board.timers().is_empty());
}

#[test]
fn bulk_add_skips_timers_paused_on_their_own() {
    let mut board =
        board_of(vec![record("a", 60, 1, false), record("b", 60, 2, true), record("c", 0, 3, false)], 4);
    board.bulk_add(5);
    assert_eq!(
        states(&board),
        vec![TimerState::Paused(360), TimerState::Paused(60), TimerState::Paused(300)]
    );
}

#[test]
fn bulk_remove_skips_timers_paused_on_their_own() {
    let mut board = board_of(
        vec![record("a", 600, 1, false), record("b", 600, 2, true), record("c", 30, 3, false)],
        4,
    );
    board.bulk_remove(1);
    assert_eq!(
        states(&board),
        vec![TimerState::Paused(540), TimerState::Paused(600), TimerState::Paused(0)]
    );
}

#[test]
fn bulk_nudges_do_what_the_timers_own_operations_do() {
    let mut board = board_of(vec![record("a", 600, 1, false), record("b", 90, 2, false)], 4);
    board.global_start(1000);
    let mut alone: Vec<Timer> = board.timers().clone();
    board.bulk_add(7);
    for timer in alone.iter_mut() {
        timer.add_time(7);
    }
    assert_eq!(states(&board), alone.iter().map(|t: &Timer| t.state).collect::<Vec<_>>());
    board.bulk_remove(30);
    for timer in alone.iter_mut() {
        timer.remove_time(30);
    }
    assert_eq!(states(&board), alone.iter().map(|t: &Timer| t.state).collect::<Vec<_>>());
    assert_eq!(states(&board), vec![TimerState::RunningUntil(220), TimerState::RunningUntil(0)]);
}

#[test]
fn global_start_starts_every_timer_that_is_free() {
    let mut board = board_of(vec![record("a", 60, 1, false), record("b", 60, 2, true)], 4);
    board.global_start(1000);
    assert!(board.is_running());
    assert_eq!(states(&board), vec![TimerState::RunningUntil(1060), TimerState::Paused(60)]);
}

#[test]
fn global_start_again_leaves_running_timers_alone() {
    let mut board = board_of(vec![record("a", 60, 1, false)], 4);
    board.global_start(1000);
    board.global_start(2000);
    assert_eq!(states(&board), vec![TimerState::RunningUntil(1060)]);
    assert!(board.is_running());
}

#[test]
fn global_pause_freezes_every_running_timer() {
    let mut board = board_of(vec![record("a", 60, 1, false), record("b", 500, 2, false)], 4);
    board.global_start(1000);
    board.global_pause(1100);
    assert!(!board.is_running());
    assert_eq!(states(&board), vec![TimerState::Paused(0), TimerState::Paused(400)]);
}

#[test]
fn global_pause_on_a_paused_board_changes_no_timer() {
    let mut board = board_of(vec![record("a", 60, 1, false), record("b", 500, 2, true)], 4);
    board.global_pause(1100);
    assert!(!board.is_running());
    assert_eq!(states(&board), vec![TimerState::Paused(60), TimerState::Paused(500)]);
}

#[test]
fn local_pause_on_pauses_at_once() {
    let mut board = board_of(vec![record("a", 600, 1, false), record("b", 600, 2, false)], 4);
    board.global_start(0);
    board.toggle_local_pause(2, 100);
    assert!(board.timers()[1].local_pause);
    assert!(!board.timers()[0].local_pause);
    assert_eq!(states(&board), vec![TimerState::RunningUntil(600), TimerState::Paused(500)]);
    assert!(board.is_running());
}

#[test]
fn local_pause_off_starts_on_a_running_board() {
    let mut board = board_of(vec![record("a", 600, 1, true)], 4);
    board.global_start(0);
    assert_eq!(states(&board), vec![TimerState::Paused(600)]);
    board.toggle_local_pause(1, 50);
    assert!(!board.timers()[0].local_pause);
    assert_eq!(states(&board), vec![TimerState::RunningUntil(650)]);
}

#[test]
fn local_pause_off_stays_paused_on_a_paused_board() {
    let mut board = board_of(vec![record("a", 600, 1, true)], 4);
    board.toggle_local_pause(1, 50);
    assert!(!board.timers()[0].local_pause);
    assert_eq!(states(&board), vec![TimerState::Paused(600)]);
}

#[test]
fn toggle_of_an_absent_identity_does_nothing() {
    let mut board = board_of(vec![record("a", 600, 1, false)], 4);
    board.toggle_local_pause(9, 50);
    assert!(!board.timers()[0].local_pause);
    assert_eq!(states(&board), vec![TimerState::Paused(600)]);
}

#[test]
fn step_controls_act_on_the_timer_addressed() {
    let mut board = board_of(vec![record("a", 600, 1, false), record("b", 600, 2, false)], 4);
    board.set_timer_step(2, 3);
    assert_eq!(board.timers()[0].displayed_time, 10);
    assert_eq!(board.timers()[1].displayed_time, 3);
    board.add_step(2, 0);
    assert_eq!(states(&board), vec![TimerState::Paused(600), TimerState::Paused(780)]);
    board.remove_step(1);
    assert_eq!(states(&board), vec![TimerState::Paused(0), TimerState::Paused(780)]);
    board.set_to_step(2, 0);
    assert_eq!(states(&board), vec![TimerState::Paused(0), TimerState::Paused(180)]);
    board.global_start(100);
    board.set_to_step(1, 200);
    assert_eq!(states(&board), vec![TimerState::RunningUntil(800), TimerState::RunningUntil(280)]);
}

#[test]
fn add_step_arms_the_cue_of_a_done_timer_on_the_board() {
    let mut board = board_of(vec![record("a", 0, 1, false)], 4);
    assert_eq!(board.tick(0), 1);
    assert!(board.timers()[0].played_sound);
    board.add_step(1, 0);
    assert!(!board.timers()[0].played_sound);
    assert_eq!(states(&board), vec![TimerState::Paused(600)]);
}

#[test]
fn rename_timer_changes_only_the_name() {
    let mut board = board_of(vec![record("a", 600, 1, false), record("b", 600, 2, false)], 4);
    board.rename_timer(1, String::from("lantern"));
    assert_eq!(board.timers()[0].name, "lantern");
    assert_eq!(board.timers()[1].name, "b");
    assert_eq!(states(&board), vec![TimerState::Paused(600), TimerState::Paused(600)]);
    assert_eq!(ids(&board), vec![1, 2]);
}

#[test]
fn position_of_finds_the_first_row_with_the_identity() {
    let board = board_of(
        vec![record("a", 1, 5, false), record("b", 2, 6, false), record("c", 3, 6, false)],
        20,
    );
    assert_eq!(board.position_of(5), Some(0));
    assert_eq!(board.position_of(6), Some(1));
    assert_eq!(board.position_of(7), None);
    assert_eq!(board_of(vec![], 0).position_of(0), None);
}

#[test]
fn tick_counts_the_timers_that_fire() {
    let mut board = board_of(
        vec![record("a", 60, 1, false), record("b", 120, 2, false), record("c", 60, 3, true)],
        4,
    );
    board.global_start(0);
    assert_eq!(board.tick(59), 0);
    assert_eq!(board.tick(60), 1);
    assert_eq!(board.tick(61), 0);
    assert_eq!(board.tick(120), 1);
    assert_eq!(board.tick(121), 0);
    assert!(board.timers()[0].played_sound);
    assert!(board.timers()[1].played_sound);
    assert!(!board.timers()[2].played_sound);
}

#[test]
fn tick_counts_timers_that_are_done_together() {
    let mut board = board_of(
        vec![record("a", 60, 1, false), record("b", 60, 2, false), record("c", 0, 3, true)],
        4,
    );
    board.global_start(0);
    assert_eq!(board.tick(60), 3);
    assert_eq!(board.tick(60), 0);
}

#[test]
fn tick_leaves_states_and_settings_alone() {
    let mut board = board_of(vec![record("a", 60, 1, false)], 4);
    board.global_start(0);
    board.tick(100);
    assert_eq!(states(&board), vec![TimerState::RunningUntil(60)]);
    assert!(board.is_running());
    assert_eq!(board.next_timer_id(), 4);
}

#[test]
fn a_running_timer_is_always_free_on_a_running_board() {
    let mut board = board_of(vec![record("a", 60, 1, false), record("b", 60, 2, true)], 3);
    let check = |board: &TimerBoard| {
        for timer in board.timers().iter() {
            if !timer.is_paused() {
                assert!(board.is_running());
                assert!(!timer.local_pause);
            }
        }
    };
    check(&board);
    board.global_start(10);
    check(&board);
    board.spawn_from_template(0, 20);
    check(&board);
    board.toggle_local_pause(1, 30);
    check(&board);
    board.toggle_local_pause(2, 40);
    check(&board);
    board.bulk_add(3);
    check(&board);
    board.global_pause(50);
    check(&board);
    board.toggle_local_pause(1, 60);
    check(&board);
    assert!(board.timers().iter().all(|t: &Timer| t.is_paused()));
}

#[test]
fn tick_again_at_the_same_instant_is_silent() {
    let mut board = board_of(vec![record("a", 0, 1, false), record("b", 60, 2, false)], 3);
    board.global_start(0);
    assert_eq!(board.tick(30), 1);
    assert_eq!(board.tick(30), 0);
    assert_eq!(board.tick(60), 1);
    assert_eq!(board.tick(60), 0);
}

#[test]
fn only_start_and_pause_change_the_flag() {
    let mut board = board_of(vec![record("a", 60, 1, false)], 3);
    board.bulk_add(1);
    board.spawn_from_template(0, 0);
    board.toggle_local_pause(1, 0);
    board.remove_timer(1);
    board.tick(0);
    assert!(!board.is_running());
    board.global_start(0);
    board.bulk_remove(1);
    board.spawn_from_template(0, 0);
    board.toggle_local_pause(3, 0);
    board.remove_timer(3);
    board.tick(0);
    assert!(board.is_running());
    board.global_pause(0);
    assert!(!board.is_running());
}
