use nyan::app::{App, FramePlan};
use nyan::driver::DriverOp;

fn count(ops: &[DriverOp], op: DriverOp) -> usize {
    ops.iter().filter(|o| **o == op).count()
}

#[test]
fn frame_budget_follows_the_rate() {
    assert_eq!(App::new(0).draw().sleep_ms, 1000);
    assert_eq!(App::new(1).draw().sleep_ms, 1000);
    assert_eq!(App::new(5).draw().sleep_ms, 200);
    assert_eq!(App::new(60).draw().sleep_ms, 16);
}

#[test]
fn zero_rate_behaves_as_one() {
    assert_eq!(App::new(0).draw(), App::new(1).draw());
    assert_eq!(App::new(30).fps(0).draw(), App::new(1).draw());
}

#[test]
fn rate_can_change_between_frames() {
    let mut app = App::new(10);
    assert_eq!(app.draw().sleep_ms, 100);
    app.started();
    let app = app.fps(4);
    assert_eq!(app.draw().sleep_ms, 250);
    assert_eq!(App::new(3).fps(2000).draw().sleep_ms, 0);
    assert_eq!(App::new(3).fps(u64::MAX).draw().sleep_ms, 0);
}

#[test]
fn plain_session_shows_the_cursor_at_the_origin() {
    let plan = App::new(60).draw();
    assert_eq!(
        plan,
        FramePlan { setup: vec![DriverOp::MoveTo(0, 0), DriverOp::ShowCursor], sleep_ms: 16 }
    );
}

#[test]
fn first_frame_applies_the_whole_configuration_in_order() {
    let app = App::new(60).clear().raw_mode().alternate_screen().hide_cursor();
    assert_eq!(
        app.draw().setup,
        vec![
            DriverOp::MoveTo(0, 0),
            DriverOp::EnterAlternateScreen,
            DriverOp::EnableRawMode,
            DriverOp::HideCursor,
            DriverOp::ClearScreen,
        ]
    );
}

#[test]
fn later_frames_skip_the_one_time_setup() {
    let mut app = App::new(60).clear().raw_mode().alternate_screen().hide_cursor();
    app.started();
    assert_eq!(
        app.draw().setup,
        vec![DriverOp::MoveTo(0, 0), DriverOp::HideCursor, DriverOp::ClearScreen]
    );
    app.started();
    assert_eq!(
        app.draw().setup,
        vec![DriverOp::MoveTo(0, 0), DriverOp::HideCursor, DriverOp::ClearScreen]
    );
}

#[test]
fn raw_mode_is_enabled_once_and_disabled_once() {
    let mut app = App::new(30).raw_mode();
    let first = app.draw();
    app.started();
    let second = app.draw();
    app.started();
    let enabled = count(&first.setup, DriverOp::EnableRawMode)
        + count(&second.setup, DriverOp::EnableRawMode);
    assert_eq!(enabled, 1);
    assert_eq!(count(&first.setup, DriverOp::EnableRawMode), 1);
    let teardown = app.exit();
    assert_eq!(count(&teardown, DriverOp::DisableRawMode), 1);
}

#[test]
fn setup_is_attempted_again_until_a_frame_has_started() {
    let app = App::new(30).raw_mode().alternate_screen();
    let first = app.draw();
    let again = app.draw();
    assert_eq!(first, again);
    assert_eq!(count(&again.setup, DriverOp::EnableRawMode), 1);
    assert_eq!(count(&again.setup, DriverOp::EnterAlternateScreen), 1);
}

#[test]
fn each_flag_adds_its_own_primitive() {
    assert_eq!(
        App::new(1).alternate_screen().draw().setup,
        vec![DriverOp::MoveTo(0, 0), DriverOp::EnterAlternateScreen, DriverOp::ShowCursor]
    );
    assert_eq!(
        App::new(1).raw_mode().draw().setup,
        vec![DriverOp::MoveTo(0, 0), DriverOp::EnableRawMode, DriverOp::ShowCursor]
    );
    assert_eq!(
        App::new(1).hide_cursor().draw().setup,
        vec![DriverOp::MoveTo(0, 0), DriverOp::HideCursor]
    );
    assert_eq!(
        App::new(1).clear().draw().setup,
        vec![DriverOp::MoveTo(0, 0), DriverOp::ShowCursor, DriverOp::ClearScreen]
    );
}

#[test]
fn exit_restores_the_terminal() {
    assert_eq!(
        App::new(60).exit(),
        vec![DriverOp::MoveTo(0, 0), DriverOp::ShowCursor, DriverOp::LeaveAlternateScreen]
    );
    assert_eq!(
        App::new(60).hide_cursor().alternate_screen().raw_mode().exit(),
        vec![
            DriverOp::MoveTo(0, 0),
            DriverOp::ShowCursor,
            DriverOp::LeaveAlternateScreen,
            DriverOp::DisableRawMode,
        ]
    );
}

#[test]
fn exit_before_any_frame_still_disables_configured_raw_mode() {
    let teardown = App::new(60).raw_mode().exit();
    assert_eq!(count(&teardown, DriverOp::DisableRawMode), 1);
    let teardown = App::new(60).exit();
    assert_eq!(count(&teardown, DriverOp::DisableRawMode), 0);
}
