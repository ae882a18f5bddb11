use transmutation::coordinator::{plan_rewrite, Action, Coordinator, Event, Key, Mode, Outcome, Phase, Plan, Status};
use transmutation::engine::Recipe;

fn reddit() -> Recipe {
    Recipe {
        name: "fix reddit".to_string(),
        pattern: "//reddit.com/".to_string(),
        replacement: "//old.reddit.com/".to_string(),
    }
}

#[test]
fn starts_waiting_and_running() {
    let c = Coordinator::new(Mode::Manual);
    assert_eq!(c.status, Status::Waiting);
    assert_eq!(c.phase, Phase::Running);
    assert_eq!(c.message(), "Waiting...");
}

#[test]
fn quit_key_quits_from_every_status() {
    for status in [Status::Waiting, Status::Replaced, Status::NoMatch, Status::ClipboardFailed] {
        for mode in [Mode::Manual, Mode::Timer] {
            let mut c = Coordinator { mode, status, phase: Phase::Running };
            assert_eq!(c.handle_event(Event::Input(Key::Char('q'))), Action::Teardown);
            assert_eq!(c.phase, Phase::Quitting);
            assert_eq!(c.status, status);
        }
    }
}

#[test]
fn teardown_happens_once() {
    let mut c = Coordinator::new(Mode::Manual);
    assert_eq!(c.handle_event(Event::Input(Key::Char('q'))), Action::Teardown);
    assert_eq!(c.handle_event(Event::Input(Key::Char('q'))), Action::Nothing);
    assert_eq!(c.handle_event(Event::Tick), Action::Nothing);
    assert_eq!(c.phase, Phase::Quitting);
}

#[test]
fn manual_mode_rewrites_on_r_only() {
    let mut c = Coordinator::new(Mode::Manual);
    assert_eq!(c.handle_event(Event::Input(Key::Char('r'))), Action::Rewrite);
    assert_eq!(c.handle_event(Event::Input(Key::Char('x'))), Action::Nothing);
    assert_eq!(c.handle_event(Event::Input(Key::Other)), Action::Nothing);
    assert_eq!(c.handle_event(Event::Tick), Action::Nothing);
    assert_eq!(c.phase, Phase::Running);
}

#[test]
fn timer_mode_rewrites_on_tick_only() {
    let mut c = Coordinator::new(Mode::Timer);
    assert_eq!(c.handle_event(Event::Tick), Action::Rewrite);
    assert_eq!(c.handle_event(Event::Input(Key::Char('r'))), Action::Nothing);
    c.record_outcome(Outcome::Replaced);
    assert_eq!(c.status, Status::Waiting);
}

#[test]
fn tick_resets_status_in_manual_mode() {
    let mut c = Coordinator::new(Mode::Manual);
    c.record_outcome(Outcome::Replaced);
    assert_eq!(c.status, Status::Replaced);
    assert_eq!(c.message(), "Replaced!");
    c.handle_event(Event::Tick);
    assert_eq!(c.status, Status::Waiting);
    c.record_outcome(Outcome::NoFix);
    assert_eq!(c.message(), "No match.");
}

#[test]
fn clipboard_failure_keeps_loop_running() {
    let mut c = Coordinator::new(Mode::Manual);
    assert_eq!(c.handle_event(Event::Input(Key::Char('r'))), Action::Rewrite);
    assert!(matches!(plan_rewrite(None, vec![reddit()]), Plan::ReadFailed));
    c.record_outcome(Outcome::ClipboardFailed);
    assert_eq!(c.phase, Phase::Running);
    assert_eq!(c.status, Status::ClipboardFailed);
    assert_eq!(c.message(), "Clipboard unavailable.");
    assert_eq!(c.handle_event(Event::Input(Key::Char('r'))), Action::Rewrite);
    assert_eq!(c.handle_event(Event::Input(Key::Char('q'))), Action::Teardown);
}

#[test]
fn plan_writes_first_fix() {
    match plan_rewrite(Some("https://reddit.com/r/unixporn".to_string()), vec![reddit()]) {
        Plan::Write(text) => assert_eq!(text, "https://old.reddit.com/r/unixporn"),
        _ => panic!("expected a write"),
    }
}

#[test]
fn plan_leaves_clipboard_without_fix() {
    assert!(matches!(
        plan_rewrite(Some("https://example.org".to_string()), vec![reddit()]),
        Plan::NoFix
    ));
    assert!(matches!(plan_rewrite(Some("anything".to_string()), vec![]), Plan::NoFix));
}
