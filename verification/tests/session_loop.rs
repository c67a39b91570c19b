use gmon::events::{classify, Event, KeyCode, KeyKind, KeyPress, TermInput};
use gmon::model::Project;
use gmon::session::{handle_event, run_model, run_single_view_model, LoopAction};

fn press(code: KeyCode, ctrl: bool) -> TermInput {
    TermInput::Key(KeyPress { code, ctrl, kind: KeyKind::Press })
}

fn project(path: &str) -> Project {
    Project { id: path.to_string(), full_path: path.to_string(), pipelines: Vec::new() }
}

#[test]
fn quit_shortcuts_classify_as_quit() {
    assert_eq!(classify(press(KeyCode::Esc, false)), Some(Event::Quit));
    assert_eq!(classify(press(KeyCode::Char('q'), false)), Some(Event::Quit));
    assert_eq!(classify(press(KeyCode::Char('c'), true)), Some(Event::Quit));
    assert_eq!(classify(press(KeyCode::Char('C'), true)), Some(Event::Quit));
}

#[test]
fn other_presses_surface_as_key_events() {
    let k = KeyPress { code: KeyCode::Char('x'), ctrl: false, kind: KeyKind::Press };
    assert_eq!(classify(TermInput::Key(k)), Some(Event::Key(k)));
    let c = KeyPress { code: KeyCode::Char('c'), ctrl: false, kind: KeyKind::Press };
    assert_eq!(classify(TermInput::Key(c)), Some(Event::Key(c)));
}

#[test]
fn q_quits_with_any_modifiers() {
    assert_eq!(classify(press(KeyCode::Char('q'), true)), Some(Event::Quit));
}

#[test]
fn releases_and_repeats_are_filtered() {
    let r = KeyPress { code: KeyCode::Char('q'), ctrl: false, kind: KeyKind::Release };
    assert_eq!(classify(TermInput::Key(r)), None);
    let rep = KeyPress { code: KeyCode::Esc, ctrl: false, kind: KeyKind::Repeat };
    assert_eq!(classify(TermInput::Key(rep)), None);
}

#[test]
fn mouse_focus_and_paste_are_discarded() {
    assert_eq!(classify(TermInput::Mouse), None);
    assert_eq!(classify(TermInput::FocusGained), None);
    assert_eq!(classify(TermInput::FocusLost), None);
    assert_eq!(classify(TermInput::Paste), None);
}

#[test]
fn resize_passes_through() {
    assert_eq!(classify(TermInput::Resize(80, 24)), Some(Event::Resize(80, 24)));
}

#[test]
fn loop_actions_per_event() {
    assert_eq!(handle_event(&Event::Tick), LoopAction::Continue);
    assert_eq!(handle_event(&Event::Quit), LoopAction::Exit);
    let k = KeyPress { code: KeyCode::Char('x'), ctrl: false, kind: KeyKind::Press };
    assert_eq!(handle_event(&Event::Key(k)), LoopAction::Exit);
    assert_eq!(handle_event(&Event::Resize(80, 24)), LoopAction::Resize(80, 24));
}

#[test]
fn one_frame_per_iteration_and_exit_on_quit() {
    let k = KeyPress { code: KeyCode::Char('x'), ctrl: false, kind: KeyKind::Press };
    let log = run_model(&vec![
        Event::Tick,
        Event::Resize(100, 30),
        Event::Tick,
        Event::Key(k),
        Event::Tick,
    ]);
    assert_eq!(log.iterations, 4);
    assert_eq!(log.frames, 4);
    assert!(log.exited);
    assert!(!log.raw_mode);
}

#[test]
fn quit_mid_trace_restores_terminal() {
    let log = run_model(&vec![Event::Tick, Event::Quit, Event::Tick]);
    assert_eq!(log.frames, 2);
    assert!(log.exited);
    assert!(!log.raw_mode);
}

#[test]
fn trace_without_quit_keeps_looping() {
    let log = run_model(&vec![Event::Tick, Event::Tick, Event::Resize(10, 5)]);
    assert_eq!(log.frames, 3);
    assert!(!log.exited);
    assert!(log.raw_mode);
}

#[test]
fn single_view_loop_holds_last_published_value() {
    let events = vec![Event::Tick, Event::Tick, Event::Quit];
    let batches = vec![
        vec![project("old")],
        Vec::new(),
        vec![project("mid"), project("new")],
    ];
    let (log, projection) = run_single_view_model(&events, batches);
    assert_eq!(log.frames, 3);
    assert!(log.exited);
    assert!(!log.raw_mode);
    assert_eq!(projection.project.map(|p| p.full_path), Some("new".to_string()));
}

#[test]
fn empty_trace_draws_nothing() {
    let log = run_model(&Vec::new());
    assert_eq!(log.frames, 0);
    assert!(!log.exited);
}
