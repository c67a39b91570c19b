//! The uniform event stream the render loop consumes, and the
//! classification of raw terminal input into it.
//!
//! Quit shortcuts are `Esc`, `q`, and `Ctrl-C`. Only key presses surface;
//! releases and repeats are filtered, and mouse, focus and paste input is
//! discarded.

use vstd::prelude::*;

verus! {

/// The key that was pressed, reduced to what the dashboard distinguishes.
#[derive(Clone, Copy, Debug, PartialEq, Eq, Structural)]
pub enum KeyCode {
    Esc,
    Char(char),
    Other,
}

/// Whether a key event is a press, a release, or an auto-repeat.
#[derive(Clone, Copy, Debug, PartialEq, Eq, Structural)]
pub enum KeyKind {
    Press,
    Release,
    Repeat,
}

/// One key event: its code, whether the modifiers were exactly Control, and
/// its kind.
#[derive(Clone, Copy, Debug, PartialEq, Eq, Structural)]
pub struct KeyPress {
    pub code: KeyCode,
    pub ctrl: bool,
    pub kind: KeyKind,
}

/// Raw terminal input, before classification.
#[derive(Clone, Copy, Debug, PartialEq, Eq, Structural)]
pub enum TermInput {
    Key(KeyPress),
    Resize(u16, u16),
    Mouse,
    FocusGained,
    FocusLost,
    Paste,
}

/// An event of the uniform stream the render loop consumes.
#[derive(Clone, Copy, Debug, PartialEq, Eq, Structural)]
pub enum Event {
    /// The user asked to exit.
    Quit,
    /// The fixed timer fired.
    Tick,
    /// A key press that is not a quit shortcut.
    Key(KeyPress),
    /// The terminal was resized.
    Resize(u16, u16),
}

/// Whether a key press is one of the quit shortcuts: `Esc`, `q`, or
/// `Ctrl-C`.
pub open spec fn is_quit_key(k: KeyPress) -> bool {
    ||| k.code == KeyCode::Esc
    ||| k.code == KeyCode::Char('q')
    ||| (k.ctrl && (k.code == KeyCode::Char('c') || k.code == KeyCode::Char('C')))
}

/// What raw input becomes on the event stream: `None` is filtered out.
pub open spec fn spec_classify(i: TermInput) -> Option<Event> {
    match i {
        TermInput::Key(k) => {
            if k.kind != KeyKind::Press {
                None
            } else if is_quit_key(k) {
                Some(Event::Quit)
            } else {
                Some(Event::Key(k))
            }
        },
        TermInput::Resize(w, h) => Some(Event::Resize(w, h)),
        TermInput::Mouse => None,
        TermInput::FocusGained => None,
        TermInput::FocusLost => None,
        TermInput::Paste => None,
    }
}

/// Classify one raw terminal input: quit shortcuts become `Quit`, other key
/// presses become `Key`, resizes pass through, and everything else is
/// dropped.
pub fn classify(i: TermInput) -> (r: Option<Event>)
    ensures
        r == spec_classify(i),
{
    match i {
        TermInput::Key(k) => {
            match k.kind {
                KeyKind::Release => None,
                KeyKind::Repeat => None,
                KeyKind::Press => {
                    match k.code {
                        KeyCode::Esc => Some(Event::Quit),
                        KeyCode::Char(c) => {
                            if c == 'q' {
                                Some(Event::Quit)
                            } else if k.ctrl && (c == 'c' || c == 'C') {
                                Some(Event::Quit)
                            } else {
                                Some(Event::Key(k))
                            }
                        },
                        KeyCode::Other => Some(Event::Key(k)),
                    }
                },
            }
        },
        TermInput::Resize(w, h) => Some(Event::Resize(w, h)),
        TermInput::Mouse => None,
        TermInput::FocusGained => None,
        TermInput::FocusLost => None,
        TermInput::Paste => None,
    }
}

} // verus!
