use vstd::prelude::*;
use crate::session::{App, Screen};

verus! {

/// A key, as far as the results screen tells keys apart.
#[derive(Clone, Copy, Debug, PartialEq, Eq, Structural)]
pub enum Key {
    Esc,
    Tab,
    Char(char),
    Other,
}

/// One key press; `control` holds when Control is the only modifier.
#[derive(Clone, Copy, Debug, PartialEq, Eq, Structural)]
pub struct KeyPress {
    pub key: Key,
    pub control: bool,
}

/// The key press asks to leave the application.
pub open spec fn quits(k: KeyPress) -> bool {
    k.key == Key::Esc || k.key == Key::Char('q') || (k.control && k.key == Key::Char('c'))
}

/// Handles a key on the results screen. Returns whether a new test must be
/// started (Tab), which also switches back to the test screen.
pub fn handle(key: KeyPress, app: &mut App) -> (restart: bool)
    ensures
        restart == (key.key == Key::Tab),
        final(app).should_quit == (old(app).should_quit || quits(key)),
        final(app).screen == (if restart {
            Screen::Test
        } else {
            old(app).screen
        }),
        final(app).cursor_x == old(app).cursor_x,
        final(app).margin == old(app).margin,
        final(app).config == old(app).config,
{
    match key.key {
        Key::Esc => {
            app.should_quit = true;
            false
        },
        Key::Tab => {
            app.screen = Screen::Test;
            true
        },
        Key::Char(c) => {
            if key.control && c == 'c' {
                app.should_quit = true;
                return false;
            }
            if c == 'q' {
                app.should_quit = true;
            }
            false
        },
        _ => false,
    }
}

} // verus!
