//! The log view: scrolling with automatic following of new lines.

use vstd::prelude::*;
use crate::tui::events::{KeyCode, KeyEvent};

verus! {

/// Scrolling of the log view.
#[derive(Debug, Clone)]
pub struct LogsState {
    pub scroll_offset: usize,
    pub auto_scroll: bool,
}

impl LogsState {
    /// At the top, following new lines.
    pub fn new() -> (r: Self)
        ensures
            r.scroll_offset == 0,
            r.auto_scroll,
    {
        LogsState { scroll_offset: 0, auto_scroll: true }
    }

    /// Scroll up one line; scrolling up stops following new lines.
    pub fn scroll_up(&mut self)
        ensures
            old(self).scroll_offset > 0 ==> final(self).scroll_offset == old(self).scroll_offset - 1
                && !final(self).auto_scroll,
            old(self).scroll_offset == 0 ==> *final(self) == *old(self),
    {
        if self.scroll_offset > 0 {
            self.scroll_offset = self.scroll_offset - 1;
            self.auto_scroll = false;
        }
    }

    /// Scroll down one line while lines remain below the view; at the
    /// bottom, follow new lines again.
    pub fn scroll_down(&mut self, max_lines: usize, visible_lines: usize)
        requires
            old(self).scroll_offset + visible_lines <= usize::MAX,
        ensures
            old(self).scroll_offset + visible_lines < max_lines ==> final(self).scroll_offset
                == old(self).scroll_offset + 1 && final(self).auto_scroll == old(self).auto_scroll,
            old(self).scroll_offset + visible_lines >= max_lines ==> final(self).scroll_offset
                == old(self).scroll_offset && final(self).auto_scroll,
    {
        if self.scroll_offset + visible_lines < max_lines {
            self.scroll_offset = self.scroll_offset + 1;
        } else {
            self.auto_scroll = true;
        }
    }

    /// When following, show the last lines.
    pub fn update_auto_scroll(&mut self, max_lines: usize, visible_lines: usize)
        ensures
            final(self).auto_scroll == old(self).auto_scroll,
            final(self).scroll_offset == if old(self).auto_scroll && max_lines > visible_lines {
                (max_lines - visible_lines) as usize
            } else {
                old(self).scroll_offset
            },
    {
        if self.auto_scroll && max_lines > visible_lines {
            self.scroll_offset = max_lines - visible_lines;
        }
    }
}

impl Default for LogsState {
    fn default() -> (r: Self)
        ensures
            r.scroll_offset == 0,
            r.auto_scroll,
    {
        LogsState::new()
    }
}

/// What a key does in the log view: up and down scroll, Home jumps to the
/// top and stops following, End follows new lines again.
pub open spec fn log_key_handled(before: LogsState, after: LogsState, key: KeyEvent, logs_len: int) -> bool {
    match key.code {
        KeyCode::Up | KeyCode::Char('k') => (before.scroll_offset > 0 ==> (after.scroll_offset
            == before.scroll_offset - 1 && !after.auto_scroll)) && (before.scroll_offset == 0 ==> after
            == before),
        KeyCode::Down | KeyCode::Char('j') => if before.scroll_offset + 20 < logs_len {
            after.scroll_offset == before.scroll_offset + 1 && after.auto_scroll == before.auto_scroll
        } else {
            after.scroll_offset == before.scroll_offset && after.auto_scroll
        },
        KeyCode::Home => after.scroll_offset == 0 && !after.auto_scroll,
        KeyCode::End => after.scroll_offset == before.scroll_offset && after.auto_scroll,
        _ => after == before,
    }
}

/// Handle a key in the log view of `logs_len` lines.
pub fn handle_key_event_simple(state: &mut LogsState, key: KeyEvent, logs_len: usize)
    requires
        old(state).scroll_offset + 20 <= usize::MAX,
    ensures
        log_key_handled(*old(state), *final(state), key, logs_len as int),
{
    match key.code {
        KeyCode::Up | KeyCode::Char('k') => {
            state.scroll_up();
        },
        KeyCode::Down | KeyCode::Char('j') => {
            state.scroll_down(logs_len, 20);
        },
        KeyCode::Home => {
            state.scroll_offset = 0;
            state.auto_scroll = false;
        },
        KeyCode::End => {
            state.auto_scroll = true;
        },
        _ => {},
    }
}

/// Handle a key in the log view of the application's log lines.
pub fn handle_key_event(state: &mut LogsState, key: KeyEvent, logs: &[String])
    requires
        old(state).scroll_offset + 20 <= usize::MAX,
    ensures
        log_key_handled(*old(state), *final(state), key, logs@.len() as int),
{
    handle_key_event_simple(state, key, logs.len());
}

} // verus!
