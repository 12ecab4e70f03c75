//! Tab navigation and the log of the terminal interface.

use vstd::prelude::*;
use crate::tui::events::{KeyCode, KeyEvent};

verus! {

/// The tab after `current` among `count` tabs, wrapping around.
pub open spec fn next_tab_index(current: int, count: int) -> int {
    (current + 1) % count
}

/// The tab before `current` among `count` tabs, wrapping around.
pub open spec fn previous_tab_index(current: int, count: int) -> int {
    if current > 0 { current - 1 } else { count - 1 }
}

/// The tab after `current_tab`, wrapping around.
pub fn next_tab(current_tab: usize, tab_count: usize) -> (r: usize)
    requires
        tab_count > 0,
        current_tab < usize::MAX,
    ensures
        r == next_tab_index(current_tab as int, tab_count as int),
        r < tab_count,
{
    (current_tab + 1) % tab_count
}

/// The tab before `current_tab`, wrapping around.
pub fn previous_tab(current_tab: usize, tab_count: usize) -> (r: usize)
    requires
        tab_count > 0,
    ensures
        r == previous_tab_index(current_tab as int, tab_count as int),
{
    if current_tab > 0 {
        current_tab - 1
    } else {
        tab_count - 1
    }
}

/// What a key does at the level of the whole interface.
#[derive(Debug, Clone, Copy, PartialEq, Eq, Structural)]
pub enum GlobalKeyAction {
    Quit,
    SwitchTo(usize),
    /// A digit for a tab that does not exist: nothing happens.
    Ignore,
    /// The key belongs to the current tab.
    Forward,
}

/// The global meaning of a key: Ctrl+Q quits, Tab and Shift+Tab cycle the
/// tabs, a digit d jumps to tab d (1 is the first) when it exists, every
/// other key goes to the current tab.
pub open spec fn global_key_action(key: KeyEvent, current_tab: int, tab_count: int) -> GlobalKeyAction {
    match key.code {
        KeyCode::Char(c) => if c == 'q' && key.modifiers.spec_is_control_only() {
            GlobalKeyAction::Quit
        } else if '0' <= c <= '9' {
            let d = (c as int) - ('0' as int);
            let index = if d >= 1 { d - 1 } else { 0 };
            if index < tab_count {
                GlobalKeyAction::SwitchTo(index as usize)
            } else {
                GlobalKeyAction::Ignore
            }
        } else {
            GlobalKeyAction::Forward
        },
        KeyCode::Tab => GlobalKeyAction::SwitchTo(next_tab_index(current_tab, tab_count) as usize),
        KeyCode::BackTab => GlobalKeyAction::SwitchTo(
            previous_tab_index(current_tab, tab_count) as usize,
        ),
        _ => GlobalKeyAction::Forward,
    }
}

/// Decide what a key does at the level of the whole interface.
pub fn handle_global_key(key: KeyEvent, current_tab: usize, tab_count: usize) -> (r: GlobalKeyAction)
    requires
        tab_count > 0,
        current_tab < tab_count,
    ensures
        r == global_key_action(key, current_tab as int, tab_count as int),
        r matches GlobalKeyAction::SwitchTo(i) ==> i < tab_count,
{
    match key.code {
        KeyCode::Char(c) => {
            if c == 'q' && key.modifiers.is_control_only() {
                GlobalKeyAction::Quit
            } else if '0' <= c && c <= '9' {
                let digit = (c as u32) - ('0' as u32);
                let tab_index: usize = if digit >= 1 { (digit - 1) as usize } else { 0 };
                if tab_index < tab_count {
                    GlobalKeyAction::SwitchTo(tab_index)
                } else {
                    GlobalKeyAction::Ignore
                }
            } else {
                GlobalKeyAction::Forward
            }
        },
        KeyCode::Tab => GlobalKeyAction::SwitchTo(next_tab(current_tab, tab_count)),
        KeyCode::BackTab => GlobalKeyAction::SwitchTo(previous_tab(current_tab, tab_count)),
        _ => GlobalKeyAction::Forward,
    }
}

/// The log keeps its last 1000 lines.
pub open spec fn trimmed_log(lines: Seq<String>) -> Seq<String> {
    if lines.len() > 1000 {
        lines.skip(lines.len() - 1000)
    } else {
        lines
    }
}

/// Append a line to the log, dropping the oldest lines beyond 1000.
pub fn push_log_line(logs: &mut Vec<String>, line: String)
    ensures
        final(logs)@ == trimmed_log(old(logs)@.push(line)),
{
    logs.push(line);
    if logs.len() > 1000 {
        let excess = logs.len() - 1000;
        let ghost full = logs@;
        let mut kept: Vec<String> = Vec::new();
        let mut i: usize = excess;
        while i < logs.len()
            invariant
                logs@ == full,
                excess == full.len() - 1000,
                excess <= i <= full.len(),
                kept@ == full.subrange(excess as int, i as int),
            decreases full.len() - i,
        {
            kept.push(logs[i].clone());
            i = i + 1;
            assert(kept@ =~= full.subrange(excess as int, i as int));
        }
        *logs = kept;
        assert(logs@ =~= full.skip(excess as int));
    }
}

/// Cycling forward through all tabs returns to the first one, and the
/// previous tab of the next tab is the current tab.
pub proof fn tab_cycling_laws(current: int, count: int)
    requires
        0 <= current < count,
    ensures
        0 <= next_tab_index(current, count) < count,
        0 <= previous_tab_index(current, count) < count,
        previous_tab_index(next_tab_index(current, count), count) == current,
        next_tab_index(previous_tab_index(current, count), count) == current,
{
    assert((current + 1) % count == if current + 1 < count { current + 1 } else { 0 }) by (nonlinear_arith)
        requires
            0 <= current < count,
    ;
    let p = previous_tab_index(current, count);
    assert((p + 1) % count == if p + 1 < count { p + 1 } else { 0 }) by (nonlinear_arith)
        requires
            0 <= p < count,
    ;
}

/// The log never holds more than 1000 lines and always ends with the
/// newest line.
pub proof fn log_keeps_last_thousand(lines: Seq<String>, line: String)
    requires
        lines.len() <= 1000,
    ensures
        trimmed_log(lines.push(line)).len() <= 1000,
        trimmed_log(lines.push(line)).last() == line,
{
}

} // verus!
