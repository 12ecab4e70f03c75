//! The tabs of the terminal interface.

pub mod ai;
pub mod edit;
pub mod file;
pub mod font_info;
pub mod game_of_life;
pub mod glyph;
pub mod glyphs;
pub mod help;
pub mod logs;
pub mod path;
pub mod qa;
pub mod unicode;

use vstd::prelude::*;
use crate::tui::communication::GlyphInfo;
use crate::tui::events::{KeyCode, KeyEvent};
use crate::tui::tabs::game_of_life::toggled;

verus! {

/// The kinds of tab.
#[derive(Debug, Clone, Copy, PartialEq, Eq, Structural)]
pub enum TabType {
    File,
    Edit,
    Unicode,
    FontInfo,
    QA,
    Glyph,
    Path,
    AI,
    Help,
}

/// The title shown for each kind of tab.
pub open spec fn tab_title(t: TabType) -> Seq<char> {
    match t {
        TabType::File => "File"@,
        TabType::Edit => "Edit"@,
        TabType::Unicode => "Unicode"@,
        TabType::FontInfo => "Font Info"@,
        TabType::QA => "QA"@,
        TabType::Glyph => "Glyph"@,
        TabType::Path => "Path"@,
        TabType::AI => "AI"@,
        TabType::Help => "Help"@,
    }
}

impl TabType {
    /// The tab's title.
    pub fn title(&self) -> (r: &'static str)
        ensures
            r@ == tab_title(*self),
    {
        match self {
            TabType::File => "File",
            TabType::Edit => "Edit",
            TabType::Unicode => "Unicode",
            TabType::FontInfo => "Font Info",
            TabType::QA => "QA",
            TabType::Glyph => "Glyph",
            TabType::Path => "Path",
            TabType::AI => "AI",
            TabType::Help => "Help",
        }
    }
}

/// The state of a tab, by kind.
#[derive(Debug)]
pub enum TabState {
    File(file::FileState),
    Edit(edit::EditState),
    Unicode(unicode::GlyphsState),
    FontInfo(font_info::FontInfoState),
    QA(qa::QAState),
    Glyph(glyph::GlyphState),
    Path(path::PathState),
    AI(ai::AIState),
    Help(help::HelpState),
}

/// Whether a tab's state is of the tab's kind.
pub open spec fn state_matches(t: TabType, s: TabState) -> bool {
    match (t, s) {
        (TabType::File, TabState::File(_)) => true,
        (TabType::Edit, TabState::Edit(_)) => true,
        (TabType::Unicode, TabState::Unicode(_)) => true,
        (TabType::FontInfo, TabState::FontInfo(_)) => true,
        (TabType::QA, TabState::QA(_)) => true,
        (TabType::Glyph, TabState::Glyph(_)) => true,
        (TabType::Path, TabState::Path(_)) => true,
        (TabType::AI, TabState::AI(_)) => true,
        (TabType::Help, TabState::Help(_)) => true,
        _ => false,
    }
}

/// Whether `s` is the initial state of a tab of kind `t`: that kind's
/// `new()` state, the QA tab showing the demonstration report.
pub open spec fn is_initial_state(t: TabType, s: TabState) -> bool {
    match (t, s) {
        (TabType::File, TabState::File(f)) => f.selected_index == 0 && f.file_actions@.len() == 0,
        (TabType::Edit, TabState::Edit(e)) => e.selected_index == 0,
        (TabType::Unicode, TabState::Unicode(g)) => g.selected_index == 0 && g.scroll_offset == 0
            && g.search_query@.len() == 0 && !g.is_searching,
        (TabType::FontInfo, TabState::FontInfo(f)) => f.font_info is None,
        (TabType::QA, TabState::QA(q)) => {
            &&& qa::issues_view(q.issues@) == qa::demo_issues()
            &&& q.current_report matches Some(rep) && qa::issues_view(rep.issues@) == qa::demo_issues()
                && rep.summary == qa::demo_summary()
            &&& q.selected_issue == 0
            &&& q.filter_severity is None
            &&& q.filter_category is None
            &&& !q.is_running
            &&& q.progress == 0
            &&& q.scroll_offset == 0
            &&& q.view_mode == qa::QAView::IssueList
        },
        (TabType::Glyph, TabState::Glyph(g)) => g.current_glyph is None,
        (TabType::Path, TabState::Path(_)) => true,
        (TabType::AI, TabState::AI(a)) => {
            &&& a.game.well_formed()
            &&& a.game.width == 80
            &&& a.game.height == 40
            &&& a.game.generation == 0
            &&& a.game.update_interval_ms == 125
            &&& !a.game.paused
        },
        (TabType::Help, TabState::Help(h)) => h.scroll_offset == 0,
        _ => false,
    }
}

/// A tab: its kind and its state.
#[derive(Debug)]
pub struct Tab {
    pub tab_type: TabType,
    pub state: TabState,
}

impl Tab {
    /// A new tab of the given kind with that kind's initial state; the QA
    /// tab starts with the demonstration report.
    pub fn new(tab_type: TabType) -> (r: Self)
        ensures
            r.tab_type == tab_type,
            state_matches(tab_type, r.state),
            is_initial_state(tab_type, r.state),
    {
        let state = match tab_type {
            TabType::File => TabState::File(file::FileState::new()),
            TabType::Edit => TabState::Edit(edit::EditState::new()),
            TabType::Unicode => TabState::Unicode(unicode::GlyphsState::new()),
            TabType::FontInfo => TabState::FontInfo(font_info::FontInfoState::new()),
            TabType::QA => {
                let mut qa_state = qa::QAState::new();
                qa_state.load_demo_data();
                TabState::QA(qa_state)
            },
            TabType::Glyph => TabState::Glyph(glyph::GlyphState::new()),
            TabType::Path => TabState::Path(path::PathState::new()),
            TabType::AI => TabState::AI(ai::AIState::new()),
            TabType::Help => TabState::Help(help::HelpState::new()),
        };
        Tab { tab_type, state }
    }
}

/// What the application has to do after a key in a tab.
#[derive(Debug, Clone, Copy, PartialEq, Eq, Structural)]
pub enum TabKeyOutcome {
    Nothing,
    /// Select the glyph with this codepoint in the editor.
    SelectGlyph(u32),
    /// Run the font checker again.
    RefreshQA,
}

/// Whether a tab's state can take `key` within the machine's limits: moving
/// down a list needs room for one more index, a page down for ten more.
pub open spec fn ready_for_keys(s: TabState, key: KeyEvent) -> bool {
    match s {
        TabState::Unicode(g) => {
            &&& !g.is_searching && (key.code == KeyCode::Down || key.code == KeyCode::Char('j'))
                ==> g.selected_index < usize::MAX
            &&& !g.is_searching && key.code == KeyCode::PageDown ==> g.selected_index + 10
                <= usize::MAX
        },
        TabState::QA(q) => (key.code == KeyCode::Down || key.code == KeyCode::Char('j'))
            ==> q.selected_issue < usize::MAX,
        _ => true,
    }
}

impl Tab {
    /// Whether the tab can take `key` now (see `ready_for_keys`).
    pub fn accepts_keys(&self, key: KeyEvent) -> (r: bool)
        ensures
            r == ready_for_keys(self.state, key),
    {
        let down = key.code == KeyCode::Down || key.code == KeyCode::Char('j');
        match &self.state {
            TabState::Unicode(g) => {
                (g.is_searching || !down || g.selected_index < usize::MAX) && (g.is_searching
                    || key.code != KeyCode::PageDown || g.selected_index <= usize::MAX - 10)
            },
            TabState::QA(q) => !down || q.selected_issue < usize::MAX,
            _ => true,
        }
    }

    /// Give a key to the tab. The Unicode tab navigates its glyph list
    /// (`glyphs`) and may select a glyph, the QA tab navigates its issues
    /// and may ask for a new analysis, the AI tab pauses or restarts its
    /// game; the other tabs do not react to keys yet.
    pub fn handle_key_event(&mut self, key: KeyEvent, glyphs: &[GlyphInfo]) -> (r: TabKeyOutcome)
        requires
            ready_for_keys(old(self).state, key),
        ensures
            final(self).tab_type == old(self).tab_type,
            match old(self).state {
                TabState::Unicode(g) => final(self).state matches TabState::Unicode(g2) && ({
                    let sel = unicode::enter_selection(glyphs@, g.selected_index as int);
                    if g.is_searching {
                        (g2.search_query@, g2.is_searching) == unicode::search_key_effect(
                            g.search_query@,
                            g.is_searching,
                            key.code,
                        ) && g2.selected_index == g.selected_index && r == TabKeyOutcome::Nothing
                    } else {
                        g2.selected_index == unicode::navigation_effect(
                            g.selected_index as int,
                            key.code,
                            glyphs@.len() as int,
                        ) && g2.is_searching == (key.code == KeyCode::Char('/')) && r == if key.code
                            == KeyCode::Enter && sel is Some {
                            TabKeyOutcome::SelectGlyph(sel->0)
                        } else {
                            TabKeyOutcome::Nothing
                        }
                    }
                }),
                TabState::QA(q) => final(self).state matches TabState::QA(q2) && qa::qa_key_handled(q, q2, key)
                    && r == (if key.code == KeyCode::Char('r') {
                    TabKeyOutcome::RefreshQA
                } else {
                    TabKeyOutcome::Nothing
                }),
                TabState::AI(a) => final(self).state matches TabState::AI(a2) && r == TabKeyOutcome::Nothing
                    && (a.game.well_formed() ==> a2.game.well_formed()) && a2.game.width == a.game.width
                    && a2.game.height == a.game.height && (key.code == KeyCode::Char(' ') ==> toggled(
                    a.game,
                    a2.game,
                )) && ((key.code == KeyCode::Char('r') || key.code == KeyCode::Char('R')) ==> a2.game.well_formed()
                    && a2.game.generation == 0 && a2.game.update_interval_ms == 125 && !a2.game.paused) && (!(
                key.code == KeyCode::Char(' ') || key.code == KeyCode::Char('r') || key.code == KeyCode::Char(
                    'R',
                )) ==> a2 == a),
                _ => final(self).state == old(self).state && r == TabKeyOutcome::Nothing,
            },
    {
        match &mut self.state {
            TabState::Unicode(state) => {
                match unicode::handle_key_event_simple(state, key, glyphs.len(), glyphs) {
                    Some(c) => TabKeyOutcome::SelectGlyph(c),
                    None => TabKeyOutcome::Nothing,
                }
            },
            TabState::QA(state) => {
                match qa::handle_key_event(state, key) {
                    qa::QAKeyOutcome::RefreshRequested => TabKeyOutcome::RefreshQA,
                    qa::QAKeyOutcome::Handled => TabKeyOutcome::Nothing,
                }
            },
            TabState::AI(state) => {
                ai::handle_key_event(state, key);
                TabKeyOutcome::Nothing
            },
            _ => TabKeyOutcome::Nothing,
        }
    }
}

} // verus!
