use bezy::tui::app::{handle_global_key, next_tab, previous_tab, push_log_line, GlobalKeyAction};
use bezy::text::font::{FontGlyphs, GlyphRecord};
use bezy::tui::communication::{generate_glyph_list, FileAction, GlyphInfo};
use bezy::tui::events::{KeyCode, KeyEvent, KeyModifiers};
use bezy::tui::tabs::ai::{handle_key_event as ai_key, AIState};
use bezy::tui::tabs::file::FileState;
use bezy::tui::tabs::game_of_life::GameOfLifeState;
use bezy::tui::tabs::logs::{handle_key_event as logs_key_for, handle_key_event_simple as logs_key, LogsState};
use bezy::tui::tabs::qa::{
    handle_key_event as qa_key, merge_report_issues, severity_counts, show_analysis_error,
    show_analysis_started, Category, QAIssue, QAKeyOutcome, QAReport, QAState, QASummary, QAView, Severity,
};
use bezy::tui::tabs::unicode::{
    filtered_glyph_indices, filtered_selection, glyph_list_line, glyph_matches_search,
    handle_key_event as unicode_key_for, handle_key_event_simple as unicode_key, GlyphsState,
};
use bezy::tui::tabs::{glyphs, Tab, TabKeyOutcome, TabState, TabType};

fn key(code: KeyCode) -> KeyEvent {
    KeyEvent { code, modifiers: KeyModifiers { control: false, shift: false, alt: false } }
}

fn glyph(name: &str, unicode: Option<u32>) -> GlyphInfo {
    GlyphInfo { codepoint: name.to_string(), name: Some(name.to_string()), unicode, width: Some(500) }
}

#[test]
fn glyph_list_navigation_and_scrolling() {
    let mut s = GlyphsState::new();
    s.select_next(3);
    s.select_next(3);
    s.select_next(3);
    assert_eq!(s.selected_index, 2);
    s.select_previous();
    assert_eq!(s.selected_index, 1);
    s.page_down(100, 10);
    assert_eq!(s.selected_index, 11);
    s.page_down(5, 10);
    assert_eq!(s.selected_index, 4);
    s.page_up(10);
    assert_eq!(s.selected_index, 0);
    s.select_next(0);
    assert_eq!(s.selected_index, 0);
    s.selected_index = 25;
    s.update_scroll(10);
    assert_eq!(s.scroll_offset, 16);
    s.selected_index = 3;
    s.update_scroll(10);
    assert_eq!(s.scroll_offset, 3);
    s.selected_index = 12;
    s.update_scroll(10);
    assert_eq!(s.scroll_offset, 3);
}

#[test]
fn unicode_tab_keys_and_search() {
    let glyphs = vec![glyph("A", Some(65)), glyph("B", None), glyph("C", Some(67))];
    let mut s = GlyphsState::new();
    assert_eq!(unicode_key(&mut s, key(KeyCode::Char('j')), 3, &glyphs), None);
    assert_eq!(s.selected_index, 1);
    // The selected glyph has no codepoint: nothing is selected.
    assert_eq!(unicode_key(&mut s, key(KeyCode::Enter), 3, &glyphs), None);
    unicode_key(&mut s, key(KeyCode::Down), 3, &glyphs);
    assert_eq!(unicode_key(&mut s, key(KeyCode::Enter), 3, &glyphs), Some(67));
    unicode_key(&mut s, key(KeyCode::Char('/')), 3, &glyphs);
    assert!(s.is_searching);
    unicode_key(&mut s, key(KeyCode::Char('a')), 3, &glyphs);
    unicode_key(&mut s, key(KeyCode::Char('j')), 3, &glyphs);
    assert_eq!(s.search_query, "aj");
    assert_eq!(s.selected_index, 2);
    unicode_key(&mut s, key(KeyCode::Backspace), 3, &glyphs);
    assert_eq!(s.search_query, "a");
    unicode_key(&mut s, key(KeyCode::Enter), 3, &glyphs);
    assert!(!s.is_searching);
    assert_eq!(s.search_query, "a");
    unicode_key(&mut s, key(KeyCode::Char('/')), 3, &glyphs);
    assert_eq!(s.search_query, "");
    unicode_key(&mut s, key(KeyCode::Char('x')), 3, &glyphs);
    unicode_key(&mut s, key(KeyCode::Esc), 3, &glyphs);
    assert!(!s.is_searching);
    assert_eq!(s.search_query, "");
    unicode_key(&mut s, key(KeyCode::PageUp), 3, &glyphs);
    assert_eq!(s.selected_index, 0);
}

#[test]
fn glyph_browser_selects_by_name() {
    let list = vec![glyph("A", Some(65)), glyph("B", None)];
    let mut s = glyphs::GlyphsState::new();
    assert_eq!(glyphs::handle_key_event_simple(&mut s, key(KeyCode::Enter), 2, &list), Some("A".to_string()));
    glyphs::handle_key_event_simple(&mut s, key(KeyCode::PageDown), 2, &list);
    assert_eq!(glyphs::handle_key_event_simple(&mut s, key(KeyCode::Enter), 2, &list), Some("B".to_string()));
    assert_eq!(glyphs::handle_key_event_simple(&mut s, key(KeyCode::Enter), 0, &[]), None);
}

#[test]
fn log_view_scrolling() {
    let mut s = LogsState::new();
    s.scroll_up();
    assert_eq!(s.scroll_offset, 0);
    assert!(s.auto_scroll);
    s.update_auto_scroll(50, 20);
    assert_eq!(s.scroll_offset, 30);
    logs_key(&mut s, key(KeyCode::Up), 50);
    assert_eq!(s.scroll_offset, 29);
    assert!(!s.auto_scroll);
    logs_key(&mut s, key(KeyCode::Char('j')), 50);
    assert_eq!(s.scroll_offset, 30);
    assert!(!s.auto_scroll);
    logs_key(&mut s, key(KeyCode::Down), 50);
    assert_eq!(s.scroll_offset, 30);
    assert!(s.auto_scroll);
    logs_key(&mut s, key(KeyCode::Home), 50);
    assert_eq!(s.scroll_offset, 0);
    assert!(!s.auto_scroll);
    s.update_auto_scroll(50, 20);
    assert_eq!(s.scroll_offset, 0);
    logs_key(&mut s, key(KeyCode::End), 50);
    assert!(s.auto_scroll);
    s.update_auto_scroll(10, 20);
    assert_eq!(s.scroll_offset, 0);
}

#[test]
fn file_actions_keep_the_last_ten() {
    let mut s = FileState::new();
    for i in 0..12 {
        s.add_file_action(FileAction { action: format!("Saved {}", i), timestamp: "t".to_string(), path: None });
    }
    assert_eq!(s.file_actions.len(), 10);
    assert_eq!(s.file_actions[0].action, "Saved 2");
    assert_eq!(s.file_actions[9].action, "Saved 11");
}

fn board(rows: &[&str]) -> GameOfLifeState {
    let mut g = GameOfLifeState::new(rows[0].len(), rows.len());
    g.grid = rows.iter().map(|r| r.chars().map(|c| c == '#').collect()).collect();
    g
}

fn rows(g: &GameOfLifeState) -> Vec<String> {
    g.grid.iter().map(|r| r.iter().map(|&c| if c { '#' } else { '.' }).collect()).collect()
}

#[test]
fn game_of_life_rules() {
    let mut g = board(&[".....", "..#..", "..#..", "..#..", "....."]);
    assert_eq!(g.count_neighbors(2, 2), 2);
    assert_eq!(g.count_neighbors(1, 2), 3);
    assert_eq!(g.count_neighbors(0, 0), 0);
    g.step();
    assert_eq!(rows(&g), vec![".....", ".....", ".###.", ".....", "....."]);
    assert_eq!(g.generation, 1);
    g.step();
    assert_eq!(rows(&g), vec![".....", "..#..", "..#..", "..#..", "....."]);
    // A block is still; the board does not wrap around its edges.
    let mut b = board(&["##.", "##.", "..."]);
    b.step();
    assert_eq!(rows(&b), vec!["##.", "##.", "..."]);
    let mut corner = board(&["#.#", "...", "#.#"]);
    corner.step();
    assert_eq!(rows(&corner), vec!["...", "...", "..."]);
}

#[test]
fn game_of_life_pause_reset_and_resize() {
    let mut g = GameOfLifeState::new(4, 3);
    assert_eq!(g.grid.len(), 3);
    assert!(g.grid.iter().all(|r| r.len() == 4));
    assert_eq!(g.update_interval_ms, 125);
    assert!(g.update_due(125));
    assert!(!g.update_due(124));
    g.toggle_pause();
    assert!(g.paused);
    assert!(!g.update_due(1000));
    assert!(!g.should_update());
    let before = g.grid.clone();
    g.update();
    assert_eq!(g.grid, before);
    g.toggle_pause();
    assert!(!g.paused);
    g.generation = 7;
    g.reset();
    assert_eq!(g.generation, 0);
    assert_eq!((g.width, g.height), (4, 3));
    let kept = g.grid.clone();
    g.set_size(2, 5);
    assert_eq!((g.width, g.height), (2, 5));
    assert_eq!(g.grid.len(), 5);
    assert!(g.grid.iter().all(|r| r.len() == 2));
    for y in 0..3 {
        for x in 0..2 {
            assert_eq!(g.grid[y][x], kept[y][x]);
        }
    }
}

#[test]
fn ai_tab_keys() {
    let mut s = AIState::new();
    assert_eq!((s.game.width, s.game.height), (80, 40));
    ai_key(&mut s, key(KeyCode::Char(' ')));
    assert!(s.game.paused);
    ai_key(&mut s, key(KeyCode::Char('x')));
    assert!(s.game.paused);
    ai_key(&mut s, key(KeyCode::Char('R')));
    assert!(!s.game.paused);
    assert_eq!(s.game.generation, 0);
    assert_eq!(s.game.update_interval_ms, 125);
    let before = s.game.last_update;
    ai_key(&mut s, key(KeyCode::Char(' ')));
    ai_key(&mut s, key(KeyCode::Char('q')));
    assert_eq!(s.game.last_update, before);
    assert_eq!(s.game.update_interval_ms, 125);
    match Tab::new(TabType::Unicode).state {
        TabState::Unicode(g) => assert!(g.search_query.is_empty() && !g.is_searching),
        _ => panic!("expected the Unicode state"),
    }
}

fn issue(sev: Severity, cat: Category, id: &str) -> QAIssue {
    QAIssue { severity: sev, category: cat, check_id: id.to_string(), message: "m".to_string(), location: None }
}

#[test]
fn qa_demo_data_and_filters() {
    let mut s = QAState::new();
    assert_eq!(s.issues.len(), 7);
    assert_eq!(s.issues[0].check_id, "com.google.fonts/check/outline_direction");
    assert_eq!(s.current_report.as_ref().unwrap().summary.total_checks, 45);
    assert_eq!(s.filtered_issues(), vec![0, 1, 2, 3, 4, 5, 6]);
    s.filter_severity = Some(Severity::Warning);
    assert_eq!(s.filtered_issues(), vec![2, 3, 4]);
    s.filter_category = Some(Category::Metadata);
    assert_eq!(s.filtered_issues(), vec![2]);
    s.filter_severity = None;
    assert_eq!(s.filtered_issues(), vec![1, 2]);
    s.issues.push(issue(Severity::Info, Category::Other("System".to_string()), "x"));
    s.filter_category = Some(Category::Other("System".to_string()));
    assert_eq!(s.filtered_issues(), vec![7]);
    s.filter_category = Some(Category::Other("Other".to_string()));
    assert!(s.filtered_issues().is_empty());
}

#[test]
fn qa_keys_and_reports() {
    let mut s = QAState::new();
    assert_eq!(qa_key(&mut s, key(KeyCode::Down)), QAKeyOutcome::Handled);
    assert_eq!(s.selected_issue, 1);
    qa_key(&mut s, key(KeyCode::Char('k')));
    qa_key(&mut s, key(KeyCode::Char('k')));
    assert_eq!(s.selected_issue, 0);
    qa_key(&mut s, key(KeyCode::Enter));
    assert_eq!(s.view_mode, QAView::IssueDetail);
    qa_key(&mut s, key(KeyCode::Enter));
    assert_eq!(s.view_mode, QAView::IssueList);
    qa_key(&mut s, key(KeyCode::Char('s')));
    assert_eq!(s.view_mode, QAView::Summary);
    qa_key(&mut s, key(KeyCode::Enter));
    assert_eq!(s.view_mode, QAView::IssueList);
    qa_key(&mut s, key(KeyCode::Char('s')));
    qa_key(&mut s, key(KeyCode::Esc));
    assert_eq!(s.view_mode, QAView::IssueList);
    assert_eq!(qa_key(&mut s, key(KeyCode::Char('r'))), QAKeyOutcome::RefreshRequested);
    assert!(s.is_running);
    show_analysis_started(&mut s);
    assert!(!s.is_running);
    assert_eq!(s.issues.len(), 1);
    assert_eq!(s.issues[0].check_id, "system.analysis");
    let report = QAReport {
        font_path: "f.ttf".to_string(),
        issues: vec![issue(Severity::Warning, Category::Kerning, "k1"), issue(Severity::Error, Category::Hinting, "h1")],
        summary: QASummary { total_checks: 2, passed: 0, failed: 1, warnings: 1, info: 0, skipped: 0 },
    };
    merge_report_issues(&mut s, &report);
    assert_eq!(s.issues.len(), 2);
    assert_eq!(s.issues[1].check_id, "h1");
    // Once merged, a second report does not replace the issues.
    merge_report_issues(&mut s, &QAReport { font_path: "g".to_string(), issues: vec![issue(Severity::Info, Category::Unicode, "u")], summary: report.summary });
    assert_eq!(s.issues.len(), 2);
    show_analysis_error(&mut s, "Font file not found: x".to_string());
    assert_eq!(s.issues[0].check_id, "system.error");
    assert_eq!(s.issues[0].message, "Font file not found: x");
    s.selected_issue = 12;
    s.update_scroll(5);
    assert_eq!(s.scroll_offset, 8);
}

#[test]
fn tabs_and_titles() {
    assert_eq!(TabType::FontInfo.title(), "Font Info");
    assert_eq!(TabType::AI.title(), "AI");
    let qa = Tab::new(TabType::QA);
    assert_eq!(qa.tab_type, TabType::QA);
    match qa.state {
        TabState::QA(q) => assert_eq!(q.issues.len(), 7),
        _ => panic!("expected the QA state"),
    }
    assert!(matches!(Tab::new(TabType::Path).state, TabState::Path(_)));
    assert!(matches!(Tab::new(TabType::Help).state, TabState::Help(_)));
}

#[test]
fn global_keys_and_tab_cycling() {
    assert_eq!(next_tab(3, 4), 0);
    assert_eq!(previous_tab(0, 4), 3);
    assert_eq!(previous_tab(next_tab(2, 4), 4), 2);
    let ctrl_q = KeyEvent { code: KeyCode::Char('q'), modifiers: KeyModifiers { control: true, shift: false, alt: false } };
    assert_eq!(handle_global_key(ctrl_q, 0, 4), GlobalKeyAction::Quit);
    assert_eq!(handle_global_key(key(KeyCode::Char('q')), 0, 4), GlobalKeyAction::Forward);
    assert_eq!(handle_global_key(key(KeyCode::Tab), 3, 4), GlobalKeyAction::SwitchTo(0));
    assert_eq!(handle_global_key(key(KeyCode::BackTab), 0, 4), GlobalKeyAction::SwitchTo(3));
    assert_eq!(handle_global_key(key(KeyCode::Char('2')), 0, 4), GlobalKeyAction::SwitchTo(1));
    assert_eq!(handle_global_key(key(KeyCode::Char('0')), 2, 4), GlobalKeyAction::SwitchTo(0));
    assert_eq!(handle_global_key(key(KeyCode::Char('9')), 0, 4), GlobalKeyAction::Ignore);
    assert_eq!(handle_global_key(key(KeyCode::Down), 0, 4), GlobalKeyAction::Forward);
}

#[test]
fn log_keeps_the_last_thousand_lines() {
    let mut logs: Vec<String> = Vec::new();
    for i in 0..1005 {
        push_log_line(&mut logs, format!("line {}", i));
    }
    assert_eq!(logs.len(), 1000);
    assert_eq!(logs[0], "line 5");
    assert_eq!(logs[999], "line 1004");
}

#[test]
fn glyph_list_orders_by_codepoint_then_name() {
    assert!(generate_glyph_list(None).is_empty());
    let record = |name: &str, w: i32, cps: Vec<char>| GlyphRecord { name: name.to_string(), advance_width: w, codepoints: cps };
    let font = FontGlyphs {
        glyphs: vec![
            record("b.alt", 510, vec![]),
            record("B", 600, vec!['B']),
            record("a.sc", 420, vec![]),
            record("A", 620, vec!['A', 'a']),
            record("zero", 500, vec!['0']),
            record("B.ss01", 590, vec![]),
        ],
    };
    let list = generate_glyph_list(Some(&font));
    let order: Vec<&str> = list.iter().map(|g| g.codepoint.as_str()).collect();
    assert_eq!(order, vec!["zero", "A", "B", "B.ss01", "a.sc", "b.alt"]);
    assert_eq!(list[1].unicode, Some(65));
    assert_eq!(list[1].width, Some(620));
    assert_eq!(list[1].name, Some("A".to_string()));
    assert_eq!(list[3].unicode, None);
    assert_eq!(list[0].unicode, Some(48));
}

#[test]
fn tabs_take_keys() {
    let glyphs = vec![glyph("A", Some(65)), glyph("C", Some(67))];
    let mut unicode = Tab::new(TabType::Unicode);
    assert_eq!(unicode.handle_key_event(key(KeyCode::Enter), &glyphs), TabKeyOutcome::SelectGlyph(65));
    assert_eq!(unicode.handle_key_event(key(KeyCode::Down), &glyphs), TabKeyOutcome::Nothing);
    assert_eq!(unicode.handle_key_event(key(KeyCode::Enter), &glyphs), TabKeyOutcome::SelectGlyph(67));
    let mut qa = Tab::new(TabType::QA);
    assert_eq!(qa.handle_key_event(key(KeyCode::Char('r')), &glyphs), TabKeyOutcome::RefreshQA);
    assert_eq!(qa.handle_key_event(key(KeyCode::Down), &glyphs), TabKeyOutcome::Nothing);
    match &qa.state {
        TabState::QA(q) => assert_eq!(q.selected_issue, 1),
        _ => panic!("expected the QA state"),
    }
    let mut help = Tab::new(TabType::Help);
    assert_eq!(help.handle_key_event(key(KeyCode::Enter), &glyphs), TabKeyOutcome::Nothing);
    assert_eq!(help.tab_type, TabType::Help);
}

#[test]
fn unicode_search_filters_by_name_and_codepoint() {
    let mut beh = glyph("beh-ar", Some(0x0628));
    beh.name = None;
    beh.codepoint = "Beh-Ar".to_string();
    let glyphs = vec![glyph("A", Some(65)), glyph("space", Some(32)), beh, glyph("a.sc", None)];
    // Case is ignored on both sides.
    assert!(glyph_matches_search(&glyphs[0], "a"));
    assert!(glyph_matches_search(&glyphs[2], "BEH"));
    // The codepoint label is searched too.
    assert!(glyph_matches_search(&glyphs[1], "u+0020"));
    assert!(glyph_matches_search(&glyphs[2], "0628"));
    assert!(!glyph_matches_search(&glyphs[3], "u+"));
    assert!(!glyph_matches_search(&glyphs[1], "x"));

    let mut s = GlyphsState::new();
    assert_eq!(filtered_glyph_indices(&glyphs, &s), vec![0, 1, 2, 3]);
    s.is_searching = true;
    assert_eq!(filtered_glyph_indices(&glyphs, &s), vec![0, 1, 2, 3]);
    s.search_query = "A".to_string();
    assert_eq!(filtered_glyph_indices(&glyphs, &s), vec![0, 1, 2, 3]);
    s.search_query = "sc".to_string();
    assert_eq!(filtered_glyph_indices(&glyphs, &s), vec![3]);
    s.search_query = "00".to_string();
    let shown = filtered_glyph_indices(&glyphs, &s);
    assert_eq!(shown, vec![0, 1]);
    s.selected_index = 1;
    assert_eq!(filtered_selection(&shown, &s), 1);
    s.selected_index = 3;
    assert_eq!(filtered_selection(&shown, &s), 0);
    s.is_searching = false;
    assert_eq!(filtered_selection(&shown, &s), 3);
    // Not searching: the query is ignored.
    assert_eq!(filtered_glyph_indices(&glyphs, &s), vec![0, 1, 2, 3]);

    assert_eq!(glyph_list_line(&glyphs[0]), "U+0041 A");
    assert_eq!(glyph_list_line(&glyphs[2]), "U+0628 Beh-Ar");
    assert_eq!(glyph_list_line(&glyphs[3]), "U+0000 a.sc");
}

#[test]
fn issue_counts_by_severity() {
    let s = QAState::new();
    assert_eq!(severity_counts(&s.issues), (2, 3, 2));
    assert_eq!(severity_counts(&vec![]), (0, 0, 0));
}

#[test]
fn keys_with_the_application_lists() {
    let glyphs = vec![glyph("A", Some(65)), glyph("B", Some(66))];
    let mut s = GlyphsState::new();
    assert_eq!(unicode_key_for(&mut s, key(KeyCode::Down), &glyphs), None);
    assert_eq!(unicode_key_for(&mut s, key(KeyCode::Down), &glyphs), None);
    assert_eq!(s.selected_index, 1);
    assert_eq!(unicode_key_for(&mut s, key(KeyCode::Enter), &glyphs), Some(66));

    let mut b = glyphs::GlyphsState::new();
    glyphs::handle_key_event(&mut b, key(KeyCode::Char('j')), &glyphs);
    assert_eq!(glyphs::handle_key_event(&mut b, key(KeyCode::Enter), &glyphs), Some("B".to_string()));

    let logs: Vec<String> = (0..25).map(|i| format!("{}", i)).collect();
    let mut l = LogsState::new();
    logs_key_for(&mut l, key(KeyCode::Down), &logs);
    assert_eq!(l.scroll_offset, 1);
    logs_key_for(&mut l, key(KeyCode::Home), &logs);
    assert_eq!(l.scroll_offset, 0);
    assert!(!l.auto_scroll);
    logs_key_for(&mut l, key(KeyCode::End), &logs);
    assert!(l.auto_scroll);
}

#[test]
fn generations_follow_the_elapsed_time() {
    let mut g = board(&[".....", "..#..", "..#..", "..#..", "....."]);
    g.update_after(100);
    assert_eq!(g.generation, 0);
    assert_eq!(rows(&g)[2], "..#..");
    g.update_after(125);
    assert_eq!(g.generation, 1);
    assert_eq!(rows(&g)[2], ".###.");
    g.toggle_pause();
    g.update_after(10_000);
    assert_eq!(g.generation, 1);
}

#[test]
fn moving_down_needs_room_for_one_more_index() {
    let mut s = GlyphsState::new();
    s.selected_index = usize::MAX - 5;
    unicode_key(&mut s, key(KeyCode::Down), usize::MAX, &[]);
    assert_eq!(s.selected_index, usize::MAX - 4);
    let mut b = glyphs::GlyphsState::new();
    b.selected_index = usize::MAX - 5;
    glyphs::handle_key_event_simple(&mut b, key(KeyCode::Char('j')), usize::MAX, &[]);
    assert_eq!(b.selected_index, usize::MAX - 4);
}
