//! The QA tab: the issues found by the font checker, with filters, a
//! detail view and a summary.

use vstd::prelude::*;
use crate::strings::str_equals;
use crate::tui::events::{KeyCode, KeyEvent};

verus! {

/// How serious an issue is.
#[derive(Debug, Clone, Copy, PartialEq, Eq, Structural)]
pub enum Severity {
    Error,
    Warning,
    Info,
}

/// What an issue concerns.
#[derive(Debug, Clone)]
pub enum Category {
    Outlines,
    Metadata,
    Hinting,
    Kerning,
    Spacing,
    Unicode,
    Other(String),
}

/// Where an issue was found; positions in font units.
#[derive(Debug, Clone)]
pub struct Location {
    pub glyph_name: Option<String>,
    pub table_name: Option<String>,
    pub position: Option<(i64, i64)>,
}

/// One finding of the checker.
#[derive(Debug, Clone)]
pub struct QAIssue {
    pub severity: Severity,
    pub category: Category,
    pub check_id: String,
    pub message: String,
    pub location: Option<Location>,
}

/// Counts of a checker run.
#[derive(Debug, Clone, Copy, PartialEq, Eq, Structural)]
pub struct QASummary {
    pub total_checks: usize,
    pub passed: usize,
    pub failed: usize,
    pub warnings: usize,
    pub info: usize,
    pub skipped: usize,
}

/// The result of a checker run on a font.
#[derive(Debug, Clone)]
pub struct QAReport {
    pub font_path: String,
    pub issues: Vec<QAIssue>,
    pub summary: QASummary,
}

/// The views of the QA tab.
#[derive(Debug, Clone, Copy, PartialEq, Eq, Structural)]
pub enum QAView {
    IssueList,
    IssueDetail,
    Summary,
    Settings,
}

/// A category as a plain value.
pub enum CategoryView {
    Outlines,
    Metadata,
    Hinting,
    Kerning,
    Spacing,
    Unicode,
    Other(Seq<char>),
}

/// A location as plain values.
pub struct LocationView {
    pub glyph_name: Option<Seq<char>>,
    pub table_name: Option<Seq<char>>,
    pub position: Option<(i64, i64)>,
}

/// An issue as plain values.
pub struct QAIssueView {
    pub severity: Severity,
    pub category: CategoryView,
    pub check_id: Seq<char>,
    pub message: Seq<char>,
    pub location: Option<LocationView>,
}

/// The characters of an optional string.
pub open spec fn opt_view(s: Option<String>) -> Option<Seq<char>> {
    match s {
        Some(v) => Some(v@),
        None => None,
    }
}

impl View for Category {
    type V = CategoryView;

    open spec fn view(&self) -> CategoryView {
        match self {
            Category::Outlines => CategoryView::Outlines,
            Category::Metadata => CategoryView::Metadata,
            Category::Hinting => CategoryView::Hinting,
            Category::Kerning => CategoryView::Kerning,
            Category::Spacing => CategoryView::Spacing,
            Category::Unicode => CategoryView::Unicode,
            Category::Other(s) => CategoryView::Other(s@),
        }
    }
}

impl View for Location {
    type V = LocationView;

    open spec fn view(&self) -> LocationView {
        LocationView {
            glyph_name: opt_view(self.glyph_name),
            table_name: opt_view(self.table_name),
            position: self.position,
        }
    }
}

impl View for QAIssue {
    type V = QAIssueView;

    open spec fn view(&self) -> QAIssueView {
        QAIssueView {
            severity: self.severity,
            category: self.category@,
            check_id: self.check_id@,
            message: self.message@,
            location: match self.location {
                Some(l) => Some(l@),
                None => None,
            },
        }
    }
}

/// The issues as plain values.
pub open spec fn issues_view(issues: Seq<QAIssue>) -> Seq<QAIssueView> {
    issues.map_values(|i: QAIssue| i@)
}

/// State of the QA tab.
#[derive(Debug, Clone)]
pub struct QAState {
    pub current_report: Option<QAReport>,
    pub issues: Vec<QAIssue>,
    pub selected_issue: usize,
    pub filter_severity: Option<Severity>,
    pub filter_category: Option<Category>,
    pub is_running: bool,
    /// Progress of a running analysis, in percent.
    pub progress: u32,
    pub scroll_offset: usize,
    pub view_mode: QAView,
}

/// The demonstration issues shown before any analysis has run.
pub open spec fn demo_issues() -> Seq<QAIssueView> {
    seq![
        QAIssueView {
            severity: Severity::Error,
            category: CategoryView::Outlines,
            check_id: "com.google.fonts/check/outline_direction"@,
            message: "Glyph 'a' has incorrect outline direction. Expected counter-clockwise for outer contours, clockwise for inner contours."@,
            location: Some(LocationView { glyph_name: Some("a"@), table_name: None, position: Some((120i64, 350i64)) }),
        },
        QAIssueView {
            severity: Severity::Error,
            category: CategoryView::Metadata,
            check_id: "com.google.fonts/check/name/license"@,
            message: "Font lacks a license description in the 'name' table."@,
            location: Some(LocationView { glyph_name: None, table_name: Some("name"@), position: None }),
        },
        QAIssueView {
            severity: Severity::Warning,
            category: CategoryView::Metadata,
            check_id: "com.google.fonts/check/family_naming_recommendations"@,
            message: "Family name contains uppercase letters. Consider using only lowercase for better compatibility."@,
            location: None,
        },
        QAIssueView {
            severity: Severity::Warning,
            category: CategoryView::Spacing,
            check_id: "com.google.fonts/check/whitespace_glyphs"@,
            message: "Whitespace glyph 'space' has non-zero ink. This may cause rendering issues."@,
            location: Some(LocationView { glyph_name: Some("space"@), table_name: None, position: None }),
        },
        QAIssueView {
            severity: Severity::Warning,
            category: CategoryView::Kerning,
            check_id: "com.google.fonts/check/kerning_for_non_ligated_sequences"@,
            message: "The font lacks proper kerning for 47 non-ligated sequences like 'VA', 'To', 'We'."@,
            location: None,
        },
        QAIssueView {
            severity: Severity::Info,
            category: CategoryView::Unicode,
            check_id: "com.google.fonts/check/unicode_range_bits"@,
            message: "Unicode range bits in OS/2 table look good. Covers Latin-1 Supplement and Latin Extended-A."@,
            location: Some(LocationView { glyph_name: None, table_name: Some("OS/2"@), position: None }),
        },
        QAIssueView {
            severity: Severity::Info,
            category: CategoryView::Hinting,
            check_id: "com.google.fonts/check/hinting_impact"@,
            message: "Font contains TrueType instructions. Consider removing for web fonts to reduce file size."@,
            location: None,
        }
    ]
}

/// The summary of the demonstration report.
pub open spec fn demo_summary() -> QASummary {
    QASummary { total_checks: 45, passed: 35, failed: 2, warnings: 3, info: 2, skipped: 3 }
}

/// The issues of the demonstration report.
fn demo_issue_list() -> (r: Vec<QAIssue>)
    ensures
        issues_view(r@) == demo_issues(),
{
    let r = vec![
            QAIssue {
                severity: Severity::Error,
                category: Category::Outlines,
                check_id: String::from_str("com.google.fonts/check/outline_direction"),
                message: String::from_str("Glyph 'a' has incorrect outline direction. Expected counter-clockwise for outer contours, clockwise for inner contours."),
                location: Some(Location { glyph_name: Some(String::from_str("a")), table_name: None, position: Some((120, 350)) }),
            },
            QAIssue {
                severity: Severity::Error,
                category: Category::Metadata,
                check_id: String::from_str("com.google.fonts/check/name/license"),
                message: String::from_str("Font lacks a license description in the 'name' table."),
                location: Some(Location { glyph_name: None, table_name: Some(String::from_str("name")), position: None }),
            },
            QAIssue {
                severity: Severity::Warning,
                category: Category::Metadata,
                check_id: String::from_str("com.google.fonts/check/family_naming_recommendations"),
                message: String::from_str("Family name contains uppercase letters. Consider using only lowercase for better compatibility."),
                location: None,
            },
            QAIssue {
                severity: Severity::Warning,
                category: Category::Spacing,
                check_id: String::from_str("com.google.fonts/check/whitespace_glyphs"),
                message: String::from_str("Whitespace glyph 'space' has non-zero ink. This may cause rendering issues."),
                location: Some(Location { glyph_name: Some(String::from_str("space")), table_name: None, position: None }),
            },
            QAIssue {
                severity: Severity::Warning,
                category: Category::Kerning,
                check_id: String::from_str("com.google.fonts/check/kerning_for_non_ligated_sequences"),
                message: String::from_str("The font lacks proper kerning for 47 non-ligated sequences like 'VA', 'To', 'We'."),
                location: None,
            },
            QAIssue {
                severity: Severity::Info,
                category: Category::Unicode,
                check_id: String::from_str("com.google.fonts/check/unicode_range_bits"),
                message: String::from_str("Unicode range bits in OS/2 table look good. Covers Latin-1 Supplement and Latin Extended-A."),
                location: Some(Location { glyph_name: None, table_name: Some(String::from_str("OS/2")), position: None }),
            },
            QAIssue {
                severity: Severity::Info,
                category: Category::Hinting,
                check_id: String::from_str("com.google.fonts/check/hinting_impact"),
                message: String::from_str("Font contains TrueType instructions. Consider removing for web fonts to reduce file size."),
                location: None,
            }
    ];
    assert(issues_view(r@) =~= demo_issues());
    r
}

/// Whether an issue of category `c` passes the category filter `f`: the
/// same category, and for `Other` the same name.
pub open spec fn category_match(c: CategoryView, f: CategoryView) -> bool {
    match (c, f) {
        (CategoryView::Outlines, CategoryView::Outlines) => true,
        (CategoryView::Metadata, CategoryView::Metadata) => true,
        (CategoryView::Hinting, CategoryView::Hinting) => true,
        (CategoryView::Kerning, CategoryView::Kerning) => true,
        (CategoryView::Spacing, CategoryView::Spacing) => true,
        (CategoryView::Unicode, CategoryView::Unicode) => true,
        (CategoryView::Other(a), CategoryView::Other(b)) => a == b,
        _ => false,
    }
}

/// Whether an issue passes both filters.
pub open spec fn passes_filters(i: QAIssueView, severity: Option<Severity>, category: Option<CategoryView>) -> bool {
    &&& severity matches Some(s) ==> i.severity == s
    &&& category matches Some(c) ==> category_match(i.category, c)
}

/// The positions of the issues that pass the filters, in order.
pub open spec fn filtered_positions(issues: Seq<QAIssueView>, severity: Option<Severity>, category: Option<CategoryView>) -> Seq<usize>
    decreases issues.len(),
{
    if issues.len() == 0 {
        Seq::empty()
    } else {
        let rest = filtered_positions(issues.drop_last(), severity, category);
        if passes_filters(issues.last(), severity, category) {
            rest.push((issues.len() - 1) as usize)
        } else {
            rest
        }
    }
}

/// The category filter as a plain value.
pub open spec fn category_filter(f: Option<Category>) -> Option<CategoryView> {
    match f {
        Some(c) => Some(c@),
        None => None,
    }
}

impl QAState {
    /// The issue list of the demonstration report, first issue selected.
    pub fn new() -> (r: Self)
        ensures
            issues_view(r.issues@) == demo_issues(),
            r.current_report matches Some(rep) && issues_view(rep.issues@) == demo_issues()
                && rep.summary == demo_summary(),
            r.selected_issue == 0,
            r.filter_severity is None,
            r.filter_category is None,
            !r.is_running,
            r.progress == 0,
            r.scroll_offset == 0,
            r.view_mode == QAView::IssueList,
    {
        let mut state = QAState {
            current_report: None,
            issues: Vec::new(),
            selected_issue: 0,
            filter_severity: None,
            filter_category: None,
            is_running: false,
            progress: 0,
            scroll_offset: 0,
            view_mode: QAView::IssueList,
        };
        state.load_demo_data();
        state
    }

    /// Show the demonstration report.
    pub fn load_demo_data(&mut self)
        ensures
            issues_view(final(self).issues@) == demo_issues(),
            final(self).current_report matches Some(rep) && issues_view(rep.issues@) == demo_issues()
                && rep.summary == demo_summary() && rep.font_path@ == "/demo/font.ufo"@,
            final(self).selected_issue == old(self).selected_issue,
            final(self).filter_severity == old(self).filter_severity,
            final(self).filter_category == old(self).filter_category,
            final(self).is_running == old(self).is_running,
            final(self).progress == old(self).progress,
            final(self).scroll_offset == old(self).scroll_offset,
            final(self).view_mode == old(self).view_mode,
    {
        let demo_summary = QASummary {
            total_checks: 45,
            passed: 35,
            failed: 2,
            warnings: 3,
            info: 2,
            skipped: 3,
        };
        let demo_report = QAReport {
            font_path: String::from_str("/demo/font.ufo"),
            issues: demo_issue_list(),
            summary: demo_summary,
        };
        self.current_report = Some(demo_report);
        self.issues = demo_issue_list();
    }

    /// Select the next issue, staying on the last.
    pub fn select_next_issue(&mut self)
        requires
            old(self).selected_issue < usize::MAX,
        ensures
            *final(self) == (QAState {
                selected_issue: crate::tui::tabs::unicode::next_index(
                    old(self).selected_issue as int,
                    old(self).issues@.len() as int,
                ) as usize,
                ..*old(self)
            }),
    {
        if self.issues.len() > 0 {
            let next = self.selected_issue + 1;
            let last = self.issues.len() - 1;
            self.selected_issue = if next <= last { next } else { last };
        }
    }

    /// Select the previous issue, staying on the first.
    pub fn select_previous_issue(&mut self)
        ensures
            *final(self) == (QAState {
                selected_issue: crate::tui::tabs::unicode::previous_index(
                    old(self).selected_issue as int,
                ) as usize,
                ..*old(self)
            }),
    {
        if self.selected_issue > 0 {
            self.selected_issue = self.selected_issue - 1;
        }
    }

    /// Scroll so that the selected issue is within the `visible_items` rows.
    pub fn update_scroll(&mut self, visible_items: usize)
        requires
            old(self).scroll_offset + visible_items <= usize::MAX,
            visible_items > 0 || old(self).selected_issue < usize::MAX,
        ensures
            final(self).scroll_offset == crate::tui::tabs::unicode::scrolled(
                old(self).selected_issue as int,
                old(self).scroll_offset as int,
                visible_items as int,
            ),
            final(self).selected_issue == old(self).selected_issue,
            visible_items > 0 ==> final(self).scroll_offset <= final(self).selected_issue
                < final(self).scroll_offset + visible_items,
    {
        if self.selected_issue < self.scroll_offset {
            self.scroll_offset = self.selected_issue;
        } else if self.selected_issue >= self.scroll_offset + visible_items {
            self.scroll_offset = self.selected_issue - visible_items + 1;
        }
    }

    /// Whether an issue severity passes a severity filter.
    fn severity_matches(&self, issue_severity: Severity, filter: Severity) -> (r: bool)
        ensures
            r == (issue_severity == filter),
    {
        match (issue_severity, filter) {
            (Severity::Error, Severity::Error) => true,
            (Severity::Warning, Severity::Warning) => true,
            (Severity::Info, Severity::Info) => true,
            _ => false,
        }
    }

    /// Whether an issue category passes a category filter.
    fn category_matches(&self, issue_category: &Category, filter: &Category) -> (r: bool)
        ensures
            r == category_match(issue_category@, filter@),
    {
        match (issue_category, filter) {
            (Category::Outlines, Category::Outlines) => true,
            (Category::Metadata, Category::Metadata) => true,
            (Category::Hinting, Category::Hinting) => true,
            (Category::Kerning, Category::Kerning) => true,
            (Category::Spacing, Category::Spacing) => true,
            (Category::Unicode, Category::Unicode) => true,
            (Category::Other(a), Category::Other(b)) => str_equals(a.as_str(), b.as_str()),
            _ => false,
        }
    }

    /// The positions of the issues that pass the severity and category
    /// filters, in order.
    pub fn filtered_issues(&self) -> (r: Vec<usize>)
        ensures
            r@ == filtered_positions(
                issues_view(self.issues@),
                self.filter_severity,
                category_filter(self.filter_category),
            ),
    {
        let ghost iv = issues_view(self.issues@);
        let ghost fc = category_filter(self.filter_category);
        let mut r: Vec<usize> = Vec::new();
        let mut i: usize = 0;
        while i < self.issues.len()
            invariant
                iv == issues_view(self.issues@),
                fc == category_filter(self.filter_category),
                i <= iv.len(),
                r@ == filtered_positions(iv.take(i as int), self.filter_severity, fc),
            decreases iv.len() - i,
        {
            proof {
                assert(iv.take(i as int + 1).drop_last() =~= iv.take(i as int));
            }
            let issue = &self.issues[i];
            let mut keep = true;
            if let Some(filter_severity) = self.filter_severity {
                if !self.severity_matches(issue.severity, filter_severity) {
                    keep = false;
                }
            }
            if keep {
                if let Some(filter_category) = &self.filter_category {
                    if !self.category_matches(&issue.category, filter_category) {
                        keep = false;
                    }
                }
            }
            if keep {
                r.push(i);
            }
            i = i + 1;
        }
        assert(iv.take(iv.len() as int) =~= iv);
        r
    }
}

/// What the QA tab asks of the application after a key.
#[derive(Debug, Clone, Copy, PartialEq, Eq, Structural)]
pub enum QAKeyOutcome {
    Handled,
    /// Run the font checker again.
    RefreshRequested,
}

/// The view after Enter: the list and the detail view toggle, other views
/// return to the list.
pub open spec fn view_after_enter(v: QAView) -> QAView {
    match v {
        QAView::IssueList => QAView::IssueDetail,
        QAView::IssueDetail => QAView::IssueList,
        _ => QAView::IssueList,
    }
}

/// What a key does to the QA tab: j/k and the arrows move the selection,
/// Enter, Esc and S switch views, R starts a new analysis; the issues, the
/// report, the filters and the scrolling stay.
pub open spec fn qa_key_handled(before: QAState, after: QAState, key: KeyEvent) -> bool {
    &&& after.issues == before.issues
    &&& after.current_report == before.current_report
    &&& after.filter_severity == before.filter_severity
    &&& after.filter_category == before.filter_category
    &&& after.scroll_offset == before.scroll_offset
    &&& after.selected_issue == match key.code {
        KeyCode::Down | KeyCode::Char('j') => crate::tui::tabs::unicode::next_index(
            before.selected_issue as int,
            before.issues@.len() as int,
        ),
        KeyCode::Up | KeyCode::Char('k') => crate::tui::tabs::unicode::previous_index(
            before.selected_issue as int,
        ),
        _ => before.selected_issue as int,
    }
    &&& after.view_mode == match key.code {
        KeyCode::Enter => view_after_enter(before.view_mode),
        KeyCode::Esc => QAView::IssueList,
        KeyCode::Char('s') => QAView::Summary,
        _ => before.view_mode,
    }
    &&& key.code == KeyCode::Char('r') ==> after.is_running && after.progress == 0
    &&& key.code != KeyCode::Char('r') ==> after.is_running == before.is_running && after.progress
        == before.progress
}

/// Handle a key in the QA tab: up and down select, Enter toggles the
/// detail view, Esc returns to the list, S shows the summary, R starts a
/// new analysis (which the application runs).
pub fn handle_key_event(state: &mut QAState, key: KeyEvent) -> (r: QAKeyOutcome)
    requires
        (key.code == KeyCode::Down || key.code == KeyCode::Char('j')) ==> old(state).selected_issue < usize::MAX,
    ensures
        r == (if key.code == KeyCode::Char('r') {
            QAKeyOutcome::RefreshRequested
        } else {
            QAKeyOutcome::Handled
        }),
        qa_key_handled(*old(state), *final(state), key),
{
    match key.code {
        KeyCode::Down | KeyCode::Char('j') => {
            state.select_next_issue();
        },
        KeyCode::Up | KeyCode::Char('k') => {
            state.select_previous_issue();
        },
        KeyCode::Enter => {
            state.view_mode = match state.view_mode {
                QAView::IssueList => QAView::IssueDetail,
                QAView::IssueDetail => QAView::IssueList,
                _ => QAView::IssueList,
            };
        },
        KeyCode::Esc => {
            state.view_mode = QAView::IssueList;
        },
        KeyCode::Char('s') => {
            state.view_mode = QAView::Summary;
        },
        KeyCode::Char('r') => {
            state.is_running = true;
            state.progress = 0;
            return QAKeyOutcome::RefreshRequested;
        },
        _ => {},
    }
    QAKeyOutcome::Handled
}

/// Take over the issues of a finished analysis: when the list only shows
/// the "analysis running" placeholder and the report has issues, the
/// report's issues replace it and the analysis is no longer running.
pub fn merge_report_issues(state: &mut QAState, report: &QAReport)
    ensures
        ({
            let placeholder = old(state).issues@.len() == 1 && old(state).issues@[0].check_id@
                == "system.analysis"@;
            if report.issues@.len() > 0 && placeholder {
                issues_view(final(state).issues@) == issues_view(report.issues@) && !final(state).is_running
            } else {
                final(state).issues == old(state).issues && final(state).is_running == old(state).is_running
            }
        }),
        final(state).selected_issue == old(state).selected_issue,
        final(state).view_mode == old(state).view_mode,
{
    if report.issues.len() > 0 && state.issues.len() == 1 && str_equals(
        state.issues[0].check_id.as_str(),
        "system.analysis",
    ) {
        let mut copied: Vec<QAIssue> = Vec::new();
        let mut i: usize = 0;
        while i < report.issues.len()
            invariant
                i <= report.issues@.len(),
                issues_view(copied@) == issues_view(report.issues@).take(i as int),
            decreases report.issues@.len() - i,
        {
            let ghost before = copied@;
            let issue = report.issues[i].duplicate();
            copied.push(issue);
            assert(issues_view(copied@) =~= issues_view(before).push(issue@));
            i = i + 1;
            assert(issues_view(copied@) =~= issues_view(report.issues@).take(i as int));
        }
        assert(issues_view(report.issues@).take(report.issues@.len() as int) =~= issues_view(report.issues@));
        state.issues = copied;
        state.is_running = false;
    }
}

impl Category {
    /// A copy of this category.
    pub fn duplicate(&self) -> (r: Category)
        ensures
            r@ == self@,
    {
        match self {
            Category::Outlines => Category::Outlines,
            Category::Metadata => Category::Metadata,
            Category::Hinting => Category::Hinting,
            Category::Kerning => Category::Kerning,
            Category::Spacing => Category::Spacing,
            Category::Unicode => Category::Unicode,
            Category::Other(s) => Category::Other(s.clone()),
        }
    }
}

impl Location {
    /// A copy of this location.
    pub fn duplicate(&self) -> (r: Location)
        ensures
            r@ == self@,
    {
        Location {
            glyph_name: match &self.glyph_name {
                Some(s) => Some(s.clone()),
                None => None,
            },
            table_name: match &self.table_name {
                Some(s) => Some(s.clone()),
                None => None,
            },
            position: self.position,
        }
    }
}

impl QAIssue {
    /// A copy of this issue.
    pub fn duplicate(&self) -> (r: QAIssue)
        ensures
            r@ == self@,
    {
        QAIssue {
            severity: self.severity,
            category: self.category.duplicate(),
            check_id: self.check_id.clone(),
            message: self.message.clone(),
            location: match &self.location {
                Some(l) => Some(l.duplicate()),
                None => None,
            },
        }
    }
}

/// The filtered issues are exactly those that pass the filters, in their
/// order, each at most once.
pub proof fn filtered_issues_are_exact(issues: Seq<QAIssueView>, severity: Option<Severity>, category: Option<CategoryView>)
    requires
        issues.len() <= usize::MAX,
    ensures
        forall|k: int|
            0 <= k < filtered_positions(issues, severity, category).len() ==> {
                let p = #[trigger] filtered_positions(issues, severity, category)[k] as int;
                0 <= p < issues.len() && passes_filters(issues[p], severity, category)
            },
        forall|k: int, l: int|
            0 <= k < l < filtered_positions(issues, severity, category).len() ==> filtered_positions(
                issues,
                severity,
                category,
            )[k] < filtered_positions(issues, severity, category)[l],
        severity is None && category is None ==> filtered_positions(issues, severity, category).len()
            == issues.len(),
    decreases issues.len(),
{
    if issues.len() > 0 {
        let rest = issues.drop_last();
        filtered_issues_are_exact(rest, severity, category);
        let fp = filtered_positions(issues, severity, category);
        let fr = filtered_positions(rest, severity, category);
        assert forall|k: int| 0 <= k < fp.len() implies {
            let p = #[trigger] fp[k] as int;
            0 <= p < issues.len() && passes_filters(issues[p], severity, category)
        } by {
            if k < fr.len() {
                assert(fp[k] == fr[k]);
                assert(rest[fr[k] as int] == issues[fr[k] as int]);
            }
        }
        assert forall|k: int, l: int| 0 <= k < l < fp.len() implies fp[k] < fp[l] by {
            if l < fr.len() {
                assert(fp[k] == fr[k]);
                assert(fp[l] == fr[l]);
            } else {
                assert(fp[k] == fr[k]);
                assert(fr[k] < rest.len());
            }
        }
    }
}

/// How many of `issues` have severity `severity`.
pub open spec fn count_severity(issues: Seq<QAIssue>, severity: Severity) -> nat
    decreases issues.len(),
{
    if issues.len() == 0 {
        0
    } else {
        count_severity(issues.drop_last(), severity) + if issues.last().severity == severity {
            1nat
        } else {
            0nat
        }
    }
}

proof fn lemma_count_severity_bound(issues: Seq<QAIssue>, severity: Severity)
    ensures
        count_severity(issues, severity) <= issues.len(),
    decreases issues.len(),
{
    if issues.len() > 0 {
        lemma_count_severity_bound(issues.drop_last(), severity);
    }
}

/// The numbers of errors, warnings and infos among the issues, as the
/// issue list's title shows them.
pub fn severity_counts(issues: &Vec<QAIssue>) -> (r: (usize, usize, usize))
    ensures
        r.0 == count_severity(issues@, Severity::Error),
        r.1 == count_severity(issues@, Severity::Warning),
        r.2 == count_severity(issues@, Severity::Info),
{
    let mut errors: usize = 0;
    let mut warnings: usize = 0;
    let mut infos: usize = 0;
    let mut i: usize = 0;
    while i < issues.len()
        invariant
            i <= issues@.len(),
            errors == count_severity(issues@.take(i as int), Severity::Error),
            warnings == count_severity(issues@.take(i as int), Severity::Warning),
            infos == count_severity(issues@.take(i as int), Severity::Info),
        decreases issues@.len() - i,
    {
        proof {
            assert(issues@.take(i + 1).drop_last() =~= issues@.take(i as int));
            lemma_count_severity_bound(issues@.take(i as int), Severity::Error);
            lemma_count_severity_bound(issues@.take(i as int), Severity::Warning);
            lemma_count_severity_bound(issues@.take(i as int), Severity::Info);
        }
        match issues[i].severity {
            Severity::Error => errors = errors + 1,
            Severity::Warning => warnings = warnings + 1,
            Severity::Info => infos = infos + 1,
        }
        i = i + 1;
    }
    assert(issues@.take(issues@.len() as int) =~= issues@);
    (errors, warnings, infos)
}

/// The placeholder issue shown while an analysis runs.
pub open spec fn analysis_placeholder() -> QAIssueView {
    QAIssueView {
        severity: Severity::Info,
        category: CategoryView::Other("System"@),
        check_id: "system.analysis"@,
        message: "Running Fontspector analysis... Please wait."@,
        location: None,
    }
}

/// An analysis has been started: the list shows a placeholder until its
/// report arrives.
pub fn show_analysis_started(state: &mut QAState)
    ensures
        issues_view(final(state).issues@) == seq![analysis_placeholder()],
        !final(state).is_running,
        final(state).selected_issue == old(state).selected_issue,
        final(state).view_mode == old(state).view_mode,
{
    state.is_running = false;
    state.issues = vec![
        QAIssue {
            severity: Severity::Info,
            category: Category::Other(String::from_str("System")),
            check_id: String::from_str("system.analysis"),
            message: String::from_str("Running Fontspector analysis... Please wait."),
            location: None,
        },
    ];
    assert(issues_view(state.issues@) =~= seq![analysis_placeholder()]);
}

/// The issue that reports a failure of the checker itself.
pub open spec fn system_error(message: Seq<char>) -> QAIssueView {
    QAIssueView {
        severity: Severity::Error,
        category: CategoryView::Other("System"@),
        check_id: "system.error"@,
        message,
        location: None,
    }
}

/// An analysis could not be started or failed: the list shows why.
pub fn show_analysis_error(state: &mut QAState, message: String)
    ensures
        issues_view(final(state).issues@) == seq![system_error(message@)],
        !final(state).is_running,
        final(state).selected_issue == old(state).selected_issue,
        final(state).view_mode == old(state).view_mode,
{
    state.issues = vec![
        QAIssue {
            severity: Severity::Error,
            category: Category::Other(String::from_str("System")),
            check_id: String::from_str("system.error"),
            message,
            location: None,
        },
    ];
    state.is_running = false;
    assert(issues_view(state.issues@) =~= seq![system_error(message@)]);
}

} // verus!
