use trivy_tui::app::{input_for, App, Input, Key, Outcome};
use trivy_tui::decode::parse;
use trivy_tui::detail::{build_detail, DisplayBlock};
use trivy_tui::layout::{can_cut, centered_rect, middle_part, Area, Cut};
use trivy_tui::rows::{finding_at, flatten, Row};
use trivy_tui::style::{check_focus, critical_color, Paint};
use trivy_tui::trivy::{Results, Trivy, Vulnerabilities};

const ALPINE: &str = "{\"ArtifactName\":\"alpine:3.18\",\"Results\":[{\"Target\":\"alpine\",\"Vulnerabilities\":[{\"VulnerabilityID\":\"CVE-2023-1\",\"Severity\":\"HIGH\",\"Title\":\"t\"}]}]}";

fn finding(id: &str) -> Vulnerabilities {
    Vulnerabilities {
        vulnerability_id: Some(id.to_string()),
        severity: None,
        title: None,
        description: None,
        severity_source: None,
        pkg_name: None,
        installed_version: None,
        fixed_version: None,
    }
}

fn group(target: &str, ids: Option<Vec<&str>>) -> Results {
    Results {
        target: target.to_string(),
        vulnerabilities: ids.map(|v| v.into_iter().map(finding).collect()),
    }
}

fn report(results: Vec<Results>) -> Trivy {
    Trivy { artifact_name: "img".to_string(), results }
}

fn section(label: &str, body: &str) -> DisplayBlock {
    DisplayBlock::Section { label: label.to_string(), body: body.to_string() }
}

#[test]
fn alpine_report_flattens_to_four_rows() {
    let r = parse(ALPINE.as_bytes()).unwrap();
    let rows = flatten(&r);
    assert_eq!(
        rows,
        vec![
            Row::Spacer,
            Row::GroupHeader("alpine".to_string()),
            Row::Spacer,
            Row::Finding { group: 0, item: 0 }
        ]
    );
    let f = finding_at(&r, &rows[3]).unwrap();
    assert_eq!(f.vulnerability_id, Some("CVE-2023-1".to_string()));
    assert!(finding_at(&r, &rows[0]).is_none());
    assert!(finding_at(&r, &rows[1]).is_none());
}

#[test]
fn alpine_popup_shows_three_blocks() {
    let r = parse(ALPINE.as_bytes()).unwrap();
    let mut app = App::new("alpine:3.18".to_string(), r);
    assert_eq!(app.selected(), None);
    assert_eq!(app.handle(Input::MoveDown), Outcome::Continue);
    assert_eq!(app.selected(), Some(3));
    assert_eq!(app.popup_detail(), None);
    assert_eq!(app.handle(Input::Activate), Outcome::Continue);
    assert!(app.show_popup());
    assert_eq!(
        app.popup_detail(),
        Some(vec![
            section("Title", "t"),
            section("Vulnerability ID", "CVE-2023-1"),
            section("Severity", "HIGH")
        ])
    );
}

#[test]
fn flatten_is_the_same_twice() {
    let r = report(vec![
        group("a", Some(vec!["1", "2"])),
        group("b", None),
        group("c", Some(vec!["3"])),
    ]);
    assert_eq!(flatten(&r), flatten(&r));
}

#[test]
fn groups_without_findings_give_no_rows() {
    let r = report(vec![group("a", None), group("b", Some(vec![]))]);
    assert_eq!(flatten(&r), vec![]);
    assert_eq!(flatten(&report(vec![])), vec![]);
}

#[test]
fn flatten_keeps_group_and_finding_order() {
    let r = report(vec![
        group("a", Some(vec!["1", "2"])),
        group("b", Some(vec![])),
        group("c", None),
        group("d", Some(vec!["3"])),
    ]);
    assert_eq!(
        flatten(&r),
        vec![
            Row::Spacer,
            Row::GroupHeader("a".to_string()),
            Row::Spacer,
            Row::Finding { group: 0, item: 0 },
            Row::Finding { group: 0, item: 1 },
            Row::Spacer,
            Row::GroupHeader("d".to_string()),
            Row::Spacer,
            Row::Finding { group: 3, item: 0 },
        ]
    );
    let f = finding_at(&r, &Row::Finding { group: 3, item: 0 }).unwrap();
    assert_eq!(f.vulnerability_id, Some("3".to_string()));
    assert!(finding_at(&r, &Row::Finding { group: 1, item: 0 }).is_none());
    assert!(finding_at(&r, &Row::Finding { group: 2, item: 0 }).is_none());
    assert!(finding_at(&r, &Row::Finding { group: 9, item: 0 }).is_none());
    assert!(finding_at(&r, &Row::GroupHeader("a".to_string())).is_none());
}

#[test]
fn detail_of_a_full_finding_has_eight_sections_in_order() {
    let f = Vulnerabilities {
        vulnerability_id: Some("id".to_string()),
        severity: Some("LOW".to_string()),
        title: Some("ti".to_string()),
        description: Some("de".to_string()),
        severity_source: Some("nvd".to_string()),
        pkg_name: Some("musl".to_string()),
        installed_version: Some("1.0".to_string()),
        fixed_version: Some("1.1".to_string()),
    };
    assert_eq!(
        build_detail(&f),
        vec![
            section("Title", "ti"),
            section("Description", "de"),
            section("Vulnerability ID", "id"),
            section("Severity", "LOW"),
            section("Severity Source", "nvd"),
            section("Package Name", "musl"),
            section("Installed Version", "1.0"),
            section("Fixed Version", "1.1"),
        ]
    );
}

#[test]
fn detail_omits_absent_fields() {
    let mut f = finding("x");
    f.vulnerability_id = None;
    assert_eq!(build_detail(&f), vec![]);
    f.fixed_version = Some("2".to_string());
    f.description = Some("".to_string());
    assert_eq!(build_detail(&f), vec![section("Description", ""), section("Fixed Version", "2")]);
}

#[test]
fn selection_starts_at_the_fourth_row_and_is_clamped() {
    let mut app = App::new("i".to_string(), report(vec![group("a", Some(vec!["1", "2"]))]));
    assert_eq!(app.rows().len(), 5);
    app.next();
    assert_eq!(app.selected(), Some(3));
    app.next();
    assert_eq!(app.selected(), Some(4));
    app.next();
    assert_eq!(app.selected(), Some(4));
    app.next();
    assert_eq!(app.selected(), Some(4));
    app.previous();
    assert_eq!(app.selected(), Some(3));
}

#[test]
fn moving_up_stops_at_the_first_row() {
    let mut app = App::new("i".to_string(), report(vec![group("a", Some(vec!["1"]))]));
    app.previous();
    assert_eq!(app.selected(), Some(3));
    app.previous();
    assert_eq!(app.selected(), Some(2));
    app.previous();
    app.previous();
    assert_eq!(app.selected(), Some(0));
    app.previous();
    assert_eq!(app.selected(), Some(0));
}

#[test]
fn empty_table_never_has_a_selection() {
    let mut app = App::new("i".to_string(), report(vec![group("a", None)]));
    app.next();
    assert_eq!(app.selected(), None);
    app.previous();
    assert_eq!(app.selected(), None);
    assert_eq!(app.handle(Input::Activate), Outcome::Continue);
    assert!(!app.show_popup());
    assert_eq!(app.popup_detail(), None);
    assert!(app.selected_finding().is_none());
}

#[test]
fn activating_a_header_or_nothing_opens_no_popup() {
    let mut app = App::new("i".to_string(), report(vec![group("a", Some(vec!["1"]))]));
    app.handle(Input::Activate);
    assert!(!app.show_popup());
    app.handle(Input::MoveUp);
    app.handle(Input::MoveUp);
    assert_eq!(app.selected(), Some(2));
    app.handle(Input::Activate);
    assert!(!app.show_popup());
    app.handle(Input::MoveUp);
    assert_eq!(app.selected(), Some(1));
    app.handle(Input::Activate);
    assert!(!app.show_popup());
    assert!(app.selected_finding().is_none());
}

#[test]
fn scroll_is_reset_when_the_popup_opens_and_closes() {
    let mut app = App::new("i".to_string(), report(vec![group("a", Some(vec!["1"]))]));
    app.handle(Input::MoveDown);
    app.handle(Input::ScrollDown);
    assert_eq!(app.pop_scroll(), 0);
    app.handle(Input::Activate);
    assert!(app.show_popup());
    assert_eq!(app.pop_scroll(), 0);
    app.handle(Input::ScrollDown);
    app.handle(Input::ScrollDown);
    app.handle(Input::ScrollDown);
    assert_eq!(app.pop_scroll(), 3);
    app.handle(Input::ScrollUp);
    assert_eq!(app.pop_scroll(), 2);
    assert_eq!(app.handle(Input::Dismiss), Outcome::Continue);
    assert!(!app.show_popup());
    assert_eq!(app.pop_scroll(), 0);
    app.handle(Input::Activate);
    app.handle(Input::ScrollDown);
    assert_eq!(app.pop_scroll(), 1);
    app.handle(Input::Activate);
    assert!(!app.show_popup());
    assert_eq!(app.pop_scroll(), 0);
    app.handle(Input::Activate);
    assert_eq!(app.pop_scroll(), 0);
    app.handle(Input::ScrollUp);
    assert_eq!(app.pop_scroll(), 0);
}

#[test]
fn scroll_stops_at_its_limit() {
    let mut app = App::new("i".to_string(), report(vec![group("a", Some(vec!["1"]))]));
    app.handle(Input::MoveDown);
    app.handle(Input::Activate);
    for _ in 0..65540 {
        app.handle(Input::ScrollDown);
    }
    assert_eq!(app.pop_scroll(), 65535);
}

#[test]
fn moves_are_ignored_while_the_popup_is_open() {
    let mut app = App::new("i".to_string(), report(vec![group("a", Some(vec!["1", "2"]))]));
    app.handle(Input::MoveDown);
    app.handle(Input::Activate);
    app.handle(Input::MoveDown);
    app.handle(Input::MoveUp);
    assert_eq!(app.selected(), Some(3));
    assert!(app.show_popup());
}

#[test]
fn dismiss_leaves_only_from_the_table() {
    let mut app = App::new("i".to_string(), report(vec![group("a", Some(vec!["1"]))]));
    app.on_key(Key::Down);
    assert_eq!(app.on_key(Key::Enter), Outcome::Continue);
    assert!(app.show_popup());
    assert_eq!(app.on_key(Key::Escape), Outcome::Continue);
    assert!(!app.show_popup());
    assert_eq!(app.on_key(Key::Other), Outcome::Continue);
    assert_eq!(app.on_key(Key::Quit), Outcome::Exit);
    assert_eq!(app.on_key(Key::Escape), Outcome::Exit);
}

#[test]
fn keys_scroll_the_popup_and_move_the_table() {
    assert_eq!(input_for(false, Key::Down), Some(Input::MoveDown));
    assert_eq!(input_for(true, Key::Down), Some(Input::ScrollDown));
    assert_eq!(input_for(false, Key::Up), Some(Input::MoveUp));
    assert_eq!(input_for(true, Key::Up), Some(Input::ScrollUp));
    assert_eq!(input_for(true, Key::Enter), Some(Input::Activate));
    assert_eq!(input_for(false, Key::Quit), Some(Input::Dismiss));
    assert_eq!(input_for(true, Key::Escape), Some(Input::Dismiss));
    assert_eq!(input_for(true, Key::Other), None);
    let mut app = App::new("i".to_string(), report(vec![group("a", Some(vec!["1", "2"]))]));
    app.on_key(Key::Down);
    app.on_key(Key::Down);
    assert_eq!(app.selected(), Some(4));
    app.on_key(Key::Enter);
    app.on_key(Key::Down);
    assert_eq!(app.selected(), Some(4));
    assert_eq!(app.pop_scroll(), 1);
    app.on_key(Key::Up);
    assert_eq!(app.pop_scroll(), 0);
}

#[test]
fn session_keeps_its_image_and_report() {
    let r = report(vec![group("a", Some(vec!["1"]))]);
    let app = App::new("name".to_string(), r);
    assert_eq!(app.image_name(), "name");
    assert_eq!(app.trivy().results.len(), 1);
    assert_eq!(app.selected_finding(), None);
}

#[test]
fn severities_have_their_colours() {
    assert_eq!(critical_color("CRITICAL".to_string()), Paint::Red);
    assert_eq!(critical_color("HIGH".to_string()), Paint::Yellow);
    assert_eq!(critical_color("MEDIUM".to_string()), Paint::Blue);
    assert_eq!(critical_color("LOW".to_string()), Paint::Green);
    assert_eq!(critical_color("None".to_string()), Paint::White);
    assert_eq!(critical_color("high".to_string()), Paint::White);
    assert_eq!(critical_color("".to_string()), Paint::White);
    assert_eq!(check_focus(true), Paint::White);
    assert_eq!(check_focus(false), Paint::Green);
}

#[test]
fn popup_sits_in_the_middle() {
    let screen = Area { x: 0, y: 0, width: 100, height: 50 };
    assert!(can_cut(screen));
    assert_eq!(
        middle_part(Cut::Vertical, 40, screen),
        Area { x: 0, y: 15, width: 100, height: 20 }
    );
    assert_eq!(
        centered_rect(60, 40, screen),
        Some(Area { x: 20, y: 15, width: 60, height: 20 })
    );
    assert!(!can_cut(Area { x: 0, y: 0, width: 656, height: 1 }));
    assert!(!can_cut(Area { x: 65000, y: 0, width: 600, height: 1 }));
}

#[test]
fn popup_title_names_the_finding() {
    assert_eq!(trivy_tui::detail::popup_title(&finding("CVE-1")), "Summary for CVE-1");
    let mut f = finding("x");
    f.vulnerability_id = None;
    assert_eq!(trivy_tui::detail::popup_title(&f), "Summary");
}

#[test]
fn absent_cells_read_none() {
    assert_eq!(trivy_tui::detail::cell_text(&None), "None");
    assert_eq!(trivy_tui::detail::cell_text(&Some("HIGH".to_string())), "HIGH");
    assert_eq!(trivy_tui::detail::cell_text(&Some("".to_string())), "");
}

#[test]
fn shares_leave_the_rest_in_two_halves() {
    assert_eq!(trivy_tui::layout::shares_around(60), (20, 60, 20));
    assert_eq!(trivy_tui::layout::shares_around(40), (30, 40, 30));
    assert_eq!(trivy_tui::layout::shares_around(33), (33, 33, 33));
    assert_eq!(trivy_tui::layout::shares_around(0), (50, 0, 50));
    assert_eq!(trivy_tui::layout::shares_around(100), (0, 100, 0));
    assert_eq!(trivy_tui::layout::shares_around(99), (0, 99, 0));
}

#[test]
fn middle_is_the_second_part() {
    let a = Area { x: 0, y: 0, width: 1, height: 1 };
    let b = Area { x: 1, y: 0, width: 2, height: 1 };
    let c = Area { x: 3, y: 0, width: 1, height: 1 };
    assert_eq!(trivy_tui::layout::middle_of(&vec![a, b, c]), b);
    assert_eq!(trivy_tui::layout::middle_of(&vec![c, a]), a);
}

#[test]
fn a_row_that_cannot_be_cut_has_no_middle_column() {
    let wide = Area { x: 0, y: 0, width: 700, height: 10 };
    assert_eq!(trivy_tui::layout::middle_column(60, wide), None);
    let far = Area { x: 65500, y: 0, width: 100, height: 10 };
    assert_eq!(trivy_tui::layout::middle_column(60, far), None);
    let row = Area { x: 0, y: 15, width: 100, height: 20 };
    assert_eq!(
        trivy_tui::layout::middle_column(60, row),
        Some(Area { x: 20, y: 15, width: 60, height: 20 })
    );
}
