//! Tests of the presentation feed, the colour classification, the cursor,
//! and the text helpers.
use rustwatch::cursor::advance_selection;
use rustwatch::cursor::retreat_selection;
use rustwatch::monitor::ProbeOutcome;
use rustwatch::monitor::StatusStore;
use rustwatch::monitor::Target;
use rustwatch::text::contains_substring;
use rustwatch::text::u64_to_string;
use rustwatch::ui::classify_color;
use rustwatch::ui::draw;
use rustwatch::ui::StatusColor;

fn target(name: &str, url: &str) -> Target {
    Target { name: name.to_string(), url: url.to_string() }
}

#[test]
fn classification_is_by_substring_alone() {
    assert_eq!(classify_color("SUCCESS : 200 (5 ms)"), StatusColor::Success);
    assert_eq!(classify_color("xxSUCCESSyy"), StatusColor::Success);
    assert_eq!(classify_color("ERROR : looks like SUCCESS"), StatusColor::Success);
    assert_eq!(classify_color("SUCCESS"), StatusColor::Success);
    assert_eq!(classify_color("pending..."), StatusColor::Pending);
    assert_eq!(classify_color("still pending!"), StatusColor::Pending);
    assert_eq!(classify_color("SUCCESS while pending"), StatusColor::Success);
    assert_eq!(classify_color("WARNING : code 404"), StatusColor::Failure);
    assert_eq!(classify_color("ERROR : timeout"), StatusColor::Failure);
    assert_eq!(classify_color(""), StatusColor::Failure);
    assert_eq!(classify_color("success"), StatusColor::Failure);
    assert_eq!(classify_color("SUCCESs"), StatusColor::Failure);
    assert_eq!(classify_color("SUC CESS"), StatusColor::Failure);
}

#[test]
fn cursor_wraps_at_both_ends() {
    assert_eq!(advance_selection(0, 3), 1);
    assert_eq!(advance_selection(1, 3), 2);
    assert_eq!(advance_selection(2, 3), 0);
    assert_eq!(retreat_selection(2, 3), 1);
    assert_eq!(retreat_selection(1, 3), 0);
    assert_eq!(retreat_selection(0, 3), 2);
}

#[test]
fn cursor_is_still_on_short_lists() {
    assert_eq!(advance_selection(0, 1), 0);
    assert_eq!(retreat_selection(0, 1), 0);
    assert_eq!(advance_selection(0, 0), 0);
    assert_eq!(retreat_selection(7, 0), 0);
}

#[test]
fn empty_registry_renders_nothing() {
    let store = StatusStore::new(&Vec::new());
    let snap = store.snapshot();
    let model = draw(&snap, 0);
    assert!(model.rows.is_empty());
    assert!(model.panel.is_none());
}

#[test]
fn render_marks_selection_and_fills_panel() {
    let targets = vec![target("A", "http://a.test"), target("B", "http://b.test")];
    let mut store = StatusStore::new(&targets);
    store.record_probe(0, &ProbeOutcome::Response { code: 200, elapsed_ms: 10 });
    store.record_probe(1, &ProbeOutcome::Response { code: 500, elapsed_ms: 3 });
    store.record_probe(1, &ProbeOutcome::Response { code: 204, elapsed_ms: 7 });

    let snap = store.snapshot();
    let model = draw(&snap, 1);
    assert_eq!(model.rows.len(), 2);
    assert!(!model.rows[0].selected);
    assert!(model.rows[1].selected);
    assert_eq!(model.rows[0].text, "   A -> SUCCESS : 200 (10 ms)".to_string());
    assert_eq!(model.rows[1].text, ">> B -> SUCCESS : 204 (7 ms)".to_string());
    assert_eq!(model.rows[0].color, StatusColor::Success);
    assert_eq!(model.rows[1].color, StatusColor::Success);

    let panel = model.panel.expect("a selected target has a panel");
    assert_eq!(panel.name, "B".to_string());
    assert_eq!(panel.series, vec![0, 7]);
    assert_eq!(panel.current, 7);
}

#[test]
fn render_colours_follow_the_status_text() {
    let targets = vec![
        target("A", "http://a.test"),
        target("B", "http://b.test"),
        target("C", "http://c.test"),
    ];
    let mut store = StatusStore::new(&targets);
    store.record_probe(0, &ProbeOutcome::Response { code: 200, elapsed_ms: 1 });
    store.record_probe(1, &ProbeOutcome::Response { code: 404, elapsed_ms: 1 });

    let model = draw(&store.snapshot(), 0);
    assert_eq!(model.rows[0].color, StatusColor::Success);
    assert_eq!(model.rows[1].color, StatusColor::Failure);
    assert_eq!(model.rows[2].color, StatusColor::Pending);
}

#[test]
fn fresh_target_panel_defaults_to_zero() {
    let store = StatusStore::new(&vec![target("A", "http://a.test")]);
    let model = draw(&store.snapshot(), 0);
    let panel = model.panel.expect("a selected target has a panel");
    assert!(panel.series.is_empty());
    assert_eq!(panel.current, 0);
}

#[test]
fn stale_cursor_renders_without_panel() {
    let store = StatusStore::new(&vec![target("A", "http://a.test")]);
    let model = draw(&store.snapshot(), 3);
    assert_eq!(model.rows.len(), 1);
    assert!(model.panel.is_none());
}

#[test]
fn decimal_rendering_is_exact() {
    assert_eq!(u64_to_string(0), "0".to_string());
    assert_eq!(u64_to_string(7), "7".to_string());
    assert_eq!(u64_to_string(42), "42".to_string());
    assert_eq!(u64_to_string(1000), "1000".to_string());
    assert_eq!(u64_to_string(1234567890), "1234567890".to_string());
    assert_eq!(u64_to_string(u64::MAX), "18446744073709551615".to_string());
}

#[test]
fn substring_search_finds_patterns_anywhere() {
    assert!(contains_substring("abc", ""));
    assert!(contains_substring("", ""));
    assert!(!contains_substring("", "a"));
    assert!(contains_substring("abc", "abc"));
    assert!(contains_substring("abc", "a"));
    assert!(contains_substring("abc", "c"));
    assert!(contains_substring("aaab", "aab"));
    assert!(contains_substring("abcabd", "abd"));
    assert!(!contains_substring("abc", "abcd"));
    assert!(!contains_substring("abcabc", "cb"));
}
