use smash_shell::content_detection::matches_fit;
use smash_shell::cookbook::{shell_key, AppLayout, FocusId, TerminalDemoLayout};
use smash_shell::cookbook_state::{focus_nodes_in_layout, use_cookbook_state, TabLayout};
use smash_shell::dialog::use_dialog;
use smash_shell::events::{KeyCode, KeyEvent, KeyModifiers};
use smash_shell::events::EventEmitter;
use smash_shell::geometry::Rect;
use smash_shell::heuristics::{bundled_heuristics, content_matches_for, detect_syntax, heuristic_matches};
use smash_shell::highlight::highlight_request;
use smash_shell::layout::centered_rect;
use smash_shell::syntax::{SyntaxRequest, SyntaxThemeKind};
use smash_shell::syntax_select::SyntaxAssets;
use smash_shell::textbox::TextBoxLanguage;

fn request(title: &str, path_hint: Option<&str>, lines: &[&str]) -> SyntaxRequest {
    SyntaxRequest {
        revision: 7,
        theme_kind: SyntaxThemeKind::Dark,
        title: title.to_string(),
        path_hint: path_hint.map(|h| h.to_string()),
        language: TextBoxLanguage::Auto,
        lines: lines.iter().map(|l| l.to_string()).collect(),
    }
}

#[test]
fn blank_text_has_no_content_matches() {
    let rules = bundled_heuristics();
    assert!(!rules.is_empty());
    let blank = request("editor", None, &["   ", ""]);
    assert_eq!(content_matches_for(&rules, &blank), Some(Vec::new()));
}

#[test]
fn content_matches_name_known_languages_with_positive_scores() {
    let rules = bundled_heuristics();
    let matches = heuristic_matches(&rules, "#include <iostream>\nint main() {}").expect("bundled heuristics evaluate");
    assert!(matches.iter().any(|(_, langs)| langs.iter().any(|l| l == "C++")));
    assert!(matches.iter().all(|(score, _)| *score >= 1));
    assert!(matches_fit(&matches));
}

#[test]
fn matches_fit_refuses_sums_past_a_machine_word() {
    assert!(matches_fit(&vec![(3, vec!["C".to_string()]), (2, vec!["C++".to_string()])]));
    assert!(!matches_fit(&vec![(usize::MAX, vec!["C".to_string(), "C++".to_string()])]));
    assert!(!matches_fit(&vec![(usize::MAX, vec!["C".to_string()]), (1, vec!["C".to_string()])]));
}

#[test]
fn highlighting_gives_one_style_per_character() {
    let assets = SyntaxAssets::load();
    let rules = bundled_heuristics();
    let req = request("editor", Some("sample.rs"), &["fn main() {", "    let é = 1;", "}"]);
    let h = highlight_request(&assets, &rules, &req).expect("highlighted");
    assert_eq!(h.revision, 7);
    assert_eq!(h.fingerprint, req.fingerprint());
    assert_eq!(h.language_label, "Rust");
    assert_eq!(h.line_styles.len(), 3);
    for (row, line) in h.line_styles.iter().zip(req.lines.iter()) {
        assert_eq!(row.len(), line.chars().count());
    }
    assert!(h.line_styles[0].iter().any(|s| s.fg.is_some()));
}

#[test]
fn plain_text_is_drawn_with_plain_styles() {
    let assets = SyntaxAssets::load();
    let rules = bundled_heuristics();
    let mut req = request("editor", None, &["just words"]);
    req.language = TextBoxLanguage::PlainText;
    let h = highlight_request(&assets, &rules, &req).expect("highlighted");
    assert_eq!(h.language_label, "Plain Text");
    assert!(h.line_styles[0].iter().all(|s| s.fg.is_none() && !s.bold && !s.italic && !s.underlined));
    assert_eq!(detect_syntax(&assets, &rules, &req).map(|c| c.label), Some("Plain Text".to_string()));
}

#[test]
fn equal_requests_have_equal_fingerprints() {
    let a = request("editor", Some("a.rs"), &["fn a() {}"]);
    let b = request("editor", Some("a.rs"), &["fn a() {}"]);
    assert_eq!(a.fingerprint(), b.fingerprint());
    assert_eq!(a.fingerprint(), a.duplicate().fingerprint());
    let mut c = a.duplicate();
    c.revision = 8;
    assert_ne!(a.fingerprint(), c.fingerprint());
}

#[test]
fn emitter_hands_each_event_to_every_later_subscriber() {
    let mut emitter: EventEmitter<u32> = EventEmitter::new();
    let first = emitter.subscribe();
    emitter.emit(1);
    let second = emitter.subscribe();
    emitter.emit(2);
    emitter.emit(3);
    assert_eq!(emitter.take(first), vec![1, 2, 3]);
    assert_eq!(emitter.take(second), vec![2, 3]);
    assert_eq!(emitter.take(first), Vec::<u32>::new());
}

#[test]
fn centred_rectangle_lies_within_the_area() {
    let area = Rect::new(2, 3, 40, 20);
    let r = centered_rect(area, 50, 30);
    assert!(r.x >= area.x && r.x + r.width <= area.x + area.width);
    assert!(r.y >= area.y && r.y + r.height <= area.y + area.height);
    assert_eq!(r, Rect::new(12, 10, 20, 6));
}

#[test]
fn shell_keys_quit_on_ctrl_q_and_ask_on_ctrl_c() {
    let mut dialog = use_dialog("quit?", "sure?");
    let ctrl = KeyModifiers { control: true, ..KeyModifiers::none() };
    assert!(!shell_key(&mut dialog, KeyEvent::new(KeyCode::Char('x'), KeyModifiers::none()), 0));
    assert!(!dialog.is_open());
    assert!(!shell_key(&mut dialog, KeyEvent::new(KeyCode::Char('c'), ctrl), 0));
    assert!(dialog.is_open());
    assert!(shell_key(&mut dialog, KeyEvent::new(KeyCode::Char('c'), ctrl), 1));
    let mut fresh = use_dialog("quit?", "sure?");
    assert!(shell_key(&mut fresh, KeyEvent::new(KeyCode::Char('q'), ctrl), 0));
}

#[test]
fn focus_nodes_follow_the_given_layout() {
    let state = use_cookbook_state();
    let app = AppLayout { tabs: Rect::new(0, 0, 80, 3), body: Rect::new(0, 3, 80, 20), footer: Rect::new(0, 23, 80, 1) };
    let blank = focus_nodes_in_layout(&app, &TabLayout::Blank, &state);
    assert_eq!(blank.len(), 1);
    assert!(blank[0].id == FocusId::Tabs);
    assert_eq!(blank[0].area, Rect::new(0, 0, 80, 3));
    let terminal = TabLayout::Terminal(TerminalDemoLayout { intro: Rect::new(0, 3, 80, 4), terminal: Rect::new(0, 7, 80, 16) });
    let nodes = focus_nodes_in_layout(&app, &terminal, &state);
    assert_eq!(nodes.len(), 2);
    assert!(nodes[1].id == FocusId::Terminal);
    assert_eq!(nodes[1].area, Rect::new(0, 7, 80, 16));
}

#[test]
fn pinned_and_hinted_requests_are_highlighted_without_the_heuristics() {
    let assets = SyntaxAssets::load();
    let no_rules = Vec::new();
    let mut pinned = request("editor", None, &["{\"a\": 1}"]);
    pinned.language = TextBoxLanguage::Json;
    let h = highlight_request(&assets, &no_rules, &pinned).expect("pinned language decides");
    assert_eq!(h.language_label, "JSON");
    let hinted = request("editor", Some("notes.md"), &["# title"]);
    let h = highlight_request(&assets, &no_rules, &hinted).expect("hint decides");
    assert_eq!(h.language_label, "Markdown");
    assert_eq!(h.line_styles[0].len(), 7);
}
