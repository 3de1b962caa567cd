use smash_shell::content_detection::best_content_language;
use smash_shell::syntax::{SyntaxRequest, SyntaxThemeKind};
use smash_shell::syntax_select::{
    detect_language_label, detect_with_linguist, select_syntax, select_syntax_from_detected,
    select_syntax_from_hint, select_syntax_from_override, SyntaxAssets,
};
use smash_shell::heuristics::{bundled_heuristics, content_matches_for};
use smash_shell::textbox::{use_textbox, TextBoxLanguage, TextBoxState};

fn request(title: &str, path_hint: Option<&str>, lines: &[&str]) -> SyntaxRequest {
    SyntaxRequest {
        revision: 1,
        theme_kind: SyntaxThemeKind::Dark,
        title: title.to_string(),
        path_hint: path_hint.map(|h| h.to_string()),
        language: TextBoxLanguage::Auto,
        lines: lines.iter().map(|l| l.to_string()).collect(),
    }
}

fn no_matches() -> Vec<(usize, Vec<String>)> {
    Vec::new()
}

fn matches_of(request: &SyntaxRequest) -> Vec<(usize, Vec<String>)> {
    content_matches_for(&bundled_heuristics(), request).expect("bundled heuristics evaluate")
}

fn box_matches(textbox: &TextBoxState) -> Vec<(usize, Vec<String>)> {
    matches_of(&textbox.syntax_request(0, SyntaxThemeKind::Dark))
}

#[test]
fn textbox_auto_detects_language_from_path_hint() {
    let assets = SyntaxAssets::load();
    let mut textbox = use_textbox("fn greet(name: &str) {\n    println!(\"hi\");\n}");
    textbox.set_path_hint("sample.rs");

    assert_eq!(textbox.resolved_language_label(&assets, &box_matches(&textbox)), "Rust");
}

#[test]
fn textbox_auto_detects_language_from_content_changes() {
    let assets = SyntaxAssets::load();
    let mut textbox = use_textbox("#include <stdio.h>\nint main() {}");
    textbox.set_path_hint("test.h");
    assert_eq!(textbox.resolved_language_label(&assets, &box_matches(&textbox)), "C");

    textbox.set_lines(vec!["#include <iostream>".to_string(), "int main() {}".to_string()]);

    assert_eq!(textbox.resolved_language_label(&assets, &box_matches(&textbox)), "C++");
}

#[test]
fn textbox_path_hint_remains_primary_when_present() {
    let assets = SyntaxAssets::load();
    let mut textbox = use_textbox("fn greet(name: &str) {\n    println!(\"hi\");\n}");
    textbox.set_path_hint("sample.rs");
    assert_eq!(textbox.resolved_language_label(&assets, &box_matches(&textbox)), "Rust");

    textbox.set_lines(vec!["{\"name\":\"smash\",\"kind\":\"demo\"}".to_string()]);

    assert_eq!(textbox.resolved_language_label(&assets, &box_matches(&textbox)), "Rust");
}

#[test]
fn textbox_uses_path_hint_as_primary_hint_for_ambiguous_languages() {
    let assets = SyntaxAssets::load();
    let request = request("header preview", Some("test.h"), &["#include <iostream>", "int main() {}"]);

    assert_eq!(detect_language_label(&assets, &request, &matches_of(&request)), "C++");
}

#[test]
fn textbox_language_can_override_auto_detection() {
    let assets = SyntaxAssets::load();
    let mut textbox = use_textbox("fn greet() {}");
    textbox.set_language(TextBoxLanguage::Json);

    assert_eq!(textbox.resolved_language_label(&assets, &box_matches(&textbox)), "JSON");
}

#[test]
fn pinned_languages_keep_their_names() {
    let assets = SyntaxAssets::load();
    assert!(select_syntax_from_override(&assets, TextBoxLanguage::Auto).is_none());
    let plain = select_syntax_from_override(&assets, TextBoxLanguage::PlainText).unwrap();
    assert_eq!(plain.label, "Plain Text");
    assert_eq!(plain.syntax, None);
    let rust = select_syntax_from_override(&assets, TextBoxLanguage::Rust).unwrap();
    assert_eq!(rust.label, "Rust");
    assert_eq!(rust.syntax, Some("Rust".to_string()));
    let shell = select_syntax_from_override(&assets, TextBoxLanguage::Shell).unwrap();
    assert_eq!(shell.label, "Shell");
    assert!(shell.syntax.is_some());
}

#[test]
fn linguist_names_languages_by_file_name_and_extension() {
    assert_eq!(detect_with_linguist(&request("editor", Some("Makefile"), &[])), vec!["Makefile".to_string()]);
    assert_eq!(detect_with_linguist(&request("script.py", None, &[])), vec!["Python".to_string()]);
    assert!(detect_with_linguist(&request("editor", None, &["fn main() {}"])).is_empty());
    assert!(detect_with_linguist(&request("editor", Some("   "), &[])).is_empty());
}

#[test]
fn hint_extension_and_detected_language_find_syntaxes() {
    let assets = SyntaxAssets::load();
    let md = select_syntax_from_hint(&assets, "notes.md").unwrap();
    assert_eq!(md.label, "Markdown");
    assert_eq!(md.syntax, Some("Markdown".to_string()));
    assert!(select_syntax_from_hint(&assets, "Makefile").is_none());

    let rust = select_syntax_from_detected(&assets, "Rust").unwrap();
    assert_eq!(rust.label, "Rust");
    assert_eq!(rust.syntax, Some("Rust".to_string()));
    assert!(select_syntax_from_detected(&assets, "No Such Language").is_none());
}

#[test]
fn content_heuristics_pick_the_best_ranked_language() {
    let single = vec![(3, vec!["C++".to_string()])];
    assert_eq!(best_content_language(&single), Some("C++".to_string()));

    let ranked = vec![
        (3, vec!["C".to_string(), "C++".to_string()]),
        (5, vec!["C++".to_string()]),
    ];
    assert_eq!(best_content_language(&ranked), Some("C++".to_string()));

    let more_matches = vec![
        (2, vec!["Perl".to_string()]),
        (1, vec!["Raku".to_string()]),
        (1, vec!["Raku".to_string()]),
    ];
    assert_eq!(best_content_language(&more_matches), Some("Raku".to_string()));

    let tied = vec![(2, vec!["C".to_string()]), (2, vec!["C++".to_string()])];
    assert_eq!(best_content_language(&tied), None);

    assert_eq!(best_content_language(&no_matches()), None);
}

#[test]
fn detection_falls_back_to_content_then_first_line_then_plain_text() {
    let assets = SyntaxAssets::load();

    let by_content = request("editor", None, &["#include <iostream>"]);
    let matches = vec![(3, vec!["C++".to_string()])];
    assert_eq!(detect_language_label(&assets, &by_content, &matches), "C++");

    let by_first_line = request("editor", None, &["", "#!/usr/bin/env python"]);
    let choice = select_syntax(&assets, &by_first_line, &no_matches());
    assert_eq!(choice.label, "Python");
    assert_eq!(choice.syntax, Some("Python".to_string()));

    let plain = request("editor", None, &["just words"]);
    let choice = select_syntax(&assets, &plain, &no_matches());
    assert_eq!(choice.label, "Plain Text");
    assert_eq!(choice.syntax, None);
}

#[test]
fn syntax_worker_debounces_to_latest_request() {
    let assets = SyntaxAssets::load();
    let mut worker = smash_shell::syntax::new_syntax_worker_state();
    let mut first = request("editor", Some("first.rs"), &["fn first() {}"]);
    first.revision = 1;
    let mut second = request("notes", Some("notes.md"), &["# heading"]);
    second.revision = 2;

    let first_fingerprint = first.fingerprint();
    let second_fingerprint = second.fingerprint();
    let first_generation = worker.schedule(first, first_fingerprint).expect("first request is new");
    let second_generation = worker.schedule(second, second_fingerprint).expect("second request is new");

    assert!(worker.begin(first_generation).is_none());
    let (job, fingerprint) = worker.begin(second_generation).expect("latest request runs");
    assert_eq!(fingerprint, second_fingerprint);
    assert!(worker.finish(fingerprint));
    assert_eq!(job.revision, 2);
    assert_eq!(detect_language_label(&assets, &job, &matches_of(&job)), "Markdown");
}
