use smash_shell::syntax::{
    extension_tokens, looks_like_filename, new_syntax_worker_state, strip_utf8_bom, SyntaxRequest,
    SyntaxThemeKind,
};
use smash_shell::textbox::TextBoxLanguage;
use smash_shell::theme::{argb_to_color, theme_presets, RgbColor, PRESET_VIOLET};

fn request(title: &str, path_hint: Option<&str>, lines: &[&str]) -> SyntaxRequest {
    SyntaxRequest {
        revision: 1,
        theme_kind: SyntaxThemeKind::Dark,
        title: title.to_string(),
        path_hint: path_hint.map(|h| h.to_string()),
        language: TextBoxLanguage::Auto,
        lines: lines.iter().map(|l| l.to_string()).collect(),
    }
}

#[test]
fn extension_tokens_go_from_longest_to_shortest() {
    assert_eq!(extension_tokens("archive.tar.gz"), vec!["tar.gz".to_string(), "gz".to_string()]);
    assert_eq!(extension_tokens("src/main.rs"), vec!["rs".to_string()]);
    assert_eq!(extension_tokens("Makefile"), Vec::<String>::new());
    assert_eq!(extension_tokens("trailing."), Vec::<String>::new());
    assert_eq!(extension_tokens(".bashrc"), vec!["bashrc".to_string()]);
}

#[test]
fn filenames_are_recognised() {
    assert!(looks_like_filename("notes.md"));
    assert!(looks_like_filename("src/lib"));
    assert!(looks_like_filename("dir\\file"));
    assert!(!looks_like_filename("editor"));
}

#[test]
fn byte_order_mark_is_stripped() {
    assert_eq!(strip_utf8_bom("\u{FEFF}fn main() {}"), "fn main() {}");
    assert_eq!(strip_utf8_bom("plain"), "plain");
    assert_eq!(strip_utf8_bom(""), "");
}

#[test]
fn detection_hint_prefers_the_path_hint() {
    assert_eq!(request("editor", Some("sample.rs"), &[]).detection_hint(), Some("sample.rs"));
    assert_eq!(request("notes.md", Some("   "), &[]).detection_hint(), Some("notes.md"));
    assert_eq!(request("editor", None, &[]).detection_hint(), None);
    assert_eq!(request("  ", None, &[]).detection_hint(), None);
}

#[test]
fn joined_text_puts_newlines_between_lines() {
    assert_eq!(request("t", None, &["a", "b", "c"]).joined_text(), "a\nb\nc");
    assert_eq!(request("t", None, &[]).joined_text(), "");
}

#[test]
fn fingerprints_tell_requests_apart() {
    let a = request("t", Some("a.rs"), &["fn a() {}"]);
    let b = request("t", Some("a.rs"), &["fn b() {}"]);
    assert_eq!(a.fingerprint(), a.clone().fingerprint());
    assert_ne!(a.fingerprint(), b.fingerprint());
}

#[test]
fn worker_runs_only_the_newest_request() {
    let mut worker = new_syntax_worker_state();
    let first = request("editor", Some("first.rs"), &["fn first() {}"]);
    let second = request("notes", Some("notes.md"), &["# heading"]);
    let g1 = worker.schedule(first.clone(), 11).unwrap();
    let g2 = worker.schedule(second.clone(), 22).unwrap();
    assert_eq!(worker.schedule(second.clone(), 22), None);
    assert!(worker.begin(g1).is_none());
    let (job, fp) = worker.begin(g2).unwrap();
    assert_eq!(fp, 22);
    assert_eq!(job.lines, vec!["# heading".to_string()]);
    assert!(worker.begin(g2).is_none());
    assert!(worker.finish(22));
    assert_eq!(worker.schedule(second, 22), None);
    assert!(!worker.finish(11));
}

#[test]
fn argb_colours_split_into_channels() {
    assert_eq!(argb_to_color(0xFF6750A4), RgbColor { r: 0x67, g: 0x50, b: 0xA4 });
    assert_eq!(argb_to_color(0x00000000), RgbColor { r: 0, g: 0, b: 0 });
    let presets = theme_presets();
    assert_eq!(presets.len(), 5);
    assert_eq!(presets[0], ("violet", PRESET_VIOLET));
}
