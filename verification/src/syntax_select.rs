use crate::syntax::{extension_tokens, is_blank, lines_view, opt_string_view, spec_detection_hint, spec_extension_tokens, spec_is_blank, SyntaxRequest};
use crate::content_detection::{best_content_language, content_sums_fit, flat_matches, is_candidate, is_content_winner, matches_view, ranks_above};
use crate::text::join_newline;
use crate::textbox::TextBoxLanguage;
use syntect::highlighting::ThemeSet;
use syntect::parsing::SyntaxSet;
use vstd::prelude::*;

verus! {

#[verifier::external_type_specification]
#[verifier::external_body]
pub struct ExSyntaxSet(SyntaxSet);

/// The syntax definitions and colour themes bundled with syntect.
/// `SyntaxAssets::load` is the only way to make one, so every value holds the
/// same definitions and themes, and a lookup in it depends on what is looked
/// up alone.
pub struct SyntaxAssets {
    pub(crate) syntaxes: SyntaxSet,
    pub(crate) themes: ThemeSet,
}

#[verifier::external_type_specification]
#[verifier::external_body]
pub struct ExThemeSet(ThemeSet);

/// Calls syntect's `ThemeSet::load_defaults`, which loads the colour themes
/// bundled with the crate. Nothing is stated of the set: only highlighting
/// reads it.
#[verifier::external_body]
fn load_default_themes() -> (set: ThemeSet) {
    ThemeSet::load_defaults()
}

/// Calls syntect's `SyntaxSet::load_defaults_nonewlines`, which loads the
/// syntax definitions bundled with the crate. Nothing is stated of the set:
/// only the lookups below read it.
#[verifier::external_body]
fn load_default_syntaxes() -> (set: SyntaxSet) {
    SyntaxSet::load_defaults_nonewlines()
}

impl SyntaxAssets {
    /// Loads the bundled syntax definitions and themes. The loaded sets are
    /// opaque here; what the lookups find in them is named by what they look
    /// up.
    pub fn load() -> (assets: SyntaxAssets) {
        SyntaxAssets { syntaxes: load_default_syntaxes(), themes: load_default_themes() }
    }

    /// The definitions these assets hold.
    pub closed spec fn held_syntaxes(&self) -> SyntaxSet {
        self.syntaxes
    }

    /// The loaded definitions, for highlighting.
    pub fn syntaxes(&self) -> (set: &SyntaxSet)
        ensures
            *set == self.held_syntaxes(),
    {
        &self.syntaxes
    }
}

/// The name of the bundled syntax that syntect's `find_syntax_by_token`
/// finds for a token: the last one with that file extension, else the last
/// one with that name, both compared ignoring ASCII case.
pub uninterp spec fn spec_syntax_by_token(token: Seq<char>) -> Option<Seq<char>>;

/// Whether a bundled syntax carries exactly this name.
pub uninterp spec fn spec_has_syntax_named(name: Seq<char>) -> bool;

/// The name of the bundled syntax whose first-line pattern (a shebang or an
/// editor mode line) matches a line.
pub uninterp spec fn spec_syntax_by_first_line(line: Seq<char>) -> Option<Seq<char>>;

/// Calls syntect's `SyntaxSet::find_syntax_by_token` on the bundled set and
/// gives the found syntax's name. Trusted: the result is named
/// `spec_syntax_by_token`.
#[verifier::external_body]
fn syntax_by_token(assets: &SyntaxAssets, token: &str) -> (name: Option<String>)
    ensures
        opt_string_view(name) == spec_syntax_by_token(token@),
{
    assets.syntaxes.find_syntax_by_token(token).map(|s| s.name.clone())
}

/// Calls syntect's `SyntaxSet::find_syntax_by_name`, which compares names
/// with `==`. Trusted: whether it finds one is named `spec_has_syntax_named`.
#[verifier::external_body]
fn has_syntax_named(assets: &SyntaxAssets, name: &str) -> (found: bool)
    ensures
        found == spec_has_syntax_named(name@),
{
    assets.syntaxes.find_syntax_by_name(name).is_some()
}

/// Calls syntect's `SyntaxSet::find_syntax_by_first_line` on the bundled set
/// and gives the found syntax's name. Trusted: the result is named
/// `spec_syntax_by_first_line`.
#[verifier::external_body]
fn syntax_by_first_line(assets: &SyntaxAssets, line: &str) -> (name: Option<String>)
    ensures
        opt_string_view(name) == spec_syntax_by_first_line(line@),
{
    assets.syntaxes.find_syntax_by_first_line(line).map(|s| s.name.clone())
}

/// The languages linguist's `detect_language_by_filename` names for a path
/// (by its exact file name), or `None` when it reports an error.
pub uninterp spec fn spec_languages_by_filename(hint: Seq<char>) -> Option<Seq<Seq<char>>>;

/// The languages linguist's `detect_language_by_extension` names for a path
/// (by its longest known extension), or `None` when it reports an error.
pub uninterp spec fn spec_languages_by_extension(hint: Seq<char>) -> Option<Seq<Seq<char>>>;

/// The languages linguist's `disambiguate` picks for a path and its content
/// from its bundled heuristics, or `None` when it reports an error.
pub uninterp spec fn spec_disambiguate(hint: Seq<char>, content: Seq<char>) -> Option<Seq<Seq<char>>>;

/// The file-system name and the aliases of a language in linguist's bundled
/// definitions, or `None` when it has no such language.
pub uninterp spec fn spec_language_definition(name: Seq<char>) -> Option<(Option<Seq<char>>, Option<Seq<Seq<char>>>)>;

/// The text of each name.
pub open spec fn names_view(v: Vec<String>) -> Seq<Seq<char>> {
    v@.map_values(|s: String| s@)
}

pub open spec fn opt_names_view(v: Option<Vec<String>>) -> Option<Seq<Seq<char>>> {
    match v {
        Some(n) => Some(names_view(n)),
        None => None,
    }
}

pub open spec fn definition_view(d: Option<(Option<String>, Option<Vec<String>>)>) -> Option<(Option<Seq<char>>, Option<Seq<Seq<char>>>)> {
    match d {
        Some((f, a)) => Some((opt_string_view(f), opt_names_view(a))),
        None => None,
    }
}

/// Calls linguist's `detect_language_by_filename` and gives the names of the
/// languages found. Trusted: the result is named `spec_languages_by_filename`.
#[verifier::external_body]
fn languages_by_filename(hint: &str) -> (names: Option<Vec<String>>)
    ensures
        opt_names_view(names) == spec_languages_by_filename(hint@),
{
    match linguist::detect_language_by_filename(hint) {
        Ok(found) => Some(found.iter().map(|l| l.name.to_string()).collect()),
        Err(_) => None,
    }
}

/// Calls linguist's `detect_language_by_extension` and gives the names of
/// the languages found. Trusted: the result is named
/// `spec_languages_by_extension`.
#[verifier::external_body]
fn languages_by_extension(hint: &str) -> (names: Option<Vec<String>>)
    ensures
        opt_names_view(names) == spec_languages_by_extension(hint@),
{
    match linguist::detect_language_by_extension(hint) {
        Ok(found) => Some(found.iter().map(|l| l.name.to_string()).collect()),
        Err(_) => None,
    }
}

/// Calls linguist's `disambiguate` and gives the names of the languages it
/// picks. Trusted: the result is named `spec_disambiguate`.
#[verifier::external_body]
fn disambiguate(hint: &str, content: &str) -> (names: Option<Vec<String>>)
    ensures
        opt_names_view(names) == spec_disambiguate(hint@, content@),
{
    match linguist::disambiguate(hint, content) {
        Ok(found) => Some(found.iter().map(|l| l.name.to_string()).collect()),
        Err(_) => None,
    }
}

/// Looks a language up in linguist's bundled `definitions::LANGUAGES` and
/// gives its `fs_name` and `aliases` fields. Trusted: the result is named
/// `spec_language_definition`.
#[verifier::external_body]
fn language_definition(name: &str) -> (def: Option<(Option<String>, Option<Vec<String>>)>)
    ensures
        definition_view(def) == spec_language_definition(name@),
{
    linguist::definitions::LANGUAGES.get(name).map(|d| (d.fs_name.clone(), d.aliases.clone()))
}

/// Whether linguist knows a language of this name.
pub(crate) fn has_language(name: &str) -> (b: bool)
    ensures
        b == (spec_language_definition(name@) is Some),
{
    language_definition(name).is_some()
}

/// The syntax a text is highlighted with (`None`: plain text) and the
/// language name shown for it.
#[derive(Clone, Debug)]
pub struct SyntaxChoice {
    pub syntax: Option<String>,
    pub label: String,
}

pub open spec fn choice_view(c: SyntaxChoice) -> (Option<Seq<char>>, Seq<char>) {
    (opt_string_view(c.syntax), c.label@)
}

pub open spec fn opt_choice_view(c: Option<SyntaxChoice>) -> Option<(Option<Seq<char>>, Seq<char>)> {
    match c {
        Some(x) => Some(choice_view(x)),
        None => None,
    }
}

/// The syntax found for the first token that names one.
pub open spec fn first_token_syntax(tokens: Seq<Seq<char>>) -> Option<Seq<char>>
    decreases tokens.len(),
{
    if tokens.len() == 0 {
        None
    } else {
        match spec_syntax_by_token(tokens[0]) {
            Some(n) => Some(n),
            None => first_token_syntax(tokens.drop_first()),
        }
    }
}

/// The syntax found for the first of `tokens` that names one.
fn first_syntax_by_token(assets: &SyntaxAssets, tokens: &Vec<String>) -> (name: Option<String>)
    ensures
        opt_string_view(name) == first_token_syntax(names_view(*tokens)),
{
    let ghost all = names_view(*tokens);
    let mut i: usize = 0;
    proof {
        assert(all.subrange(0, all.len() as int) =~= all);
    }
    while i < tokens.len()
        invariant
            0 <= i <= tokens@.len(),
            all == names_view(*tokens),
            first_token_syntax(all) == first_token_syntax(all.subrange(i as int, all.len() as int)),
        decreases tokens@.len() - i,
    {
        let found = syntax_by_token(assets, tokens[i].as_str());
        proof {
            let rest = all.subrange(i as int, all.len() as int);
            assert(rest[0] == tokens@[i as int]@);
            assert(rest.drop_first() =~= all.subrange(i + 1, all.len() as int));
        }
        if found.is_some() {
            return found;
        }
        i += 1;
    }
    proof {
        assert(all.subrange(i as int, all.len() as int) =~= Seq::<Seq<char>>::empty());
    }
    None
}

/// The language name and the syntax tokens a pinned language stands for;
/// `None` for automatic detection.
pub open spec fn spec_override(language: TextBoxLanguage) -> Option<(Seq<char>, Seq<Seq<char>>)> {
    match language {
        TextBoxLanguage::Auto => None,
        TextBoxLanguage::PlainText => Some(("Plain Text"@, seq![])),
        TextBoxLanguage::Rust => Some(("Rust"@, seq!["rs"@, "rust"@])),
        TextBoxLanguage::Markdown => Some(("Markdown"@, seq!["md"@, "markdown"@])),
        TextBoxLanguage::Json => Some(("JSON"@, seq!["json"@])),
        TextBoxLanguage::Toml => Some(("TOML"@, seq!["toml"@])),
        TextBoxLanguage::Yaml => Some(("YAML"@, seq!["yaml"@, "yml"@])),
        TextBoxLanguage::Shell => Some(("Shell"@, seq!["sh"@, "bash"@, "zsh"@, "shell"@])),
    }
}

/// A pinned language's syntax: the first of its tokens that names a syntax,
/// plain text when none does, under the pinned language's name.
pub open spec fn spec_select_from_override(language: TextBoxLanguage) -> Option<(Option<Seq<char>>, Seq<char>)> {
    match spec_override(language) {
        Some((label, tokens)) => Some((first_token_syntax(tokens), label)),
        None => None,
    }
}

fn override_tokens(language: TextBoxLanguage) -> (r: Option<(String, Vec<String>)>)
    ensures
        match r {
            Some((label, tokens)) => spec_override(language) == Some((label@, names_view(tokens))),
            None => spec_override(language) is None,
        },
{
    let mut tokens: Vec<String> = Vec::new();
    let label = match language {
        TextBoxLanguage::Auto => {
            return None;
        },
        TextBoxLanguage::PlainText => "Plain Text",
        TextBoxLanguage::Rust => {
            tokens.push("rs".to_owned());
            tokens.push("rust".to_owned());
            "Rust"
        },
        TextBoxLanguage::Markdown => {
            tokens.push("md".to_owned());
            tokens.push("markdown".to_owned());
            "Markdown"
        },
        TextBoxLanguage::Json => {
            tokens.push("json".to_owned());
            "JSON"
        },
        TextBoxLanguage::Toml => {
            tokens.push("toml".to_owned());
            "TOML"
        },
        TextBoxLanguage::Yaml => {
            tokens.push("yaml".to_owned());
            tokens.push("yml".to_owned());
            "YAML"
        },
        TextBoxLanguage::Shell => {
            tokens.push("sh".to_owned());
            tokens.push("bash".to_owned());
            tokens.push("zsh".to_owned());
            tokens.push("shell".to_owned());
            "Shell"
        },
    };
    let ghost expected = match spec_override(language) {
        Some((_, t)) => t,
        None => Seq::empty(),
    };
    proof {
        assert(names_view(tokens) =~= expected);
    }
    Some((label.to_owned(), tokens))
}

/// The syntax for a pinned language.
pub fn select_syntax_from_override(assets: &SyntaxAssets, language: TextBoxLanguage) -> (choice: Option<SyntaxChoice>)
    ensures
        opt_choice_view(choice) == spec_select_from_override(language),
{
    match override_tokens(language) {
        Some((label, tokens)) => {
            let syntax = first_syntax_by_token(assets, &tokens);
            Some(SyntaxChoice { syntax, label })
        },
        None => None,
    }
}

/// The syntax a file name hint's extensions point to, under that syntax's
/// own name: the longest extension that names one wins.
pub open spec fn spec_select_from_hint(hint: Seq<char>) -> Option<(Option<Seq<char>>, Seq<char>)> {
    match first_token_syntax(spec_extension_tokens(hint)) {
        Some(n) => Some((Some(n), n)),
        None => None,
    }
}

/// The syntax a file name hint's extensions point to.
pub fn select_syntax_from_hint(assets: &SyntaxAssets, hint: &str) -> (choice: Option<SyntaxChoice>)
    ensures
        opt_choice_view(choice) == spec_select_from_hint(hint@),
{
    let tokens = extension_tokens(hint);
    proof {
        assert(names_view(tokens) =~= tokens@.map_values(|t: String| t@));
    }
    match first_syntax_by_token(assets, &tokens) {
        Some(name) => {
            let label = name.as_str().to_owned();
            Some(SyntaxChoice { syntax: Some(name), label })
        },
        None => None,
    }
}

/// Two characters equal once ASCII letters are folded to lower case.
pub open spec fn same_char_ignoring_ascii_case(a: char, b: char) -> bool {
    let x = a as u32;
    let y = b as u32;
    x == y || (65 <= x && x <= 90 && x + 32 == y) || (65 <= y && y <= 90 && y + 32 == x)
}

/// Two texts equal once ASCII letters are folded to lower case.
pub open spec fn same_ignoring_ascii_case(a: Seq<char>, b: Seq<char>) -> bool {
    a.len() == b.len() && forall|i: int| 0 <= i < a.len() ==> same_char_ignoring_ascii_case(#[trigger] a[i], b[i])
}

/// Whether two texts are equal once ASCII letters are folded to lower case.
fn eq_ignoring_ascii_case(a: &str, b: &str) -> (r: bool)
    ensures
        r == same_ignoring_ascii_case(a@, b@),
{
    let x = crate::text::chars_of(a);
    let y = crate::text::chars_of(b);
    if x.len() != y.len() {
        return false;
    }
    let mut i: usize = 0;
    while i < x.len()
        invariant
            0 <= i <= x@.len(),
            x@ == a@,
            y@ == b@,
            x@.len() == y@.len(),
            forall|j: int| 0 <= j < i ==> same_char_ignoring_ascii_case(#[trigger] x@[j], y@[j]),
        decreases x@.len() - i,
    {
        let p = x[i] as u32;
        let q = y[i] as u32;
        if !(p == q || (65 <= p && p <= 90 && p + 32 == q) || (65 <= q && q <= 90 && q + 32 == p)) {
            assert(!same_char_ignoring_ascii_case(x@[i as int], y@[i as int]));
            return false;
        }
        i += 1;
    }
    true
}

/// The names a detected language may go by in syntect: its own name, its
/// file-system name, then its aliases.
pub open spec fn detected_candidates(name: Seq<char>) -> Seq<Seq<char>> {
    let def = spec_language_definition(name);
    let fs = match def {
        Some((Some(f), _)) => seq![f],
        _ => Seq::empty(),
    };
    let aliases = match def {
        Some((_, Some(a))) => a,
        _ => Seq::empty(),
    };
    seq![name] + fs + aliases
}

/// Whether candidate `i` repeats an earlier one, ignoring ASCII case.
pub open spec fn is_repeat(c: Seq<Seq<char>>, i: int) -> bool {
    exists|j: int| 0 <= j < i && same_ignoring_ascii_case(#[trigger] c[j], c[i])
}

/// The syntax one candidate name finds: by token, else by exact name.
pub open spec fn candidate_syntax(c: Seq<char>) -> Option<Seq<char>> {
    match spec_syntax_by_token(c) {
        Some(n) => Some(n),
        None => if spec_has_syntax_named(c) {
            Some(c)
        } else {
            None
        },
    }
}

/// The syntax found by the first candidate from `i` on that is no repeat
/// and finds one.
pub open spec fn first_candidate_syntax(c: Seq<Seq<char>>, i: int) -> Option<Seq<char>>
    decreases c.len() - i,
{
    if i < 0 || i >= c.len() {
        None
    } else if !is_repeat(c, i) && candidate_syntax(c[i]) is Some {
        candidate_syntax(c[i])
    } else {
        first_candidate_syntax(c, i + 1)
    }
}

/// The syntax for a language linguist detected, under the language's name.
pub open spec fn spec_select_from_detected(name: Seq<char>) -> Option<(Option<Seq<char>>, Seq<char>)> {
    match first_candidate_syntax(detected_candidates(name), 0) {
        Some(n) => Some((Some(n), name)),
        None => None,
    }
}

fn detected_candidate_names(name: &str) -> (c: Vec<String>)
    ensures
        names_view(c) == detected_candidates(name@),
{
    let mut c: Vec<String> = Vec::new();
    c.push(name.to_owned());
    let def = language_definition(name);
    let ghost d = spec_language_definition(name@);
    match &def {
        Some((fs, aliases)) => {
            match fs {
                Some(f) => {
                    c.push(f.as_str().to_owned());
                },
                None => {},
            }
            match aliases {
                Some(a) => {
                    let mut k: usize = 0;
                    let ghost base = names_view(c);
                    while k < a.len()
                        invariant
                            0 <= k <= a@.len(),
                            names_view(c) == base + names_view(*a).take(k as int),
                        decreases a@.len() - k,
                    {
                        let ghost before = c@;
                        let item = a[k].as_str().to_owned();
                        assert(item@ == names_view(*a)[k as int]);
                        c.push(item);
                        proof {
                            assert(c@ == before.push(item));
                            assert(names_view(c) =~= before.map_values(|s: String| s@).push(item@));
                            assert(names_view(*a).take(k + 1) =~= names_view(*a).take(k as int).push(names_view(*a)[k as int]));
                        }
                        k += 1;
                    }
                    proof {
                        assert(names_view(*a).take(a@.len() as int) =~= names_view(*a));
                    }
                },
                None => {},
            }
        },
        None => {},
    }
    proof {
        let fs = match d {
            Some((Some(f), _)) => seq![f],
            _ => Seq::<Seq<char>>::empty(),
        };
        let al = match d {
            Some((_, Some(a))) => a,
            _ => Seq::<Seq<char>>::empty(),
        };
        assert(names_view(c) =~= seq![name@] + fs + al);
    }
    c
}

/// The syntax for a language linguist detected, under the language's name:
/// the first of its names (own name, file-system name, aliases; repeats
/// skipped) that syntect finds a syntax for.
pub fn select_syntax_from_detected(assets: &SyntaxAssets, name: &str) -> (choice: Option<SyntaxChoice>)
    ensures
        opt_choice_view(choice) == spec_select_from_detected(name@),
{
    let c = detected_candidate_names(name);
    let ghost cv = names_view(c);
    let mut i: usize = 0;
    while i < c.len()
        invariant
            0 <= i <= c@.len(),
            cv == names_view(c),
            cv == detected_candidates(name@),
            first_candidate_syntax(cv, 0) == first_candidate_syntax(cv, i as int),
        decreases c@.len() - i,
    {
        let mut repeat = false;
        let mut j: usize = 0;
        while j < i && !repeat
            invariant
                0 <= j <= i,
                i < c@.len(),
                cv == names_view(c),
                repeat ==> is_repeat(cv, i as int),
                !repeat ==> forall|k: int| 0 <= k < j ==> !same_ignoring_ascii_case(#[trigger] cv[k], cv[i as int]),
            decreases i - j,
        {
            if eq_ignoring_ascii_case(c[j].as_str(), c[i].as_str()) {
                assert(same_ignoring_ascii_case(cv[j as int], cv[i as int]));
                repeat = true;
            }
            j += 1;
        }
        proof {
            if !repeat {
                assert(!is_repeat(cv, i as int));
            }
        }
        if !repeat {
            let found = syntax_by_token(assets, c[i].as_str());
            match found {
                Some(n) => {
                    return Some(SyntaxChoice { syntax: Some(n), label: name.to_owned() });
                },
                None => {
                    if has_syntax_named(assets, c[i].as_str()) {
                        let n = c[i].as_str().to_owned();
                        return Some(SyntaxChoice { syntax: Some(n), label: name.to_owned() });
                    }
                },
            }
        }
        i += 1;
    }
    None
}

/// The first detected language that has a syntax, with that syntax.
pub open spec fn first_detected_choice(names: Seq<Seq<char>>) -> Option<(Option<Seq<char>>, Seq<char>)>
    decreases names.len(),
{
    if names.len() == 0 {
        None
    } else {
        match spec_select_from_detected(names[0]) {
            Some(c) => Some(c),
            None => first_detected_choice(names.drop_first()),
        }
    }
}

/// The first of `names` that has a syntax, with that syntax.
fn select_syntax_from_detected_list(assets: &SyntaxAssets, names: &Vec<String>) -> (choice: Option<SyntaxChoice>)
    ensures
        opt_choice_view(choice) == first_detected_choice(names_view(*names)),
{
    let ghost all = names_view(*names);
    let mut i: usize = 0;
    proof {
        assert(all.subrange(0, all.len() as int) =~= all);
    }
    while i < names.len()
        invariant
            0 <= i <= names@.len(),
            all == names_view(*names),
            first_detected_choice(all) == first_detected_choice(all.subrange(i as int, all.len() as int)),
        decreases names@.len() - i,
    {
        let found = select_syntax_from_detected(assets, names[i].as_str());
        proof {
            let rest = all.subrange(i as int, all.len() as int);
            assert(rest[0] == names@[i as int]@);
            assert(rest.drop_first() =~= all.subrange(i + 1, all.len() as int));
        }
        if found.is_some() {
            return found;
        }
        i += 1;
    }
    proof {
        assert(all.subrange(i as int, all.len() as int) =~= Seq::<Seq<char>>::empty());
    }
    None
}

/// The languages linguist detects from a file name hint: those the exact
/// file name gives; else those the extension gives, narrowed by linguist's
/// content heuristics when the extension is ambiguous and they pick any;
/// none when there is no hint.
pub open spec fn spec_detect_with_linguist(hint: Option<Seq<char>>, content: Seq<char>) -> Seq<Seq<char>> {
    match hint {
        None => Seq::empty(),
        Some(h) => match spec_languages_by_filename(h) {
            Some(f) if f.len() > 0 => f,
            _ => match spec_languages_by_extension(h) {
                Some(e) => {
                    let narrowed = if e.len() > 1 {
                        match spec_disambiguate(h, content) {
                            Some(d) if d.len() > 0 => Some(d),
                            _ => None,
                        }
                    } else {
                        None
                    };
                    match narrowed {
                        Some(d) => d,
                        None => e,
                    }
                },
                None => Seq::empty(),
            },
        },
    }
}

/// What a request says about its file type.
pub open spec fn request_hint(r: &SyntaxRequest) -> Option<Seq<char>> {
    spec_detection_hint(opt_string_view(r.path_hint), r.title@)
}

/// A request's text: its lines joined with newlines.
pub open spec fn request_text(r: &SyntaxRequest) -> Seq<char> {
    join_newline(lines_view(r.lines@))
}

/// The languages linguist detects for a request from its file name hint
/// (and, for an ambiguous extension, its text).
pub fn detect_with_linguist(request: &SyntaxRequest) -> (names: Vec<String>)
    ensures
        names_view(names) == spec_detect_with_linguist(request_hint(request), request_text(request)),
{
    let h = match request.detection_hint() {
        Some(h) => h,
        None => {
            return Vec::new();
        },
    };
    match languages_by_filename(h) {
        Some(found) => {
            if found.len() > 0 {
                return found;
            }
        },
        None => {},
    }
    match languages_by_extension(h) {
        Some(found) => {
            if found.len() > 1 {
                let content = request.joined_text();
                match disambiguate(h, content.as_str()) {
                    Some(narrowed) => {
                        if narrowed.len() > 0 {
                            return narrowed;
                        }
                    },
                    None => {},
                }
            }
            found
        },
        None => Vec::new(),
    }
}

/// The first line that is not blank.
pub open spec fn first_nonblank(lines: Seq<Seq<char>>) -> Option<Seq<char>>
    decreases lines.len(),
{
    if lines.len() == 0 {
        None
    } else if !spec_is_blank(lines[0]) {
        Some(lines[0])
    } else {
        first_nonblank(lines.drop_first())
    }
}

/// At most one language wins on content.
pub proof fn lemma_content_winner_unique(f: Seq<(usize, Seq<char>)>, a: Seq<char>, b: Seq<char>)
    requires
        is_content_winner(f, a),
        is_content_winner(f, b),
    ensures
        a == b,
{
    if a != b {
        assert(is_candidate(f, b));
        assert(is_candidate(f, a));
        assert(ranks_above(f, a, b));
        assert(ranks_above(f, b, a));
    }
}

/// The syntax of the language a text's heuristic matches point to, if any.
pub open spec fn content_choice(m: Seq<(usize, Seq<Seq<char>>)>) -> Option<(Option<Seq<char>>, Seq<char>)> {
    let f = flat_matches(m);
    if exists|n: Seq<char>| is_content_winner(f, n) {
        spec_select_from_detected(choose|n: Seq<char>| is_content_winner(f, n))
    } else {
        None
    }
}

/// The syntax a text is highlighted with and the language shown for it,
/// trying in turn: a pinned language; the languages linguist detects from
/// the file name hint; the hint's extensions; the language the text's
/// heuristic matches `m` point to; the first non-blank line (shebang or mode
/// line); plain text.
pub open spec fn spec_select_syntax_for(
    language: TextBoxLanguage,
    path_hint: Option<Seq<char>>,
    title: Seq<char>,
    lines: Seq<Seq<char>>,
    m: Seq<(usize, Seq<Seq<char>>)>,
) -> (Option<Seq<char>>, Seq<char>) {
    let hint = spec_detection_hint(path_hint, title);
    match spec_select_from_override(language) {
        Some(c) => c,
        None => match first_detected_choice(spec_detect_with_linguist(hint, join_newline(lines))) {
            Some(c) => c,
            None => match (match hint {
                Some(h) => spec_select_from_hint(h),
                None => None,
            }) {
                Some(c) => c,
                None => match content_choice(m) {
                    Some(c) => c,
                    None => match (match first_nonblank(lines) {
                        Some(l) => spec_syntax_by_first_line(l),
                        None => None,
                    }) {
                        Some(n) => (Some(n), n),
                        None => (None, "Plain Text"@),
                    },
                },
            },
        },
    }
}

/// The choice made before the content heuristics are consulted: a pinned
/// language, the languages linguist detects from the file name hint, or the
/// hint's extensions.
pub open spec fn spec_early_choice(
    language: TextBoxLanguage,
    path_hint: Option<Seq<char>>,
    title: Seq<char>,
    lines: Seq<Seq<char>>,
) -> Option<(Option<Seq<char>>, Seq<char>)> {
    let hint = spec_detection_hint(path_hint, title);
    match spec_select_from_override(language) {
        Some(c) => Some(c),
        None => match first_detected_choice(spec_detect_with_linguist(hint, join_newline(lines))) {
            Some(c) => Some(c),
            None => match hint {
                Some(h) => spec_select_from_hint(h),
                None => None,
            },
        },
    }
}

/// The early choice for a request.
pub open spec fn spec_request_early_choice(r: &SyntaxRequest) -> Option<(Option<Seq<char>>, Seq<char>)> {
    spec_early_choice(r.language, opt_string_view(r.path_hint), r.title@, lines_view(r.lines@))
}

/// Once an early step decides, the content heuristics have no say.
pub proof fn law_early_choice_decides(
    language: TextBoxLanguage,
    path_hint: Option<Seq<char>>,
    title: Seq<char>,
    lines: Seq<Seq<char>>,
    m: Seq<(usize, Seq<Seq<char>>)>,
)
    requires
        spec_early_choice(language, path_hint, title, lines) is Some,
    ensures
        spec_select_syntax_for(language, path_hint, title, lines, m) == spec_early_choice(language, path_hint, title, lines)->0,
{
}

/// The choice made before the content heuristics, as `spec_early_choice`
/// states it.
pub fn select_syntax_early(assets: &SyntaxAssets, request: &SyntaxRequest) -> (choice: Option<SyntaxChoice>)
    ensures
        opt_choice_view(choice) == spec_request_early_choice(request),
{
    match select_syntax_from_override(assets, request.language) {
        Some(c) => {
            return Some(c);
        },
        None => {},
    }
    let detected = detect_with_linguist(request);
    match select_syntax_from_detected_list(assets, &detected) {
        Some(c) => {
            return Some(c);
        },
        None => {},
    }
    match request.detection_hint() {
        Some(h) => select_syntax_from_hint(assets, h),
        None => None,
    }
}

/// The syntax choice for a request, as `spec_select_syntax_for` states it.
pub open spec fn spec_select_syntax(r: &SyntaxRequest, m: Seq<(usize, Seq<Seq<char>>)>) -> (Option<Seq<char>>, Seq<char>) {
    spec_select_syntax_for(r.language, opt_string_view(r.path_hint), r.title@, lines_view(r.lines@), m)
}

/// The syntax of the first non-blank line's shebang or mode line.
fn select_syntax_from_first_line(assets: &SyntaxAssets, lines: &Vec<String>) -> (name: Option<String>)
    ensures
        opt_string_view(name) == match first_nonblank(lines_view(lines@)) {
            Some(l) => spec_syntax_by_first_line(l),
            None => None,
        },
{
    let ghost all = lines_view(lines@);
    let mut i: usize = 0;
    proof {
        assert(all.subrange(0, all.len() as int) =~= all);
    }
    while i < lines.len()
        invariant
            0 <= i <= lines@.len(),
            all == lines_view(lines@),
            first_nonblank(all) == first_nonblank(all.subrange(i as int, all.len() as int)),
        decreases lines@.len() - i,
    {
        proof {
            let rest = all.subrange(i as int, all.len() as int);
            assert(rest[0] == lines@[i as int]@);
            assert(rest.drop_first() =~= all.subrange(i + 1, all.len() as int));
        }
        if !is_blank(lines[i].as_str()) {
            return syntax_by_first_line(assets, lines[i].as_str());
        }
        i += 1;
    }
    proof {
        assert(all.subrange(i as int, all.len() as int) =~= Seq::<Seq<char>>::empty());
    }
    None
}

/// The syntax a request is highlighted with and the language shown for it,
/// where `content_matches` are the bundled heuristics that match the
/// request's text.
pub fn select_syntax(assets: &SyntaxAssets, request: &SyntaxRequest, content_matches: &Vec<(usize, Vec<String>)>) -> (choice: SyntaxChoice)
    requires
        content_sums_fit(matches_view(*content_matches)),
    ensures
        choice_view(choice) == spec_select_syntax(request, matches_view(*content_matches)),
{
    match select_syntax_from_override(assets, request.language) {
        Some(c) => {
            return c;
        },
        None => {},
    }
    let detected = detect_with_linguist(request);
    match select_syntax_from_detected_list(assets, &detected) {
        Some(c) => {
            return c;
        },
        None => {},
    }
    match request.detection_hint() {
        Some(h) => match select_syntax_from_hint(assets, h) {
            Some(c) => {
                return c;
            },
            None => {},
        },
        None => {},
    }
    let winner = best_content_language(content_matches);
    proof {
        let f = flat_matches(matches_view(*content_matches));
        if winner is Some {
            let c = choose|x: Seq<char>| is_content_winner(f, x);
            lemma_content_winner_unique(f, winner->0@, c);
        }
    }
    match winner {
        Some(n) => match select_syntax_from_detected(assets, n.as_str()) {
            Some(c) => {
                return c;
            },
            None => {},
        },
        None => {},
    }
    match select_syntax_from_first_line(assets, &request.lines) {
        Some(n) => {
            let label = n.as_str().to_owned();
            SyntaxChoice { syntax: Some(n), label }
        },
        None => SyntaxChoice { syntax: None, label: "Plain Text".to_owned() },
    }
}

/// The language name shown for a request.
pub fn detect_language_label(assets: &SyntaxAssets, request: &SyntaxRequest, content_matches: &Vec<(usize, Vec<String>)>) -> (label: String)
    requires
        content_sums_fit(matches_view(*content_matches)),
    ensures
        label@ == spec_select_syntax(request, matches_view(*content_matches)).1,
{
    select_syntax(assets, request, content_matches).label
}

/// A pinned language is shown under its own name, whatever the hint, the
/// title, the text and the heuristic matches.
pub proof fn law_pinned_language_wins(
    language: TextBoxLanguage,
    path_hint: Option<Seq<char>>,
    title: Seq<char>,
    lines: Seq<Seq<char>>,
    m: Seq<(usize, Seq<Seq<char>>)>,
)
    requires
        language != TextBoxLanguage::Auto,
    ensures
        match spec_override(language) {
            Some((label, _)) => spec_select_syntax_for(language, path_hint, title, lines, m).1 == label,
            None => false,
        },
{
}

/// When linguist recognises the file from its name hint, the content
/// heuristics have no say: the choice is the same for any matches.
pub proof fn law_hint_detection_outranks_content(
    path_hint: Option<Seq<char>>,
    title: Seq<char>,
    lines: Seq<Seq<char>>,
    m1: Seq<(usize, Seq<Seq<char>>)>,
    m2: Seq<(usize, Seq<Seq<char>>)>,
)
    requires
        first_detected_choice(spec_detect_with_linguist(spec_detection_hint(path_hint, title), join_newline(lines))) is Some,
    ensures
        spec_select_syntax_for(TextBoxLanguage::Auto, path_hint, title, lines, m1)
            == spec_select_syntax_for(TextBoxLanguage::Auto, path_hint, title, lines, m2),
{
}

} // verus!
