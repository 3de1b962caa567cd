use crate::heuristics::{detect_syntax, spec_detected_choice, ContentRule};
use crate::syntax::{lines_view, opt_string_view, spec_fingerprint, SyntaxRequest, SyntaxThemeKind};
use crate::syntax_select::SyntaxAssets;
use crate::theme::RgbColor;
use syntect::easy::HighlightLines;
use syntect::highlighting::FontStyle;
use vstd::prelude::*;

verus! {

/// How one character is drawn: an optional foreground colour and the bold,
/// italic and underline flags. The plain style has none of them.
#[derive(Clone, Copy, Debug, PartialEq, Eq, Structural)]
pub struct CellStyle {
    pub fg: Option<RgbColor>,
    pub bold: bool,
    pub italic: bool,
    pub underlined: bool,
}

/// The plain style.
pub open spec fn plain_style() -> CellStyle {
    CellStyle { fg: None, bold: false, italic: false, underlined: false }
}

/// The segments of each line as syntect's `HighlightLines` highlights the
/// lines in turn with the named bundled syntax and the named bundled theme
/// (the first bundled theme, by name, where none has that name), each segment
/// with its style; a line is `None` where highlighting it failed, the whole
/// is `None` where the syntax is not bundled or no theme is.
pub uninterp spec fn spec_highlight_ranges(syntax: Seq<char>, theme: Seq<char>, lines: Seq<Seq<char>>) -> Option<
    Seq<Option<Seq<(CellStyle, Seq<char>)>>>,
>;

/// The text of the segments, one after another.
pub open spec fn segments_text(rs: Seq<(CellStyle, Seq<char>)>) -> Seq<char>
    decreases rs.len(),
{
    if rs.len() == 0 {
        Seq::empty()
    } else {
        segments_text(rs.drop_last()) + rs.last().1
    }
}

pub open spec fn segments_view(rs: Vec<(CellStyle, String)>) -> Seq<(CellStyle, Seq<char>)> {
    rs@.map_values(|e: (CellStyle, String)| (e.0, e.1@))
}

pub open spec fn rows_view(r: Option<Vec<Option<Vec<(CellStyle, String)>>>>) -> Option<Seq<Option<Seq<(CellStyle, Seq<char>)>>>> {
    match r {
        Some(rows) => Some(
            rows@.map_values(
                |row: Option<Vec<(CellStyle, String)>>|
                    match row {
                        Some(rs) => Some(segments_view(rs)),
                        None => None,
                    },
            ),
        ),
        None => None,
    }
}

/// Highlights the lines with syntect's `HighlightLines`, using the bundled
/// syntax of the given name and the bundled theme of the given name, or the
/// first bundled theme where there is none of that name (the theme map is
/// ordered by name). Trusted: the result is named
/// `spec_highlight_ranges`; there is one row per line, and a highlighted
/// line's segments make up the line, as syntect documents for
/// `highlight_line`.
#[verifier::external_body]
fn highlight_ranges(assets: &SyntaxAssets, syntax: &str, theme: &str, lines: &Vec<String>) -> (r: Option<
    Vec<Option<Vec<(CellStyle, String)>>>,
>)
    ensures
        rows_view(r) == spec_highlight_ranges(syntax@, theme@, lines_view(lines@)),
        r matches Some(rows) ==> rows@.len() == lines@.len() && forall|i: int|
            0 <= i < rows@.len() ==> (#[trigger] rows@[i] matches Some(rs) ==> segments_text(segments_view(rs))
                == lines@[i]@),
{
    let t = &assets.themes.themes;
    let mut h = HighlightLines::new(assets.syntaxes.find_syntax_by_name(syntax)?, t.get(theme).or_else(|| t.values().next())?);
    Some(lines.iter().map(|l| h.highlight_line(l, &assets.syntaxes).ok().map(|r| r.into_iter().map(|(s, g)| (CellStyle {
        fg: Some(RgbColor { r: s.foreground.r, g: s.foreground.g, b: s.foreground.b }),
        bold: s.font_style.contains(FontStyle::BOLD),
        italic: s.font_style.contains(FontStyle::ITALIC),
        underlined: s.font_style.contains(FontStyle::UNDERLINE),
    }, g.to_string())).collect())).collect())
}

/// The bundled theme a background kind is highlighted with.
pub open spec fn spec_theme_name(kind: SyntaxThemeKind) -> Seq<char> {
    match kind {
        SyntaxThemeKind::Dark => "base16-ocean.dark"@,
        SyntaxThemeKind::Light => "InspiredGitHub"@,
    }
}

fn theme_name(kind: SyntaxThemeKind) -> (name: &'static str)
    ensures
        name@ == spec_theme_name(kind),
{
    match kind {
        SyntaxThemeKind::Dark => "base16-ocean.dark",
        SyntaxThemeKind::Light => "InspiredGitHub",
    }
}

/// One plain style per character of a line `n` characters long.
pub open spec fn plain_row(n: nat) -> Seq<CellStyle> {
    Seq::new(n, |i: int| plain_style())
}

/// One style per character of the segments: each segment's style repeated
/// over its characters.
pub open spec fn expand_segments(rs: Seq<(CellStyle, Seq<char>)>) -> Seq<CellStyle>
    decreases rs.len(),
{
    if rs.len() == 0 {
        Seq::empty()
    } else {
        expand_segments(rs.drop_last()) + Seq::new(rs.last().1.len(), |i: int| rs.last().0)
    }
}

proof fn lemma_expand_len(rs: Seq<(CellStyle, Seq<char>)>)
    ensures
        expand_segments(rs).len() == segments_text(rs).len(),
    decreases rs.len(),
{
    if rs.len() > 0 {
        lemma_expand_len(rs.drop_last());
    }
}

/// The styles of the lines: highlighted with the named syntax and the
/// theme of the background kind where both are bundled and a line
/// highlights, plain otherwise; one style per character.
pub open spec fn spec_line_styles(syntax: Option<Seq<char>>, kind: SyntaxThemeKind, lines: Seq<Seq<char>>) -> Seq<
    Seq<CellStyle>,
> {
    let highlighted = match syntax {
        Some(n) => spec_highlight_ranges(n, spec_theme_name(kind), lines),
        None => None,
    };
    Seq::new(
        lines.len(),
        |i: int|
            match highlighted {
                Some(rows) => match rows[i] {
                    Some(rs) => expand_segments(rs),
                    None => plain_row(lines[i].len()),
                },
                None => plain_row(lines[i].len()),
            },
    )
}

pub open spec fn styles_view(rows: Vec<Vec<CellStyle>>) -> Seq<Seq<CellStyle>> {
    rows@.map_values(|r: Vec<CellStyle>| r@)
}

fn plain_styles(line: &String) -> (row: Vec<CellStyle>)
    ensures
        row@ == plain_row(line@.len()),
{
    let n = line.as_str().unicode_len();
    let mut row: Vec<CellStyle> = Vec::new();
    while row.len() < n
        invariant
            row@.len() <= n,
            n == line@.len(),
            forall|k: int| 0 <= k < row@.len() ==> row@[k] == plain_style(),
        decreases n - row@.len(),
    {
        row.push(CellStyle { fg: None, bold: false, italic: false, underlined: false });
    }
    assert(row@ =~= plain_row(line@.len()));
    row
}

fn expand_row(rs: &Vec<(CellStyle, String)>) -> (row: Vec<CellStyle>)
    ensures
        row@ == expand_segments(segments_view(*rs)),
{
    let ghost all = segments_view(*rs);
    let mut row: Vec<CellStyle> = Vec::new();
    let mut i: usize = 0;
    while i < rs.len()
        invariant
            0 <= i <= rs@.len(),
            all == segments_view(*rs),
            row@ == expand_segments(all.take(i as int)),
        decreases rs@.len() - i,
    {
        let style = rs[i].0;
        let n = rs[i].1.as_str().unicode_len();
        let ghost before = row@;
        let mut k: usize = 0;
        while k < n
            invariant
                0 <= k <= n,
                row@ == before + Seq::new(k as nat, |j: int| style),
            decreases n - k,
        {
            row.push(style);
            k += 1;
            assert(row@ =~= before + Seq::new(k as nat, |j: int| style));
        }
        proof {
            assert(all.take(i + 1).drop_last() =~= all.take(i as int));
            assert(all.take(i + 1).last() == all[i as int]);
            assert(all[i as int] == (style, rs@[i as int].1@));
        }
        i += 1;
    }
    proof {
        assert(all.take(i as int) =~= all);
    }
    row
}

/// The styles of the lines, as `spec_line_styles` states them.
fn line_styles(assets: &SyntaxAssets, syntax: &Option<String>, kind: SyntaxThemeKind, lines: &Vec<String>) -> (rows: Vec<
    Vec<CellStyle>,
>)
    ensures
        styles_view(rows) == spec_line_styles(opt_string_view(*syntax), kind, lines_view(lines@)),
        rows@.len() == lines@.len(),
        forall|i: int| 0 <= i < rows@.len() ==> (#[trigger] rows@[i])@.len() == lines@[i]@.len(),
{
    let highlighted = match syntax {
        Some(name) => highlight_ranges(assets, name.as_str(), theme_name(kind), lines),
        None => None,
    };
    let ghost expected = spec_line_styles(opt_string_view(*syntax), kind, lines_view(lines@));
    let mut rows: Vec<Vec<CellStyle>> = Vec::new();
    let mut i: usize = 0;
    while i < lines.len()
        invariant
            0 <= i <= lines@.len(),
            expected == spec_line_styles(opt_string_view(*syntax), kind, lines_view(lines@)),
            rows_view(highlighted) == match opt_string_view(*syntax) {
                Some(n) => spec_highlight_ranges(n, spec_theme_name(kind), lines_view(lines@)),
                None => None,
            },
            highlighted matches Some(hs) ==> hs@.len() == lines@.len() && forall|j: int|
                0 <= j < hs@.len() ==> (#[trigger] hs@[j] matches Some(rs) ==> segments_text(segments_view(rs))
                    == lines@[j]@),
            rows@.len() == i,
            forall|j: int| 0 <= j < i ==> (#[trigger] rows@[j])@ == expected[j],
            forall|j: int| 0 <= j < i ==> (#[trigger] rows@[j])@.len() == lines@[j]@.len(),
        decreases lines@.len() - i,
    {
        let row = match &highlighted {
            Some(hs) => match &hs[i] {
                Some(rs) => {
                    proof {
                        lemma_expand_len(segments_view(*rs));
                    }
                    expand_row(rs)
                },
                None => plain_styles(&lines[i]),
            },
            None => plain_styles(&lines[i]),
        };
        assert(row@ == expected[i as int]);
        rows.push(row);
        i += 1;
    }
    assert(styles_view(rows) =~= expected);
    rows
}

/// The highlight of a request: its revision and fingerprint, the language
/// shown for it, and one row of styles per line.
pub struct SyntaxHighlight {
    pub revision: u64,
    pub fingerprint: u64,
    pub language_label: String,
    pub line_styles: Vec<Vec<CellStyle>>,
}

/// Highlights a request: the syntax is chosen as `detect_syntax` chooses it
/// (the content heuristics of `rules` only where no earlier step decides),
/// and the lines are styled with it and the theme of the request's
/// background kind. `None` where the syntax cannot be chosen.
pub fn highlight_request(assets: &SyntaxAssets, rules: &Vec<Vec<ContentRule>>, request: &SyntaxRequest) -> (h: Option<
    SyntaxHighlight,
>)
    ensures
        match spec_detected_choice(rules@, request) {
            Some(c) => {
                &&& h is Some
                &&& h->0.revision == request.revision
                &&& h->0.fingerprint == spec_fingerprint(request@)
                &&& h->0.language_label@ == c.1
                &&& styles_view(h->0.line_styles) == spec_line_styles(c.0, request.theme_kind, lines_view(request.lines@))
                &&& h->0.line_styles@.len() == request.lines@.len()
                &&& forall|i: int|
                    0 <= i < request.lines@.len() ==> (#[trigger] h->0.line_styles@[i])@.len()
                        == request.lines@[i]@.len()
            },
            None => h is None,
        },
{
    match detect_syntax(assets, rules, request) {
        Some(choice) => {
            let line_styles = line_styles(assets, &choice.syntax, request.theme_kind, &request.lines);
            Some(SyntaxHighlight {
                revision: request.revision,
                fingerprint: request.fingerprint(),
                language_label: choice.label,
                line_styles,
            })
        },
        None => None,
    }
}

} // verus!
