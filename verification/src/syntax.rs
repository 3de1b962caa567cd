use crate::text::{chars_of, is_whitespace, join_newline, spec_is_whitespace, string_from_chars};
use crate::textbox::TextBoxLanguage;
use std::hash::{Hash, Hasher};
use vstd::std_specs::hash::DefaultHasherAdditionalSpecFns;
use vstd::prelude::*;

verus! {

/// Whether highlighting is for a dark or a light background.
#[derive(Clone, Copy, Debug, PartialEq, Eq, Structural, Hash)]
pub enum SyntaxThemeKind {
    Dark,
    Light,
}

/// Everything highlighting a textbox depends on.
#[derive(Clone, Debug)]
pub struct SyntaxRequest {
    pub revision: u64,
    pub theme_kind: SyntaxThemeKind,
    pub title: String,
    pub path_hint: Option<String>,
    pub language: TextBoxLanguage,
    pub lines: Vec<String>,
}

/// A request as values.
pub struct SyntaxRequestView {
    pub revision: u64,
    pub theme_kind: SyntaxThemeKind,
    pub title: Seq<char>,
    pub path_hint: Option<Seq<char>>,
    pub language: TextBoxLanguage,
    pub lines: Seq<Seq<char>>,
}

impl View for SyntaxRequest {
    type V = SyntaxRequestView;

    open spec fn view(&self) -> SyntaxRequestView {
        SyntaxRequestView {
            revision: self.revision,
            theme_kind: self.theme_kind,
            title: self.title@,
            path_hint: opt_string_view(self.path_hint),
            language: self.language,
            lines: lines_view(self.lines@),
        }
    }
}

/// The text of each line.
pub open spec fn lines_view(lines: Seq<String>) -> Seq<Seq<char>> {
    lines.map_values(|l: String| l@)
}

/// Whether `s` is empty once surrounding whitespace is trimmed.
pub open spec fn spec_is_blank(s: Seq<char>) -> bool {
    forall|i: int| 0 <= i < s.len() ==> spec_is_whitespace(#[trigger] s[i])
}

/// Whether `s` is empty once surrounding whitespace is trimmed.
pub fn is_blank(s: &str) -> (b: bool)
    ensures
        b == spec_is_blank(s@),
{
    let chars = chars_of(s);
    let mut i: usize = 0;
    while i < chars.len()
        invariant
            0 <= i <= chars@.len(),
            chars@ == s@,
            forall|j: int| 0 <= j < i ==> spec_is_whitespace(#[trigger] chars@[j]),
        decreases chars@.len() - i,
    {
        if !is_whitespace(chars[i]) {
            return false;
        }
        i += 1;
    }
    true
}

/// A title that names a file: it holds a dot or a path separator.
pub open spec fn spec_looks_like_filename(s: Seq<char>) -> bool {
    s.contains('.') || s.contains('/') || s.contains('\\')
}

/// A title that names a file: it holds a dot or a path separator.
pub fn looks_like_filename(value: &str) -> (b: bool)
    ensures
        b == spec_looks_like_filename(value@),
{
    let chars = chars_of(value);
    let mut i: usize = 0;
    while i < chars.len()
        invariant
            0 <= i <= chars@.len(),
            chars@ == value@,
            forall|j: int| 0 <= j < i ==> chars@[j] != '.' && chars@[j] != '/' && chars@[j] != '\\',
        decreases chars@.len() - i,
    {
        let c = chars[i];
        if c == '.' || c == '/' || c == '\\' {
            assert(chars@[i as int] == c);
            return true;
        }
        i += 1;
    }
    proof {
        assert(!value@.contains('.'));
        assert(!value@.contains('/'));
        assert(!value@.contains('\\'));
    }
    false
}

/// `content` without a leading byte-order mark.
pub open spec fn spec_strip_utf8_bom(content: Seq<char>) -> Seq<char> {
    if content.len() > 0 && content[0] == '\u{FEFF}' {
        content.drop_first()
    } else {
        content
    }
}

/// `content` without a leading byte-order mark.
pub fn strip_utf8_bom(content: &str) -> (s: &str)
    ensures
        s@ == spec_strip_utf8_bom(content@),
{
    let n = content.unicode_len();
    if n > 0 && content.get_char(0) == '\u{FEFF}' {
        let rest = content.substring_char(1, n);
        assert(rest@ =~= content@.drop_first());
        rest
    } else {
        content
    }
}

/// The names a file can be recognised by from its extensions: everything
/// after each dot of the name, as long as something follows the dot.
pub open spec fn dot_suffixes(name: Seq<char>, i: int) -> Seq<Seq<char>>
    decreases name.len() - i,
{
    if i < 0 || i >= name.len() {
        Seq::empty()
    } else if name[i] == '.' && i + 1 < name.len() {
        seq![name.subrange(i + 1, name.len() as int)] + dot_suffixes(name, i + 1)
    } else {
        dot_suffixes(name, i + 1)
    }
}

/// The last component of a path, as `std::path::Path::file_name` yields it.
pub uninterp spec fn spec_file_name(path: Seq<char>) -> Option<Seq<char>>;

/// Calls `std::path::Path::file_name` (and `OsStr::to_str`). Trusted: the
/// result is the path's last component as std computes it, named by
/// `spec_file_name`.
#[verifier::external_body]
fn path_file_name(path: &str) -> (name: Option<String>)
    ensures
        match name {
            Some(n) => spec_file_name(path@) == Some(n@),
            None => spec_file_name(path@) is None,
        },
{
    std::path::Path::new(path).file_name().and_then(|n| n.to_str()).map(|n| n.to_string())
}

/// The file name a hint stands for: its last path component, or the whole
/// hint when it has none.
pub open spec fn hint_file_name(hint: Seq<char>) -> Seq<char> {
    match spec_file_name(hint) {
        Some(n) => n,
        None => hint,
    }
}

/// The extension tokens of a file name hint, longest first: for
/// `archive.tar.gz`, `tar.gz` then `gz`.
pub open spec fn spec_extension_tokens(hint: Seq<char>) -> Seq<Seq<char>> {
    dot_suffixes(hint_file_name(hint), 0)
}

/// The extension tokens of a file name hint, longest first.
pub fn extension_tokens(hint: &str) -> (tokens: Vec<String>)
    ensures
        tokens@.map_values(|t: String| t@) == spec_extension_tokens(hint@),
{
    let name = match path_file_name(hint) {
        Some(n) => n,
        None => {
            let c = chars_of(hint);
            string_from_chars(&c)
        },
    };
    let chars = chars_of(name.as_str());
    let ghost full = dot_suffixes(chars@, 0);
    let mut tokens: Vec<String> = Vec::new();
    let mut i: usize = 0;
    proof {
        assert(tokens@.map_values(|t: String| t@) + dot_suffixes(chars@, 0) =~= full);
    }
    while i < chars.len()
        invariant
            0 <= i <= chars@.len(),
            full == dot_suffixes(chars@, 0),
            tokens@.map_values(|t: String| t@) + dot_suffixes(chars@, i as int) == full,
        decreases chars@.len() - i,
    {
        if chars[i] == '.' && i + 1 < chars.len() {
            let mut rest: Vec<char> = Vec::new();
            let mut j: usize = i + 1;
            while j < chars.len()
                invariant
                    i + 1 <= j <= chars@.len(),
                    rest@ == chars@.subrange(i + 1, j as int),
                decreases chars@.len() - j,
            {
                rest.push(chars[j]);
                j += 1;
                assert(rest@ =~= chars@.subrange(i + 1, j as int));
            }
            let token = string_from_chars(&rest);
            let ghost before = tokens@;
            tokens.push(token);
            proof {
                assert(tokens@.map_values(|t: String| t@) =~= before.map_values(|t: String| t@).push(token@));
                assert(tokens@.map_values(|t: String| t@) + dot_suffixes(chars@, i + 1) =~= full);
            }
        }
        i += 1;
    }
    proof {
        assert(dot_suffixes(chars@, i as int) =~= Seq::<Seq<char>>::empty());
        assert(tokens@.map_values(|t: String| t@) =~= full);
    }
    tokens
}

/// Where the path hint or the title says what kind of file a request holds:
/// a non-blank path hint, else a non-blank title that looks like a file name.
pub open spec fn spec_detection_hint(path_hint: Option<Seq<char>>, title: Seq<char>) -> Option<Seq<char>> {
    match path_hint {
        Some(h) if !spec_is_blank(h) => Some(h),
        _ => if !spec_is_blank(title) && spec_looks_like_filename(title) {
            Some(title)
        } else {
            None
        },
    }
}

/// The path hint as text.
pub open spec fn opt_string_view(s: Option<String>) -> Option<Seq<char>> {
    match s {
        Some(t) => Some(t@),
        None => None,
    }
}

/// The writes that hashing a request's fields, in order, with
/// `std::hash::Hash::hash` makes into a hasher. They depend on the fields
/// alone, and on the build's word size and byte order, which are fixed for a
/// given build.
pub uninterp spec fn spec_request_hash_writes(
    revision: u64,
    theme_kind: SyntaxThemeKind,
    title: Seq<char>,
    path_hint: Option<Seq<char>>,
    language: TextBoxLanguage,
    lines: Seq<Seq<char>>,
) -> Seq<Seq<u8>>;

/// What hashing a request's fields writes into a hasher.
pub open spec fn request_hash_writes(r: SyntaxRequestView) -> Seq<Seq<u8>> {
    spec_request_hash_writes(r.revision, r.theme_kind, r.title, r.path_hint, r.language, r.lines)
}

/// The fingerprint of a request: std's default hasher, as `new` makes it,
/// finished after the request's fields were written into it.
pub open spec fn spec_fingerprint(r: SyntaxRequestView) -> u64 {
    std::collections::hash_map::DefaultHasher::spec_finish(request_hash_writes(r))
}

/// Feeds every field of a request, in order, to `hasher` through
/// `std::hash::Hash::hash`. Trusted: the hasher's writes grow by what the
/// fields write, which is named by `spec_request_hash_writes` over the
/// fields' values.
#[verifier::external_body]
fn hash_fields(request: &SyntaxRequest, hasher: &mut std::collections::hash_map::DefaultHasher)
    ensures
        final(hasher)@ == old(hasher)@ + spec_request_hash_writes(
            request.revision,
            request.theme_kind,
            request.title@,
            opt_string_view(request.path_hint),
            request.language,
            lines_view(request.lines@),
        ),
{
    (&request.revision, &request.theme_kind, &request.title, &request.path_hint, &request.language, &request.lines).hash(hasher)
}

impl SyntaxRequest {
    /// A hash of every field with std's default hasher, used to tell
    /// requests apart: equal fields give equal fingerprints.
    pub fn fingerprint(&self) -> (h: u64)
        ensures
            h == spec_fingerprint(self@),
    {
        let mut hasher = std::collections::hash_map::DefaultHasher::new();
        hash_fields(self, &mut hasher);
        assert(hasher@ =~= request_hash_writes(self@));
        hasher.finish()
    }

    /// A copy of the request, field by field.
    pub fn duplicate(&self) -> (r: SyntaxRequest)
        ensures
            r@ == self@,
    {
        let path_hint = match &self.path_hint {
            Some(h) => Some(h.clone()),
            None => None,
        };
        let mut lines: Vec<String> = Vec::new();
        let mut i: usize = 0;
        while i < self.lines.len()
            invariant
                0 <= i <= self.lines@.len(),
                lines@.len() == i,
                forall|j: int| 0 <= j < i ==> #[trigger] lines@[j]@ == self.lines@[j]@,
            decreases self.lines@.len() - i,
        {
            lines.push(self.lines[i].clone());
            i += 1;
        }
        assert(lines_view(lines@) =~= lines_view(self.lines@));
        SyntaxRequest {
            revision: self.revision,
            theme_kind: self.theme_kind,
            title: self.title.clone(),
            path_hint,
            language: self.language,
            lines,
        }
    }

    /// The lines joined with newlines.
    pub fn joined_text(&self) -> (s: String)
        ensures
            s@ == join_newline(lines_view(self.lines@)),
    {
        let ghost all = lines_view(self.lines@);
        let mut out: Vec<char> = Vec::new();
        let mut i: usize = 0;
        while i < self.lines.len()
            invariant
                0 <= i <= self.lines@.len(),
                all == lines_view(self.lines@),
                out@ == join_newline(all.take(i as int)),
            decreases self.lines@.len() - i,
        {
            let ghost prev = out@;
            if i > 0 {
                out.push('\n');
            }
            let line = chars_of(self.lines[i].as_str());
            let mut j: usize = 0;
            let ghost mid = out@;
            while j < line.len()
                invariant
                    0 <= j <= line@.len(),
                    out@ == mid + line@.take(j as int),
                decreases line@.len() - j,
            {
                out.push(line[j]);
                j += 1;
                assert(out@ =~= mid + line@.take(j as int));
            }
            proof {
                assert(line@.take(j as int) =~= line@);
                let t = all.take(i + 1);
                assert(t.drop_last() =~= all.take(i as int));
                assert(t.last() == line@);
                if i == 0 {
                    assert(out@ =~= t[0]);
                } else {
                    assert(out@ =~= prev + seq!['\n'] + t.last());
                }
            }
            i += 1;
        }
        proof {
            assert(all.take(i as int) =~= all);
        }
        string_from_chars(&out)
    }

    /// What the request says about its file type: a non-blank path hint, or
    /// a title that looks like a file name.
    pub fn detection_hint(&self) -> (h: Option<&str>)
        ensures
            match h {
                Some(s) => spec_detection_hint(opt_string_view(self.path_hint), self.title@) == Some(s@),
                None => spec_detection_hint(opt_string_view(self.path_hint), self.title@) is None,
            },
    {
        if let Some(hint) = &self.path_hint {
            if !is_blank(hint.as_str()) {
                return Some(hint.as_str());
            }
        }
        if !is_blank(self.title.as_str()) && looks_like_filename(self.title.as_str()) {
            Some(self.title.as_str())
        } else {
            None
        }
    }
}


/// What the background highlighter remembers between requests: the latest
/// request and its fingerprint, a generation counter that lets only the
/// newest scheduled run proceed, the fingerprint being highlighted, and the
/// fingerprint of the latest finished highlight.
pub struct SyntaxWorkerState {
    latest_request: Option<SyntaxRequest>,
    latest_fingerprint: Option<u64>,
    generation: u64,
    in_flight_fingerprint: Option<u64>,
    snapshot_fingerprint: Option<u64>,
}

/// The scheduling state, as values.
pub struct SyntaxWorkerView {
    pub latest_fingerprint: Option<u64>,
    pub latest_request: Option<SyntaxRequestView>,
    pub generation: u64,
    pub in_flight_fingerprint: Option<u64>,
    pub snapshot_fingerprint: Option<u64>,
}

impl View for SyntaxWorkerState {
    type V = SyntaxWorkerView;

    closed spec fn view(&self) -> SyntaxWorkerView {
        SyntaxWorkerView {
            latest_fingerprint: self.latest_fingerprint,
            latest_request: match self.latest_request {
                Some(r) => Some(r@),
                None => None,
            },
            generation: self.generation,
            in_flight_fingerprint: self.in_flight_fingerprint,
            snapshot_fingerprint: self.snapshot_fingerprint,
        }
    }
}

impl SyntaxWorkerState {
    /// The latest request and its fingerprint are known together.
    pub closed spec fn wf(&self) -> bool {
        (self.latest_request is Some) == (self.latest_fingerprint is Some)
    }
}

/// An idle worker.
pub fn new_syntax_worker_state() -> (w: SyntaxWorkerState)
    ensures
        w.wf(),
        w@ == (SyntaxWorkerView {
            latest_fingerprint: None,
            latest_request: None,
            generation: 0,
            in_flight_fingerprint: None,
            snapshot_fingerprint: None,
        }),
{
    SyntaxWorkerState {
        latest_request: None,
        latest_fingerprint: None,
        generation: 0,
        in_flight_fingerprint: None,
        snapshot_fingerprint: None,
    }
}

/// Whether a request with fingerprint `f` adds nothing: it is being
/// highlighted, was the latest one highlighted, or is already pending.
pub open spec fn is_known(v: SyntaxWorkerView, f: u64) -> bool {
    v.in_flight_fingerprint == Some(f) || v.snapshot_fingerprint == Some(f) || v.latest_fingerprint == Some(f)
}

/// Scheduling `request` with fingerprint `f`: ignored when known, otherwise
/// it becomes the latest request under a new generation.
pub open spec fn spec_schedule(v: SyntaxWorkerView, request: SyntaxRequestView, f: u64) -> (Option<u64>, SyntaxWorkerView) {
    if is_known(v, f) {
        (None, v)
    } else {
        (
            Some((v.generation + 1) as u64),
            SyntaxWorkerView {
                latest_fingerprint: Some(f),
                latest_request: Some(request),
                generation: (v.generation + 1) as u64,
                ..v
            },
        )
    }
}

/// Starting generation `g`: the fingerprint to highlight, if the run goes
/// ahead.
pub open spec fn spec_begin(v: SyntaxWorkerView, g: u64) -> (Option<u64>, SyntaxWorkerView) {
    match v.latest_fingerprint {
        Some(f) => if g == v.generation && v.in_flight_fingerprint != Some(f) && v.snapshot_fingerprint != Some(f) {
            (Some(f), SyntaxWorkerView { in_flight_fingerprint: Some(f), ..v })
        } else {
            (None, v)
        },
        None => (None, v),
    }
}

/// Finishing the run for `f`: whether its result is kept.
pub open spec fn spec_finish(v: SyntaxWorkerView, f: u64) -> (bool, SyntaxWorkerView) {
    let keep = v.latest_fingerprint == Some(f);
    (keep, SyntaxWorkerView {
        in_flight_fingerprint: if v.in_flight_fingerprint == Some(f) { None } else { v.in_flight_fingerprint },
        snapshot_fingerprint: if keep { Some(f) } else { v.snapshot_fingerprint },
        ..v
    })
}

impl SyntaxWorkerState {
    /// The generation of the latest scheduled request.
    pub fn generation(&self) -> (g: u64)
        ensures
            g == self@.generation,
    {
        self.generation
    }

    /// Takes a new request with fingerprint `fingerprint`; the generation to
    /// run after the debounce delay, or `None` when the request adds nothing.
    pub fn schedule(&mut self, request: SyntaxRequest, fingerprint: u64) -> (generation: Option<u64>)
        requires
            old(self).wf(),
            old(self)@.generation < u64::MAX,
        ensures
            final(self).wf(),
            (generation, final(self)@) == spec_schedule(old(self)@, request@, fingerprint),
    {
        if self.in_flight_fingerprint == Some(fingerprint) || self.snapshot_fingerprint == Some(fingerprint)
            || self.latest_fingerprint == Some(fingerprint) {
            return None;
        }
        self.latest_request = Some(request);
        self.latest_fingerprint = Some(fingerprint);
        self.generation = self.generation + 1;
        Some(self.generation)
    }

    /// Starts the run scheduled as `generation`: the request to highlight and
    /// its fingerprint, unless a newer request came in, there is none, or its
    /// highlight is under way or done.
    pub fn begin(&mut self, generation: u64) -> (job: Option<(SyntaxRequest, u64)>)
        requires
            old(self).wf(),
        ensures
            final(self).wf(),
            final(self)@ == spec_begin(old(self)@, generation).1,
            match job {
                Some((r, f)) => spec_begin(old(self)@, generation).0 == Some(f) && old(self)@.latest_request
                    == Some(r@),
                None => spec_begin(old(self)@, generation).0 is None,
            },
    {
        if generation != self.generation {
            return None;
        }
        let f = match self.latest_fingerprint {
            Some(f) => f,
            None => return None,
        };
        if self.in_flight_fingerprint == Some(f) || self.snapshot_fingerprint == Some(f) {
            return None;
        }
        match &self.latest_request {
            Some(r) => {
                let request = r.duplicate();
                self.in_flight_fingerprint = Some(f);
                Some((request, f))
            },
            None => None,
        }
    }

    /// Ends the run for `fingerprint`; whether its result is to be kept as the
    /// latest highlight (it is, unless a newer request replaced it).
    pub fn finish(&mut self, fingerprint: u64) -> (keep: bool)
        requires
            old(self).wf(),
        ensures
            final(self).wf(),
            (keep, final(self)@) == spec_finish(old(self)@, fingerprint),
    {
        if self.in_flight_fingerprint == Some(fingerprint) {
            self.in_flight_fingerprint = None;
        }
        let keep = self.latest_fingerprint == Some(fingerprint);
        if keep {
            self.snapshot_fingerprint = Some(fingerprint);
        }
        keep
    }
}

/// A new request, once scheduled, is the one its generation starts
/// highlighting (when no other request came in between).
pub proof fn law_schedule_then_begin_starts_request(v: SyntaxWorkerView, request: SyntaxRequestView, f: u64)
    requires
        !is_known(v, f),
        v.generation < u64::MAX,
    ensures
        ({
            let (g, w) = spec_schedule(v, request, f);
            g is Some && spec_begin(w, g->0).0 == Some(f) && w.latest_request == Some(request)
        }),
{
}

/// Requests with equal fields have equal fingerprints, so a request that is
/// scheduled again while known is recognised.
pub proof fn law_equal_requests_share_fingerprint(a: SyntaxRequestView, b: SyntaxRequestView, v: SyntaxWorkerView)
    requires
        a == b,
        is_known(v, spec_fingerprint(a)),
    ensures
        spec_fingerprint(a) == spec_fingerprint(b),
        spec_schedule(v, b, spec_fingerprint(b)) == (None::<u64>, v),
{
}

/// Only the newest scheduled generation starts.
pub proof fn law_stale_generation_does_not_start(v: SyntaxWorkerView, g: u64)
    requires
        g != v.generation,
    ensures
        spec_begin(v, g) == (None::<u64>, v),
{
}

/// Once the highlight of the latest request is kept, scheduling the same
/// request again does nothing.
pub proof fn law_finished_request_is_not_rescheduled(v: SyntaxWorkerView, request: SyntaxRequestView, f: u64)
    requires
        v.latest_fingerprint == Some(f),
    ensures
        ({
            let (keep, w) = spec_finish(v, f);
            keep && spec_schedule(w, request, f) == (None::<u64>, w)
        }),
{
}

} // verus!
