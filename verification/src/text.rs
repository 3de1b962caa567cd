use vstd::prelude::*;

verus! {

/// Unicode `White_Space`, the property that `char::is_whitespace` tests.
pub open spec fn spec_is_whitespace(c: char) -> bool {
    let v = c as u32;
    (0x9 <= v && v <= 0xd) || v == 0x20 || v == 0x85 || v == 0xa0 || v == 0x1680 || (0x2000 <= v
        && v <= 0x200a) || v == 0x2028 || v == 0x2029 || v == 0x202f || v == 0x205f || v == 0x3000
}

/// Whether `c` is Unicode whitespace.
pub fn is_whitespace(c: char) -> (b: bool)
    ensures
        b == spec_is_whitespace(c),
{
    let v = c as u32;
    (0x9 <= v && v <= 0xd) || v == 0x20 || v == 0x85 || v == 0xa0 || v == 0x1680 || (0x2000 <= v
        && v <= 0x200a) || v == 0x2028 || v == 0x2029 || v == 0x202f || v == 0x205f || v == 0x3000
}

/// The characters of `s`.
pub fn chars_of(s: &str) -> (v: Vec<char>)
    ensures
        v@ == s@,
{
    let mut v: Vec<char> = Vec::new();
    for c in it: s.chars()
        invariant
            v@ == it.seq().take(it.index() as int),
            it.seq() == s@,
    {
        v.push(c);
    }
    proof {
        assert(v@ =~= s@);
    }
    v
}

/// A `String` holding the characters of `chars`, as collecting a character
/// iterator into a `String` (std's `FromIterator<char>`) is documented to do.
#[verifier::external_body]
pub(crate) fn string_from_chars(chars: &Vec<char>) -> (s: String)
    ensures
        s@ == chars@,
{
    chars.iter().collect()
}


/// `line` without one trailing carriage return.
pub open spec fn strip_cr(line: Seq<char>) -> Seq<char> {
    if line.len() > 0 && line.last() == '\r' {
        line.drop_last()
    } else {
        line
    }
}

/// The lines of `s` as `str::lines` yields them, given the characters `cur`
/// of the line read so far: split at `\n`, one `\r` before a `\n` dropped,
/// and no empty line after a final `\n`.
pub open spec fn lines_from(s: Seq<char>, cur: Seq<char>) -> Seq<Seq<char>>
    decreases s.len(),
{
    if s.len() == 0 {
        if cur.len() == 0 {
            Seq::empty()
        } else {
            seq![cur]
        }
    } else if s[0] == '\n' {
        seq![strip_cr(cur)] + lines_from(s.drop_first(), Seq::empty())
    } else {
        lines_from(s.drop_first(), cur.push(s[0]))
    }
}

/// The lines of `s`, as `str::lines` splits them.
pub open spec fn str_lines(s: Seq<char>) -> Seq<Seq<char>> {
    lines_from(s, Seq::empty())
}

/// Pushing onto a vector of lines pushes the line's characters onto its view.
pub proof fn lemma_deep_view_push(before: Vec<Vec<char>>, after: Vec<Vec<char>>, x: Vec<char>)
    requires
        after@ == before@.push(x),
    ensures
        after.deep_view() == before.deep_view().push(x@),
{
    assert forall|i: int| 0 <= i < after@.len() implies after.deep_view()[i] == before.deep_view().push(x@)[i] by {
        if i < before@.len() {
            assert(after@[i] == before@[i]);
        }
    }
    assert(after.deep_view() =~= before.deep_view().push(x@));
}

/// Splits `s` into lines as `str::lines` does.
pub fn split_lines(s: &str) -> (lines: Vec<Vec<char>>)
    ensures
        lines.deep_view() == str_lines(s@),
{
    let chars = chars_of(s);
    let mut lines: Vec<Vec<char>> = Vec::new();
    let mut cur: Vec<char> = Vec::new();
    let mut i: usize = 0;
    proof {
        assert(lines.deep_view() =~= Seq::<Seq<char>>::empty());
        assert(chars@.skip(0) =~= chars@);
        assert(cur@ =~= Seq::<char>::empty());
    }
    while i < chars.len()
        invariant
            0 <= i <= chars@.len(),
            chars@ == s@,
            lines.deep_view() + lines_from(chars@.skip(i as int), cur@) == str_lines(s@),
        decreases chars@.len() - i,
    {
        let c = chars[i];
        let ghost rest = chars@.skip(i as int);
        assert(rest[0] == c);
        assert(rest.drop_first() =~= chars@.skip(i + 1));
        if c == '\n' {
            let ghost before = lines.deep_view();
            let ghost before_v = lines;
            if cur.len() > 0 && cur[cur.len() - 1] == '\r' {
                cur.pop();
            }
            let mut line: Vec<char> = Vec::new();
            std::mem::swap(&mut line, &mut cur);
            lines.push(line);
            proof {
                lemma_deep_view_push(before_v, lines, line);
                assert(lines.deep_view() =~= before.push(line@));
                assert(lines.deep_view() + lines_from(chars@.skip(i + 1), cur@) =~= before + (seq![line@] + lines_from(chars@.skip(i + 1), Seq::empty())));
            }
        } else {
            cur.push(c);
        }
        i += 1;
    }
    proof {
        assert(chars@.skip(i as int).len() == 0);
    }
    if cur.len() > 0 {
        let ghost before = lines.deep_view();
        let ghost before_v = lines;
        let ghost last = cur;
        lines.push(cur);
        proof {
            lemma_deep_view_push(before_v, lines, last);
            assert(lines.deep_view() =~= before + seq![last@]);
        }
    } else {
        proof {
            assert(lines.deep_view() =~= lines.deep_view() + Seq::<Seq<char>>::empty());
        }
    }
    lines
}

/// The lines joined with a newline between each two.
pub open spec fn join_newline(lines: Seq<Seq<char>>) -> Seq<char>
    decreases lines.len(),
{
    if lines.len() == 0 {
        Seq::empty()
    } else if lines.len() == 1 {
        lines[0]
    } else {
        join_newline(lines.drop_last()) + seq!['\n'] + lines.last()
    }
}

/// The ASCII digit for `d` (0 to 9).
pub open spec fn digit_char(d: int) -> char {
    if d == 0 { '0' } else if d == 1 { '1' } else if d == 2 { '2' } else if d == 3 { '3' } else if d
        == 4 { '4' } else if d == 5 { '5' } else if d == 6 { '6' } else if d == 7 { '7' } else if d
        == 8 { '8' } else { '9' }
}

fn digit_char_exec(d: u64) -> (c: char)
    requires
        d < 10,
    ensures
        c == digit_char(d as int),
{
    if d == 0 { '0' } else if d == 1 { '1' } else if d == 2 { '2' } else if d == 3 { '3' } else if d
        == 4 { '4' } else if d == 5 { '5' } else if d == 6 { '6' } else if d == 7 { '7' } else if d
        == 8 { '8' } else { '9' }
}

/// The decimal digits of `n`.
pub open spec fn decimal_digits(n: nat) -> Seq<char>
    decreases n,
{
    if n < 10 {
        seq![digit_char(n as int)]
    } else {
        decimal_digits(n / 10).push(digit_char((n % 10) as int))
    }
}

/// `n` written in decimal, with a leading `-` when negative.
pub open spec fn decimal_text(n: int) -> Seq<char> {
    if n < 0 {
        seq!['-'] + decimal_digits((-n) as nat)
    } else {
        decimal_digits(n as nat)
    }
}

/// Appends `n` written in decimal to `out`.
pub fn push_decimal_text(out: &mut Vec<char>, n: i64)
    requires
        n > i64::MIN,
    ensures
        final(out)@ == old(out)@ + decimal_text(n as int),
{
    let mut q: u64 = if n < 0 { (-n) as u64 } else { n as u64 };
    let ghost whole = q as nat;
    let mut low: Vec<char> = Vec::new();
    while q >= 10
        invariant
            decimal_digits(whole) == decimal_digits(q as nat) + low@,
        decreases q,
    {
        let d = q % 10;
        let c = digit_char_exec(d);
        let ghost before = low@;
        low.insert(0, c);
        proof {
            assert(decimal_digits(q as nat) == decimal_digits((q / 10) as nat).push(c));
            assert(low@ =~= seq![c] + before);
            assert(decimal_digits((q / 10) as nat).push(c) + before =~= decimal_digits((q / 10) as nat) + low@);
        }
        q = q / 10;
    }
    if n < 0 {
        out.push('-');
    }
    let first = digit_char_exec(q);
    out.push(first);
    let mut i: usize = 0;
    let ghost mid = out@;
    while i < low.len()
        invariant
            0 <= i <= low@.len(),
            out@ == mid + low@.take(i as int),
        decreases low@.len() - i,
    {
        out.push(low[i]);
        i += 1;
        assert(out@ =~= mid + low@.take(i as int));
    }
    proof {
        assert(low@.take(i as int) =~= low@);
        assert(decimal_digits(q as nat) == seq![first]);
        if n < 0 {
            assert(out@ =~= old(out)@ + (seq!['-'] + decimal_digits(whole)));
        } else {
            assert(out@ =~= old(out)@ + decimal_digits(whole));
        }
    }
}

/// The columns a character takes on a terminal, as unicode-width reports it.
pub uninterp spec fn spec_char_width(c: char) -> Option<usize>;

/// Calls `unicode_width::UnicodeWidthChar::width`. Trusted: the result is
/// unicode-width's table value, named by `spec_char_width`; its source gives
/// printable ASCII one column, control characters (below U+0020, and U+007F
/// up to U+00A0) no width, and every character from U+00A0 on a width read
/// from a table of `u8` values.
#[verifier::external_body]
pub(crate) fn char_width(c: char) -> (w: Option<usize>)
    ensures
        w == spec_char_width(c),
        0x20 <= c as u32 && (c as u32) < 0x7f ==> w == Some(1usize),
        ((c as u32) < 0x20 || (0x7f <= c as u32 && (c as u32) < 0xa0)) ==> w is None,
        0xa0 <= c as u32 ==> w is Some,
        w matches Some(n) ==> n <= 255,
{
    unicode_width::UnicodeWidthChar::width(c)
}

/// The columns a run of characters takes (control characters take none).
pub open spec fn display_width(chars: Seq<char>) -> int
    decreases chars.len(),
{
    if chars.len() == 0 {
        0
    } else {
        display_width(chars.drop_last()) + match spec_char_width(chars.last()) {
            Some(w) => w as int,
            None => 0,
        }
    }
}

/// A run of characters is at least as wide as any of its prefixes.
pub proof fn lemma_display_width_prefix(chars: Seq<char>, k: int)
    requires
        0 <= k <= chars.len(),
    ensures
        display_width(chars.take(k)) <= display_width(chars),
        display_width(chars) >= 0,
    decreases chars.len(),
{
    if chars.len() > 0 {
        if k == chars.len() {
            assert(chars.take(k) =~= chars);
            lemma_display_width_prefix(chars.drop_last(), 0);
        } else {
            assert(chars.drop_last().take(k) =~= chars.take(k));
            lemma_display_width_prefix(chars.drop_last(), k);
        }
    } else {
        assert(chars.take(k) =~= chars);
    }
}

} // verus!
