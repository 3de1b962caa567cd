use crate::events::{KeyCode, KeyModifiers};
use crate::text::{chars_of, decimal_text, push_decimal_text};
use vstd::prelude::*;

verus! {

/// Appends the characters of `s` to `out`.
pub(crate) fn push_text(out: &mut Vec<char>, s: &str)
    ensures
        final(out)@ == old(out)@ + s@,
{
    let chars = chars_of(s);
    let ghost start = out@;
    let mut i: usize = 0;
    while i < chars.len()
        invariant
            0 <= i <= chars@.len(),
            chars@ == s@,
            out@ == start + chars@.take(i as int),
        decreases chars@.len() - i,
    {
        out.push(chars[i]);
        i += 1;
        assert(out@ =~= start + chars@.take(i as int));
    }
    assert(chars@.take(i as int) =~= chars@);
}

/// How the footer names a key: a character in quotes, a function key with
/// its number, any other key by its name.
pub open spec fn spec_key_name(code: KeyCode) -> Seq<char> {
    match code {
        KeyCode::Char(c) => seq!['\''] + seq![c] + seq!['\''],
        KeyCode::F(n) => "F("@ + decimal_text(n as int) + ")"@,
        KeyCode::Backspace => "Backspace"@,
        KeyCode::Enter => "Enter"@,
        KeyCode::Left => "Left"@,
        KeyCode::Right => "Right"@,
        KeyCode::Up => "Up"@,
        KeyCode::Down => "Down"@,
        KeyCode::Home => "Home"@,
        KeyCode::End => "End"@,
        KeyCode::PageUp => "PageUp"@,
        KeyCode::PageDown => "PageDown"@,
        KeyCode::Tab => "Tab"@,
        KeyCode::BackTab => "BackTab"@,
        KeyCode::Delete => "Delete"@,
        KeyCode::Insert => "Insert"@,
        KeyCode::Null => "Null"@,
        KeyCode::Esc => "Esc"@,
        KeyCode::CapsLock => "CapsLock"@,
        KeyCode::ScrollLock => "ScrollLock"@,
        KeyCode::NumLock => "NumLock"@,
        KeyCode::PrintScreen => "PrintScreen"@,
        KeyCode::Pause => "Pause"@,
        KeyCode::Menu => "Menu"@,
        KeyCode::KeypadBegin => "KeypadBegin"@,
        KeyCode::Media => "Media"@,
        KeyCode::Modifier => "Modifier"@,
    }
}

pub(crate) fn push_key_name(out: &mut Vec<char>, code: KeyCode)
    ensures
        final(out)@ == old(out)@ + spec_key_name(code),
{
    match code {
        KeyCode::Char(c) => {
            out.push('\'');
            out.push(c);
            out.push('\'');
        },
        KeyCode::F(n) => {
            push_text(out, "F(");
            push_decimal_text(out, n as i64);
            push_text(out, ")");
        },
        KeyCode::Backspace => push_text(out, "Backspace"),
        KeyCode::Enter => push_text(out, "Enter"),
        KeyCode::Left => push_text(out, "Left"),
        KeyCode::Right => push_text(out, "Right"),
        KeyCode::Up => push_text(out, "Up"),
        KeyCode::Down => push_text(out, "Down"),
        KeyCode::Home => push_text(out, "Home"),
        KeyCode::End => push_text(out, "End"),
        KeyCode::PageUp => push_text(out, "PageUp"),
        KeyCode::PageDown => push_text(out, "PageDown"),
        KeyCode::Tab => push_text(out, "Tab"),
        KeyCode::BackTab => push_text(out, "BackTab"),
        KeyCode::Delete => push_text(out, "Delete"),
        KeyCode::Insert => push_text(out, "Insert"),
        KeyCode::Null => push_text(out, "Null"),
        KeyCode::Esc => push_text(out, "Esc"),
        KeyCode::CapsLock => push_text(out, "CapsLock"),
        KeyCode::ScrollLock => push_text(out, "ScrollLock"),
        KeyCode::NumLock => push_text(out, "NumLock"),
        KeyCode::PrintScreen => push_text(out, "PrintScreen"),
        KeyCode::Pause => push_text(out, "Pause"),
        KeyCode::Menu => push_text(out, "Menu"),
        KeyCode::KeypadBegin => push_text(out, "KeypadBegin"),
        KeyCode::Media => push_text(out, "Media"),
        KeyCode::Modifier => push_text(out, "Modifier"),
    }
}

/// The names of the held modifiers, in the order shift, control, alt,
/// super, hyper, meta.
pub open spec fn modifier_names(m: KeyModifiers) -> Seq<Seq<char>> {
    (if m.shift { seq!["SHIFT"@] } else { Seq::empty() }) + (if m.control { seq!["CONTROL"@] } else { Seq::empty() })
        + (if m.alt { seq!["ALT"@] } else { Seq::empty() }) + (if m.super_key { seq!["SUPER"@] } else { Seq::empty() })
        + (if m.hyper { seq!["HYPER"@] } else { Seq::empty() }) + (if m.meta { seq!["META"@] } else { Seq::empty() })
}

/// Names joined by ` | `.
pub open spec fn join_bar(parts: Seq<Seq<char>>) -> Seq<char>
    decreases parts.len(),
{
    if parts.len() == 0 {
        Seq::empty()
    } else if parts.len() == 1 {
        parts[0]
    } else {
        join_bar(parts.drop_last()) + " | "@ + parts.last()
    }
}

/// How the footer shows held modifiers: nothing when none is held, else
/// `+KeyModifiers(` and their names `)`.
pub open spec fn spec_modifiers_text(m: KeyModifiers) -> Seq<char> {
    let names = modifier_names(m);
    if names.len() == 0 {
        Seq::empty()
    } else {
        "+KeyModifiers("@ + join_bar(names) + ")"@
    }
}

fn modifier_name_list(m: KeyModifiers) -> (names: Vec<&'static str>)
    ensures
        names@.map_values(|s: &str| s@) == modifier_names(m),
{
    let ghost p1 = if m.shift { seq!["SHIFT"@] } else { Seq::<Seq<char>>::empty() };
    let ghost p2 = p1 + if m.control { seq!["CONTROL"@] } else { Seq::<Seq<char>>::empty() };
    let ghost p3 = p2 + if m.alt { seq!["ALT"@] } else { Seq::<Seq<char>>::empty() };
    let ghost p4 = p3 + if m.super_key { seq!["SUPER"@] } else { Seq::<Seq<char>>::empty() };
    let ghost p5 = p4 + if m.hyper { seq!["HYPER"@] } else { Seq::<Seq<char>>::empty() };
    let ghost p6 = p5 + if m.meta { seq!["META"@] } else { Seq::<Seq<char>>::empty() };
    let mut names: Vec<&'static str> = Vec::new();
    if m.shift {
        names.push("SHIFT");
    }
    assert(names@.map_values(|s: &str| s@) =~= p1);
    if m.control {
        names.push("CONTROL");
    }
    assert(names@.map_values(|s: &str| s@) =~= p2);
    if m.alt {
        names.push("ALT");
    }
    assert(names@.map_values(|s: &str| s@) =~= p3);
    if m.super_key {
        names.push("SUPER");
    }
    assert(names@.map_values(|s: &str| s@) =~= p4);
    if m.hyper {
        names.push("HYPER");
    }
    assert(names@.map_values(|s: &str| s@) =~= p5);
    if m.meta {
        names.push("META");
    }
    assert(names@.map_values(|s: &str| s@) =~= p6);
    names
}

pub(crate) fn push_modifiers(out: &mut Vec<char>, m: KeyModifiers)
    ensures
        final(out)@ == old(out)@ + spec_modifiers_text(m),
{
    let names = modifier_name_list(m);
    let ghost all = modifier_names(m);
    if names.len() == 0 {
        return;
    }
    let ghost start = out@;
    push_text(out, "+KeyModifiers(");
    let ghost head = out@;
    let mut i: usize = 0;
    while i < names.len()
        invariant
            0 <= i <= names@.len(),
            all == names@.map_values(|s: &str| s@),
            out@ == head + join_bar(all.take(i as int)),
        decreases names@.len() - i,
    {
        let ghost before = out@;
        if i > 0 {
            push_text(out, " | ");
        }
        push_text(out, names[i]);
        proof {
            let t = all.take(i + 1);
            assert(t.drop_last() =~= all.take(i as int));
            assert(t.last() == names@[i as int]@);
            if i == 0 {
                assert(out@ =~= head + t[0]);
            } else {
                assert(out@ =~= head + (join_bar(all.take(i as int)) + " | "@ + t.last()));
            }
        }
        i += 1;
    }
    assert(all.take(i as int) =~= all);
    push_text(out, ")");
    assert(out@ =~= start + ("+KeyModifiers("@ + join_bar(all) + ")"@));
}

} // verus!
