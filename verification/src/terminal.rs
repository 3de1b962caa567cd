use crate::events::{EventStatus, KeyCode, KeyEvent, KeyEventKind, KeyModifiers, SmashEvent};
use crate::reactive::{use_interaction, InteractionState};
use vstd::prelude::*;

verus! {

/// The byte a control chord sends for `c` (Ctrl+A is 1, Ctrl+[ is ESC), when
/// there is one: ASCII `@` to `_`, letters in either case.
pub open spec fn spec_control_char(c: char) -> Option<u8> {
    let code = c as int;
    let upper = if 0x61 <= code <= 0x7a { code - 0x20 } else { code };
    if code < 0x80 && 0x40 <= upper <= 0x5f {
        Some((upper - 0x40) as u8)
    } else {
        None
    }
}

fn control_char(c: char) -> (b: Option<u8>)
    ensures
        b == spec_control_char(c),
{
    let code = c as u32;
    if code >= 0x80 {
        return None;
    }
    let upper = if 0x61 <= code && code <= 0x7a { code - 0x20 } else { code };
    if 0x40 <= upper && upper <= 0x5f {
        Some((upper - 0x40) as u8)
    } else {
        None
    }
}

/// The UTF-8 encoding of `c`.
pub open spec fn spec_utf8(c: char) -> Seq<u8> {
    let cp = c as int;
    if cp < 0x80 {
        seq![cp as u8]
    } else if cp < 0x800 {
        seq![(0xc0 + cp / 64) as u8, (0x80 + cp % 64) as u8]
    } else if cp < 0x10000 {
        seq![(0xe0 + cp / 4096) as u8, (0x80 + (cp / 64) % 64) as u8, (0x80 + cp % 64) as u8]
    } else {
        seq![
            (0xf0 + cp / 262144) as u8,
            (0x80 + (cp / 4096) % 64) as u8,
            (0x80 + (cp / 64) % 64) as u8,
            (0x80 + cp % 64) as u8,
        ]
    }
}

/// Appends the UTF-8 encoding of `c` to `out`.
fn push_utf8(out: &mut Vec<u8>, c: char)
    ensures
        final(out)@ == old(out)@ + spec_utf8(c),
{
    let cp = c as u32;
    if cp < 0x80 {
        out.push(cp as u8);
    } else if cp < 0x800 {
        out.push((0xc0 + cp / 64) as u8);
        out.push((0x80 + cp % 64) as u8);
    } else if cp < 0x10000 {
        out.push((0xe0 + cp / 4096) as u8);
        out.push((0x80 + (cp / 64) % 64) as u8);
        out.push((0x80 + cp % 64) as u8);
    } else {
        assert(cp <= 0x10ffff);
        out.push((0xf0 + cp / 262144) as u8);
        out.push((0x80 + (cp / 4096) % 64) as u8);
        out.push((0x80 + (cp / 64) % 64) as u8);
        out.push((0x80 + cp % 64) as u8);
    }
    assert(final(out)@ =~= old(out)@ + spec_utf8(c));
}

/// The xterm parameter that encodes the held modifiers (`1 + shift + 2 * alt +
/// 4 * control`), or nothing when none of the three is held.
pub open spec fn spec_xterm_modifier_code(m: KeyModifiers) -> Option<u8> {
    let code = 1 + (if m.shift { 1int } else { 0 }) + (if m.alt { 2int } else { 0 }) + (if m.control {
        4int
    } else {
        0
    });
    if code > 1 {
        Some(code as u8)
    } else {
        None
    }
}

fn xterm_modifier_code(modifiers: KeyModifiers) -> (c: Option<u8>)
    ensures
        c == spec_xterm_modifier_code(modifiers),
{
    let mut code: u8 = 1;
    if modifiers.shift {
        code += 1;
    }
    if modifiers.alt {
        code += 2;
    }
    if modifiers.control {
        code += 4;
    }
    if code > 1 {
        Some(code)
    } else {
        None
    }
}

/// The decimal digits of `n`, in ASCII.
pub open spec fn spec_decimal(n: u8) -> Seq<u8> {
    if n < 10 {
        seq![(0x30 + n) as u8]
    } else if n < 100 {
        seq![(0x30 + n / 10) as u8, (0x30 + n % 10) as u8]
    } else {
        seq![(0x30 + n / 100) as u8, (0x30 + (n / 10) % 10) as u8, (0x30 + n % 10) as u8]
    }
}

fn push_decimal(out: &mut Vec<u8>, n: u8)
    ensures
        final(out)@ == old(out)@ + spec_decimal(n),
{
    if n < 10 {
        out.push(0x30 + n);
    } else if n < 100 {
        out.push(0x30 + n / 10);
        out.push(0x30 + n % 10);
    } else {
        out.push(0x30 + n / 100);
        out.push(0x30 + (n / 10) % 10);
        out.push(0x30 + n % 10);
    }
    assert(final(out)@ =~= old(out)@ + spec_decimal(n));
}

/// ESC `[`
pub open spec fn csi() -> Seq<u8> {
    seq![0x1bu8, 0x5bu8]
}

/// A cursor-style sequence: `unmodified` when no modifier is held, else
/// `ESC [ 1 ; <modifier code> <final byte>`.
pub open spec fn spec_csi_final(unmodified: Seq<u8>, final_byte: u8, m: KeyModifiers) -> Seq<u8> {
    match spec_xterm_modifier_code(m) {
        Some(code) => csi() + seq![0x31u8, 0x3bu8] + spec_decimal(code) + seq![final_byte],
        None => unmodified,
    }
}

fn csi_final(unmodified: Vec<u8>, final_byte: u8, modifiers: KeyModifiers) -> (s: Vec<u8>)
    ensures
        s@ == spec_csi_final(unmodified@, final_byte, modifiers),
{
    match xterm_modifier_code(modifiers) {
        Some(code) => {
            let mut out: Vec<u8> = vec![0x1b, 0x5b, 0x31, 0x3b];
            assert(out@ =~= csi() + seq![0x31u8, 0x3bu8]);
            push_decimal(&mut out, code);
            out.push(final_byte);
            out
        },
        None => unmodified,
    }
}

/// A tilde sequence: `ESC [ <number> ~`, or `ESC [ <number> ; <modifier
/// code> ~` when a modifier is held.
pub open spec fn spec_csi_tilde(number: u8, m: KeyModifiers) -> Seq<u8> {
    match spec_xterm_modifier_code(m) {
        Some(code) => csi() + spec_decimal(number) + seq![0x3bu8] + spec_decimal(code) + seq![0x7eu8],
        None => csi() + spec_decimal(number) + seq![0x7eu8],
    }
}

fn csi_tilde(number: u8, modifiers: KeyModifiers) -> (s: Vec<u8>)
    ensures
        s@ == spec_csi_tilde(number, modifiers),
{
    let mut out: Vec<u8> = vec![0x1b, 0x5b];
    assert(out@ =~= csi());
    push_decimal(&mut out, number);
    match xterm_modifier_code(modifiers) {
        Some(code) => {
            out.push(0x3b);
            push_decimal(&mut out, code);
            out.push(0x7e);
        },
        None => {
            out.push(0x7e);
        },
    }
    out
}

/// The sequence sent for function key `n` (F1 to F12).
pub open spec fn spec_function_key_sequence(n: u8, m: KeyModifiers) -> Option<Seq<u8>> {
    if n == 1 {
        Some(spec_csi_final(seq![0x1bu8, 0x4fu8, 0x50u8], 0x50, m))
    } else if n == 2 {
        Some(spec_csi_final(seq![0x1bu8, 0x4fu8, 0x51u8], 0x51, m))
    } else if n == 3 {
        Some(spec_csi_final(seq![0x1bu8, 0x4fu8, 0x52u8], 0x52, m))
    } else if n == 4 {
        Some(spec_csi_final(seq![0x1bu8, 0x4fu8, 0x53u8], 0x53, m))
    } else if n == 5 {
        Some(spec_csi_tilde(15, m))
    } else if 6 <= n <= 8 {
        Some(spec_csi_tilde((n + 11) as u8, m))
    } else if 9 <= n <= 10 {
        Some(spec_csi_tilde((n + 11) as u8, m))
    } else if 11 <= n <= 12 {
        Some(spec_csi_tilde((n + 12) as u8, m))
    } else {
        None
    }
}

fn function_key_sequence(n: u8, modifiers: KeyModifiers) -> (s: Option<Vec<u8>>)
    ensures
        match s {
            Some(v) => spec_function_key_sequence(n, modifiers) == Some(v@),
            None => spec_function_key_sequence(n, modifiers) is None,
        },
{
    if n == 1 {
        let u: Vec<u8> = vec![0x1b, 0x4f, 0x50];
        assert(u@ =~= seq![0x1bu8, 0x4fu8, 0x50u8]);
        Some(csi_final(u, 0x50, modifiers))
    } else if n == 2 {
        let u: Vec<u8> = vec![0x1b, 0x4f, 0x51];
        assert(u@ =~= seq![0x1bu8, 0x4fu8, 0x51u8]);
        Some(csi_final(u, 0x51, modifiers))
    } else if n == 3 {
        let u: Vec<u8> = vec![0x1b, 0x4f, 0x52];
        assert(u@ =~= seq![0x1bu8, 0x4fu8, 0x52u8]);
        Some(csi_final(u, 0x52, modifiers))
    } else if n == 4 {
        let u: Vec<u8> = vec![0x1b, 0x4f, 0x53];
        assert(u@ =~= seq![0x1bu8, 0x4fu8, 0x53u8]);
        Some(csi_final(u, 0x53, modifiers))
    } else if n == 5 {
        Some(csi_tilde(15, modifiers))
    } else if 6 <= n && n <= 10 {
        Some(csi_tilde(n + 11, modifiers))
    } else if 11 <= n && n <= 12 {
        Some(csi_tilde(n + 12, modifiers))
    } else {
        None
    }
}

/// The bytes a terminal expects for a key press, when the key has one.
pub open spec fn spec_terminal_key_sequence(key: KeyEvent) -> Option<Seq<u8>> {
    let m = key.modifiers;
    let esc = seq![0x1bu8];
    match key.code {
        KeyCode::Char(c) => if m.control {
            match spec_control_char(c) {
                Some(b) => Some(if m.alt { esc + seq![b] } else { seq![b] }),
                None => None,
            }
        } else {
            Some(if m.alt { esc + spec_utf8(c) } else { spec_utf8(c) })
        },
        KeyCode::Enter => Some(seq![0x0du8]),
        KeyCode::Backspace => Some(seq![0x7fu8]),
        KeyCode::Tab => Some(seq![0x09u8]),
        KeyCode::BackTab => Some(csi() + seq![0x5au8]),
        KeyCode::Up => Some(spec_csi_final(csi() + seq![0x41u8], 0x41, m)),
        KeyCode::Down => Some(spec_csi_final(csi() + seq![0x42u8], 0x42, m)),
        KeyCode::Right => Some(spec_csi_final(csi() + seq![0x43u8], 0x43, m)),
        KeyCode::Left => Some(spec_csi_final(csi() + seq![0x44u8], 0x44, m)),
        KeyCode::Home => Some(spec_csi_final(csi() + seq![0x48u8], 0x48, m)),
        KeyCode::End => Some(spec_csi_final(csi() + seq![0x46u8], 0x46, m)),
        KeyCode::Insert => Some(spec_csi_tilde(2, m)),
        KeyCode::Delete => Some(spec_csi_tilde(3, m)),
        KeyCode::PageUp => Some(spec_csi_tilde(5, m)),
        KeyCode::PageDown => Some(spec_csi_tilde(6, m)),
        KeyCode::F(n) => spec_function_key_sequence(n, m),
        _ => None,
    }
}

fn cursor_key(final_byte: u8, modifiers: KeyModifiers) -> (s: Vec<u8>)
    ensures
        s@ == spec_csi_final(csi() + seq![final_byte], final_byte, modifiers),
{
    let u: Vec<u8> = vec![0x1b, 0x5b, final_byte];
    assert(u@ =~= csi() + seq![final_byte]);
    csi_final(u, final_byte, modifiers)
}

/// The xterm final byte of a cursor-style key: `A` up, `B` down, `C` right,
/// `D` left, `H` home, `F` end.
pub open spec fn cursor_final_byte(code: KeyCode) -> Option<u8> {
    match code {
        KeyCode::Up => Some(0x41u8),
        KeyCode::Down => Some(0x42u8),
        KeyCode::Right => Some(0x43u8),
        KeyCode::Left => Some(0x44u8),
        KeyCode::Home => Some(0x48u8),
        KeyCode::End => Some(0x46u8),
        _ => None,
    }
}

/// An arrow, Home or End key is sent as an escape sequence `ESC [ ...` that
/// ends in its own xterm final byte, whatever modifiers are held, and
/// unmodified it is exactly `ESC [` and that byte; so two different such keys
/// never send the same bytes.
pub proof fn law_cursor_keys_send_their_final_byte(key: KeyEvent)
    requires
        cursor_final_byte(key.code) is Some,
    ensures
        ({
            let b = cursor_final_byte(key.code)->0;
            &&& spec_terminal_key_sequence(key) is Some
            &&& spec_terminal_key_sequence(key)->0.len() >= 3
            &&& spec_terminal_key_sequence(key)->0[0] == 0x1bu8
            &&& spec_terminal_key_sequence(key)->0[1] == 0x5bu8
            &&& spec_terminal_key_sequence(key)->0.last() == b
            &&& spec_xterm_modifier_code(key.modifiers) is None ==> spec_terminal_key_sequence(key)->0 == seq![
                0x1bu8,
                0x5bu8,
                b,
            ]
        }),
{
    let b = cursor_final_byte(key.code)->0;
    let m = key.modifiers;
    assert(csi() + seq![b] =~= seq![0x1bu8, 0x5bu8, b]);
    match spec_xterm_modifier_code(m) {
        Some(code) => {
            let s = csi() + seq![0x31u8, 0x3bu8] + spec_decimal(code) + seq![b];
            assert(s[0] == 0x1bu8 && s[1] == 0x5bu8);
            assert(s.last() == b);
        },
        None => {},
    }
}

/// Distinct cursor keys send distinct bytes.
pub proof fn law_distinct_cursor_keys_differ(k1: KeyEvent, k2: KeyEvent)
    requires
        cursor_final_byte(k1.code) is Some,
        cursor_final_byte(k2.code) is Some,
        k1.code != k2.code,
    ensures
        spec_terminal_key_sequence(k1) != spec_terminal_key_sequence(k2),
{
    law_cursor_keys_send_their_final_byte(k1);
    law_cursor_keys_send_their_final_byte(k2);
}


/// The bytes a terminal expects for a key press, when the key has one.
pub fn terminal_key_sequence(key: &KeyEvent) -> (s: Option<Vec<u8>>)
    ensures
        match s {
            Some(v) => spec_terminal_key_sequence(*key) == Some(v@),
            None => spec_terminal_key_sequence(*key) is None,
        },
{
    let m = key.modifiers;
    match key.code {
        KeyCode::Char(c) => {
            if m.control {
                match control_char(c) {
                    Some(b) => {
                        let mut out: Vec<u8> = Vec::new();
                        if m.alt {
                            out.push(0x1b);
                        }
                        out.push(b);
                        assert(out@ =~= (if m.alt { seq![0x1bu8] + seq![b] } else { seq![b] }));
                        Some(out)
                    },
                    None => None,
                }
            } else {
                let mut out: Vec<u8> = Vec::new();
                if m.alt {
                    out.push(0x1b);
                }
                push_utf8(&mut out, c);
                assert(out@ =~= (if m.alt { seq![0x1bu8] + spec_utf8(c) } else { spec_utf8(c) }));
                Some(out)
            }
        },
        KeyCode::Enter => {
            let v: Vec<u8> = vec![0x0d];
            assert(v@ =~= seq![0x0du8]);
            Some(v)
        },
        KeyCode::Backspace => {
            let v: Vec<u8> = vec![0x7f];
            assert(v@ =~= seq![0x7fu8]);
            Some(v)
        },
        KeyCode::Tab => {
            let v: Vec<u8> = vec![0x09];
            assert(v@ =~= seq![0x09u8]);
            Some(v)
        },
        KeyCode::BackTab => {
            let v: Vec<u8> = vec![0x1b, 0x5b, 0x5a];
            assert(v@ =~= csi() + seq![0x5au8]);
            Some(v)
        },
        KeyCode::Up => Some(cursor_key(0x41, m)),
        KeyCode::Down => Some(cursor_key(0x42, m)),
        KeyCode::Right => Some(cursor_key(0x43, m)),
        KeyCode::Left => Some(cursor_key(0x44, m)),
        KeyCode::Home => Some(cursor_key(0x48, m)),
        KeyCode::End => Some(cursor_key(0x46, m)),
        KeyCode::Insert => Some(csi_tilde(2, m)),
        KeyCode::Delete => Some(csi_tilde(3, m)),
        KeyCode::PageUp => Some(csi_tilde(5, m)),
        KeyCode::PageDown => Some(csi_tilde(6, m)),
        KeyCode::F(n) => function_key_sequence(n, m),
        _ => None,
    }
}

/// What a key did to an embedded terminal.
#[derive(Clone, Debug)]
pub enum TerminalInput {
    /// The terminal did not take the key.
    Ignored,
    /// The terminal took the key and changed its own mode.
    Handled,
    /// These bytes are to be written to the terminal's input; the key counts
    /// as handled once the write succeeds.
    Write(Vec<u8>),
}

/// The interaction model of an embedded terminal: browsed to by the
/// navigator, entered with Enter, left with Esc. While it is focused, keys
/// turn into the bytes the terminal program reads.
#[derive(Clone, Copy, Debug)]
pub struct TerminalState {
    interaction: InteractionState,
}

/// Creates the interaction state of a terminal that is neither selected nor
/// focused.
pub fn use_terminal_state() -> (t: TerminalState)
    ensures
        !t.spec_selected(),
        !t.spec_focused(),
{
    TerminalState { interaction: use_interaction(false, false) }
}

/// What a key does to a terminal that is or is not focused: whether it ends up
/// focused, and whether the key was ignored (`None`), handled without output
/// (`Some(None)`) or turned into bytes to write (`Some(Some(bytes))`).
pub open spec fn spec_terminal_handle(focused: bool, key: KeyEvent) -> (bool, Option<Option<Seq<u8>>>) {
    if key.kind == KeyEventKind::Release {
        (focused, None)
    } else if !focused {
        if key.code == KeyCode::Enter {
            (true, Some(None))
        } else {
            (false, None)
        }
    } else if key.code == KeyCode::Esc {
        (false, Some(None))
    } else {
        match spec_terminal_key_sequence(key) {
            Some(bytes) => (true, Some(Some(bytes))),
            None => (true, None),
        }
    }
}

/// The outcome of a `TerminalInput` in the terms of `spec_terminal_handle`.
pub open spec fn terminal_input_view(i: TerminalInput) -> Option<Option<Seq<u8>>> {
    match i {
        TerminalInput::Ignored => None,
        TerminalInput::Handled => Some(None),
        TerminalInput::Write(bytes) => Some(Some(bytes@)),
    }
}

impl TerminalState {
    pub closed spec fn spec_selected(self) -> bool {
        self.interaction.spec_selected()
    }

    pub closed spec fn spec_focused(self) -> bool {
        self.interaction.spec_focused()
    }

    pub fn is_selected(&self) -> (b: bool)
        ensures
            b == self.spec_selected(),
    {
        self.interaction.is_selected()
    }

    pub fn is_focused(&self) -> (b: bool)
        ensures
            b == self.spec_focused(),
    {
        self.interaction.is_focused()
    }

    pub fn select(&mut self)
        ensures
            final(self).spec_selected(),
            final(self).spec_focused() == old(self).spec_focused(),
    {
        self.interaction.select();
    }

    pub fn deselect(&mut self)
        ensures
            !final(self).spec_selected(),
            !final(self).spec_focused(),
    {
        self.interaction.deselect();
    }

    pub fn focus(&mut self)
        ensures
            final(self).spec_selected(),
            final(self).spec_focused(),
    {
        self.interaction.focus();
    }

    pub fn blur(&mut self)
        ensures
            final(self).spec_selected() == old(self).spec_selected(),
            !final(self).spec_focused(),
    {
        self.interaction.blur();
    }

    /// Reacts to a key: Enter enters the terminal, Esc leaves it, and while it
    /// is focused every key with a terminal sequence becomes bytes to write.
    pub fn handle_event(&mut self, key: &KeyEvent) -> (r: TerminalInput)
        ensures
            final(self).spec_focused() == spec_terminal_handle(old(self).spec_focused(), *key).0,
            terminal_input_view(r) == spec_terminal_handle(old(self).spec_focused(), *key).1,
            final(self).spec_selected() == (old(self).spec_selected() || final(self).spec_focused()),
    {
        let focused = self.interaction.is_focused();
        if key.kind == KeyEventKind::Release {
            return TerminalInput::Ignored;
        }
        if !focused {
            if key.code == KeyCode::Enter {
                self.interaction.focus();
                return TerminalInput::Handled;
            }
            return TerminalInput::Ignored;
        }
        if key.code == KeyCode::Esc {
            self.interaction.blur();
            return TerminalInput::Handled;
        }
        match terminal_key_sequence(key) {
            Some(bytes) => TerminalInput::Write(bytes),
            None => TerminalInput::Ignored,
        }
    }

    /// Routes a toolkit event; only keys reach the terminal.
    pub fn handle_smash_event(&mut self, event: &SmashEvent) -> (r: TerminalInput)
        ensures
            match event {
                SmashEvent::Key(key) => {
                    &&& final(self).spec_focused() == spec_terminal_handle(old(self).spec_focused(), *key).0
                    &&& terminal_input_view(r) == spec_terminal_handle(old(self).spec_focused(), *key).1
                    &&& final(self).spec_selected() == (old(self).spec_selected() || final(self).spec_focused())
                },
                _ => terminal_input_view(r) is None && *final(self) == *old(self),
            },
    {
        match event {
            SmashEvent::Key(key) => self.handle_event(key),
            _ => TerminalInput::Ignored,
        }
    }

    /// Follows the navigator's selection.
    pub fn sync_navigator_focus(&mut self, selected: bool)
        ensures
            final(self).spec_selected() == selected,
            final(self).spec_focused() == (selected && old(self).spec_focused()),
    {
        self.interaction.sync_navigator(selected);
    }

    /// A terminal is active for the navigator while it is focused.
    pub fn is_navigator_active(&self) -> (b: bool)
        ensures
            b == self.spec_focused(),
    {
        self.interaction.is_focused()
    }
}


/// Entering a terminal with Enter and leaving it with Esc returns it to
/// browsing: not focused, and nothing is sent to the program.
pub proof fn law_enter_then_esc_leaves_terminal(m1: KeyModifiers, m2: KeyModifiers)
    ensures
        ({
            let enter = KeyEvent { code: KeyCode::Enter, modifiers: m1, kind: KeyEventKind::Press };
            let esc = KeyEvent { code: KeyCode::Esc, modifiers: m2, kind: KeyEventKind::Press };
            let (f1, o1) = spec_terminal_handle(false, enter);
            let (f2, o2) = spec_terminal_handle(f1, esc);
            f1 && o1 == Some(None::<Seq<u8>>) && !f2 && o2 == Some(None::<Seq<u8>>)
        }),
{
}

/// While the terminal is focused, every printable character without Control
/// is sent as its UTF-8 bytes, behind an ESC when Alt is held.
pub proof fn law_focused_terminal_sends_characters(c: char, m: KeyModifiers)
    requires
        !m.control,
    ensures
        spec_terminal_handle(true, KeyEvent { code: KeyCode::Char(c), modifiers: m, kind: KeyEventKind::Press }).1
            == Some(Some(if m.alt { seq![0x1bu8] + spec_utf8(c) } else { spec_utf8(c) })),
{
}

} // verus!
