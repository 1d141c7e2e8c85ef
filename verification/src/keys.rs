//! What a key press sends to the remote terminal.
use crate::encoding::{
    bytes_of, decimal, encode_utf8_char, law_utf8_char, law_utf8_reads_back, push_decimal, utf8,
};
use crate::input::{KeyCode, KeyEvent, KeyEventKind, KeyModifiers, ALT, CONTROL};
use vstd::prelude::*;
use vstd::utf8::{decode_utf8, encode_scalar};

verus! {

/// The byte that starts a client command: Ctrl-^.
pub const MOSH_COMMAND_KEY: u8 = 0x1E;

/// The escape byte.
pub const ESC: u8 = 0x1B;

/// The character that names the control byte in caret notation: a letter in
/// upper case, and for the space and the digits from 2 to 8 the character that
/// they stand for. Any other character names itself.
pub open spec fn caret_name(c: u8) -> int {
    let k = c as char;
    if 'a' <= k <= 'z' {
        c - 'a' as u8 + 'A' as u8
    } else if k == ' ' || k == '2' {
        '@' as int
    } else if '3' <= k <= '7' {
        c - '3' as u8 + '[' as u8
    } else if k == '8' {
        '?' as int
    } else {
        c as int
    }
}

/// The control byte of an ASCII character typed with control held, if it has
/// one: `^@` to `^_` are the bytes from zero on, and `^?` is delete.
pub open spec fn ctrl_byte(c: u8) -> Option<u8> {
    let name = caret_name(c);
    if '@' as int <= name <= '_' as int {
        Some((name - '@' as int) as u8)
    } else if name == '?' as int {
        Some(0x7F)
    } else {
        None
    }
}

/// Maps Ctrl+ASCII combinations to terminal control bytes.
pub fn encode_ctrl_char(c: u8) -> (r: Option<u8>)
    ensures
        r == ctrl_byte(c),
{
    match c as char {
        'a'..='z' => Some(c - 'a' as u8 + 1),
        'A'..='Z' => Some(c - 'A' as u8 + 1),
        ' ' | '2' | '@' => Some(0x00),
        '3' | '[' => Some(0x1B),
        '4' | '\\' => Some(0x1C),
        '5' | ']' => Some(0x1D),
        '6' | '^' => Some(0x1E),
        '7' | '_' => Some(0x1F),
        '8' | '?' => Some(0x7F),
        _ => None,
    }
}

/// `ESC O last`: the short form of cursor and function keys.
pub open spec fn short_sequence(last: char) -> Seq<u8> {
    seq![ESC, 'O' as u8, last as u8]
}

/// `ESC [ number ~`: the numbered form of editing and function keys.
pub open spec fn numbered_sequence(number: nat) -> Seq<u8> {
    seq![ESC, '[' as u8] + decimal(number) + seq!['~' as u8]
}

/// The bytes of the function key with the number `n`; there are twelve of them.
pub open spec fn function_key_bytes(n: u8) -> Option<Seq<u8>> {
    if n == 1 {
        Some(short_sequence('P'))
    } else if n == 2 {
        Some(short_sequence('Q'))
    } else if n == 3 {
        Some(short_sequence('R'))
    } else if n == 4 {
        Some(short_sequence('S'))
    } else if n == 5 {
        Some(numbered_sequence(15))
    } else if 6 <= n <= 10 {
        Some(numbered_sequence((n + 11) as nat))
    } else if 11 <= n <= 12 {
        Some(numbered_sequence((n + 12) as nat))
    } else {
        None
    }
}

/// The bytes of a key with no modifier held, if it has an encoding.
pub open spec fn plain_key_bytes(code: KeyCode) -> Option<Seq<u8>> {
    match code {
        KeyCode::Char(c) => Some(utf8(c)),
        KeyCode::Enter => Some(seq![0x0Du8]),
        KeyCode::Backspace => Some(seq![0x7Fu8]),
        KeyCode::Tab => Some(seq![0x09u8]),
        KeyCode::BackTab => Some(seq![ESC, '[' as u8, 'Z' as u8]),
        KeyCode::Esc => Some(seq![ESC]),
        KeyCode::Up => Some(short_sequence('A')),
        KeyCode::Down => Some(short_sequence('B')),
        KeyCode::Right => Some(short_sequence('C')),
        KeyCode::Left => Some(short_sequence('D')),
        KeyCode::Home => Some(short_sequence('H')),
        KeyCode::End => Some(short_sequence('F')),
        KeyCode::PageUp => Some(numbered_sequence(5)),
        KeyCode::PageDown => Some(numbered_sequence(6)),
        KeyCode::Insert => Some(numbered_sequence(2)),
        KeyCode::Delete => Some(numbered_sequence(3)),
        KeyCode::F(n) => function_key_bytes(n),
        KeyCode::Unmapped => None,
    }
}

/// Control and alt held together on a character key: how a keyboard layout's
/// AltGr arrives. The character is then meant literally.
pub open spec fn alt_gr(event: KeyEvent) -> bool {
    event.modifiers.has(CONTROL) && event.modifiers.has(ALT) && event.code is Char
}

/// The control byte of the event: control is held, it is not AltGr, and the
/// character has a control byte.
pub open spec fn control_byte(event: KeyEvent) -> Option<u8> {
    match event.code {
        KeyCode::Char(c) if event.modifiers.has(CONTROL) && !alt_gr(event) && (c as u32) < 0x80 => {
            ctrl_byte(c as u8)
        },
        _ => None,
    }
}

/// The bytes that a key event sends, if it sends any: nothing on a release;
/// the control byte where there is one; else the key's own bytes, after an
/// escape byte where alt is held, except for AltGr and for the escape key.
pub open spec fn key_bytes(event: KeyEvent) -> Option<Seq<u8>> {
    if !event.down() {
        None
    } else {
        match (control_byte(event), plain_key_bytes(event.code)) {
            (Some(b), _) => Some(seq![b]),
            (None, None) => None,
            (None, Some(plain)) => {
                if event.modifiers.has(ALT) && !alt_gr(event) && !(event.code is Esc) {
                    Some(seq![ESC] + plain)
                } else {
                    Some(plain)
                }
            },
        }
    }
}

/// The event is the command key: Ctrl-6 or Ctrl-^.
pub open spec fn command_key(event: KeyEvent) -> bool {
    event.modifiers.has(CONTROL) && (event.code == KeyCode::Char('6') || event.code
        == KeyCode::Char('^'))
}

fn encode_short(last: char) -> (r: Vec<u8>)
    requires
        (last as u32) < 0x80,
    ensures
        r@ == short_sequence(last),
{
    vec![ESC, 'O' as u8, last as u8]
}

fn encode_numbered(number: u16) -> (r: Vec<u8>)
    ensures
        r@ == numbered_sequence(number as nat),
{
    let mut out: Vec<u8> = vec![ESC, '[' as u8];
    push_decimal(&mut out, number);
    out.push('~' as u8);
    out
}

fn encode_function_key(n: u8) -> (r: Option<Vec<u8>>)
    ensures
        bytes_of(r) == function_key_bytes(n),
{
    match n {
        1 => Some(encode_short('P')),
        2 => Some(encode_short('Q')),
        3 => Some(encode_short('R')),
        4 => Some(encode_short('S')),
        5 => Some(encode_numbered(15)),
        6 => Some(encode_numbered(17)),
        7 => Some(encode_numbered(18)),
        8 => Some(encode_numbered(19)),
        9 => Some(encode_numbered(20)),
        10 => Some(encode_numbered(21)),
        11 => Some(encode_numbered(23)),
        12 => Some(encode_numbered(24)),
        _ => None,
    }
}

fn encode_plain_key(code: KeyCode) -> (r: Option<Vec<u8>>)
    ensures
        bytes_of(r) == plain_key_bytes(code),
{
    match code {
        KeyCode::Char(c) => Some(encode_utf8_char(c)),
        KeyCode::Enter => Some(vec![0x0D]),
        KeyCode::Backspace => Some(vec![0x7F]),
        KeyCode::Tab => Some(vec![0x09]),
        KeyCode::BackTab => Some(vec![ESC, '[' as u8, 'Z' as u8]),
        KeyCode::Esc => Some(vec![ESC]),
        KeyCode::Up => Some(encode_short('A')),
        KeyCode::Down => Some(encode_short('B')),
        KeyCode::Right => Some(encode_short('C')),
        KeyCode::Left => Some(encode_short('D')),
        KeyCode::Home => Some(encode_short('H')),
        KeyCode::End => Some(encode_short('F')),
        KeyCode::PageUp => Some(encode_numbered(5)),
        KeyCode::PageDown => Some(encode_numbered(6)),
        KeyCode::Insert => Some(encode_numbered(2)),
        KeyCode::Delete => Some(encode_numbered(3)),
        KeyCode::F(n) => encode_function_key(n),
        KeyCode::Unmapped => None,
    }
}

/// Encodes a key event as the bytes that a terminal sends for it. Only a key
/// that goes down or repeats sends anything.
pub fn handle_key_event(event: &KeyEvent) -> (r: Option<Vec<u8>>)
    ensures
        bytes_of(r) == key_bytes(*event),
{
    if !event.is_down() {
        return None;
    }
    let control = event.modifiers.contains(CONTROL);
    let alt = event.modifiers.contains(ALT);
    let alt_gr_like = control && alt && matches!(event.code, KeyCode::Char(_));

    if control && !alt_gr_like {
        if let KeyCode::Char(c) = event.code {
            if (c as u32) < 0x80 {
                if let Some(b) = encode_ctrl_char(c as u8) {
                    return Some(vec![b]);
                }
            }
        }
    }
    match encode_plain_key(event.code) {
        None => None,
        Some(mut out) => {
            if alt && !alt_gr_like && !matches!(event.code, KeyCode::Esc) {
                out.insert(0, ESC);
                assert(out@ =~= seq![ESC] + plain_key_bytes(event.code)->0);
            }
            Some(out)
        },
    }
}

/// Whether the event is the command key.
pub fn is_command_key(event: &KeyEvent) -> (r: bool)
    ensures
        r == command_key(*event),
{
    event.modifiers.contains(CONTROL) && matches!(event.code, KeyCode::Char('6' | '^'))
}

/// Only a key that goes down acts: a release sends nothing, whatever the key.
pub proof fn law_release_sends_nothing(event: KeyEvent)
    requires
        event.kind is Release,
    ensures
        key_bytes(event) is None,
{
}

/// A repeated key sends what the pressed key sends.
pub proof fn law_repeat_like_press(code: KeyCode, modifiers: KeyModifiers)
    ensures
        key_bytes(KeyEvent { code, modifiers, kind: KeyEventKind::Repeat }) == key_bytes(
            KeyEvent { code, modifiers, kind: KeyEventKind::Press },
        ),
{
}

/// What a key sends is never empty.
pub proof fn law_key_bytes_not_empty(event: KeyEvent)
    requires
        key_bytes(event) is Some,
    ensures
        key_bytes(event)->0.len() > 0,
{
    if let KeyCode::Char(c) = event.code {
        law_utf8_char(c);
    }
}

/// Alt puts an escape byte before what the key sends without alt, for every key
/// but escape itself, which alt leaves alone, and but for a character with
/// control held.
pub proof fn law_alt_prefixes_escape(event: KeyEvent, without_alt: KeyEvent)
    requires
        event.modifiers.has(ALT),
        !without_alt.modifiers.has(ALT),
        event.modifiers.has(CONTROL) == without_alt.modifiers.has(CONTROL),
        event.modifiers.has(CONTROL) ==> !(event.code is Char),
        event.code == without_alt.code,
        event.kind == without_alt.kind,
    ensures
        key_bytes(event) is Some <==> key_bytes(without_alt) is Some,
        key_bytes(event) is Some && !(event.code is Esc) ==> key_bytes(event)->0 == seq![ESC]
            + key_bytes(without_alt)->0,
        event.code is Esc ==> key_bytes(event) == key_bytes(without_alt),
{
}

/// Control and alt together on a character key type the character itself.
pub proof fn law_alt_gr_is_literal(c: char, modifiers: KeyModifiers, kind: KeyEventKind)
    requires
        modifiers.has(CONTROL),
        modifiers.has(ALT),
        !(kind is Release),
    ensures
        key_bytes(KeyEvent { code: KeyCode::Char(c), modifiers, kind }) == Some(utf8(c)),
{
}

/// Control changes only what has a control byte: any other key sends what it
/// sends without control, but for a character with alt held.
pub proof fn law_control_leaves_other_keys(event: KeyEvent, without_control: KeyEvent)
    requires
        event.modifiers.has(CONTROL),
        !without_control.modifiers.has(CONTROL),
        event.modifiers.has(ALT) == without_control.modifiers.has(ALT),
        event.modifiers.has(ALT) ==> !(event.code is Char),
        event.code == without_control.code,
        event.kind == without_control.kind,
        control_byte(event) is None,
    ensures
        key_bytes(event) == key_bytes(without_control),
{
}

/// Caret notation: each control byte, and delete, is that of the character that
/// differs from it in the bit 0x40.
pub proof fn law_caret_notation(b: u8)
    requires
        b <= 0x1F || b == 0x7F,
    ensures
        ctrl_byte(b ^ 0x40) == Some(b),
{
    assert(b <= 0x1F ==> b ^ 0x40 == b + 0x40) by (bit_vector);
    assert(0x7Fu8 ^ 0x40 == 0x3F) by (bit_vector);
}

/// Control bytes are the bytes below the space, and delete; a letter's does not
/// depend on its case.
pub proof fn law_control_bytes(c: u8)
    ensures
        ctrl_byte(c) is Some ==> ctrl_byte(c)->0 < 0x20 || ctrl_byte(c)->0 == 0x7F,
        0x61 <= c <= 0x7A ==> ctrl_byte(c) == ctrl_byte((c - 0x20) as u8),
{
}

/// The command key, pressed without alt, sends the command byte.
pub proof fn law_command_key_sends_command_byte(event: KeyEvent)
    requires
        command_key(event),
        event.down(),
        !event.modifiers.has(ALT),
    ensures
        key_bytes(event) == Some(seq![MOSH_COMMAND_KEY]),
{
}

/// A character typed without control is sent as itself: its UTF-8 encoding,
/// after one escape byte exactly if alt is held, and so that it reads back as
/// that character alone.
pub proof fn law_character_is_sent_as_itself(c: char, modifiers: KeyModifiers, kind: KeyEventKind)
    requires
        !modifiers.has(CONTROL),
        !(kind is Release),
    ensures
        ({
            let sent = key_bytes(KeyEvent { code: KeyCode::Char(c), modifiers, kind });
            &&& modifiers.has(ALT) ==> sent == Some(seq![0x1Bu8] + encode_scalar(c as u32))
            &&& !modifiers.has(ALT) ==> sent == Some(encode_scalar(c as u32))
            &&& !modifiers.has(ALT) ==> decode_utf8(sent->0) == seq![c]
        }),
{
    law_utf8_reads_back(c);
}

/// A character typed with control and without alt: an ASCII letter sends its
/// place in the alphabet, whatever its case; a character from `@` to `_` the
/// byte 0x40 below it; the space and `2` zero; the digits from `3` to `7` the
/// bytes from escape on; `8` and `?` delete. Every other character is sent as
/// itself.
pub proof fn law_control_character(c: char, modifiers: KeyModifiers, kind: KeyEventKind)
    requires
        modifiers.has(CONTROL),
        !modifiers.has(ALT),
        !(kind is Release),
    ensures
        ({
            let sent = key_bytes(KeyEvent { code: KeyCode::Char(c), modifiers, kind });
            let n = c as int;
            &&& 0x61 <= n <= 0x7A ==> sent == Some(seq![(n - 0x60) as u8])
            &&& 0x40 <= n <= 0x5F ==> sent == Some(seq![(n - 0x40) as u8])
            &&& c == ' ' || c == '2' ==> sent == Some(seq![0x00u8])
            &&& 0x33 <= n <= 0x37 ==> sent == Some(seq![(n - 0x33 + 0x1B) as u8])
            &&& c == '8' || c == '?' ==> sent == Some(seq![0x7Fu8])
            &&& !(0x61 <= n <= 0x7A || 0x40 <= n <= 0x5F || c == ' ' || 0x32 <= n <= 0x38 || c
                == '?') ==> sent == Some(encode_scalar(c as u32))
        }),
{
}

/// The control byte of an ASCII character agrees with what control and the
/// character send, and is there for no other character.
pub proof fn law_control_byte_of_ascii(c: u8, modifiers: KeyModifiers, kind: KeyEventKind)
    requires
        c < 0x80,
        modifiers.has(CONTROL),
        !modifiers.has(ALT),
        !(kind is Release),
    ensures
        ({
            let sent = key_bytes(KeyEvent { code: KeyCode::Char(c as char), modifiers, kind });
            &&& ctrl_byte(c) is Some ==> sent == Some(seq![ctrl_byte(c)->0])
            &&& ctrl_byte(c) is None ==> sent == Some(seq![c])
        }),
{
    law_utf8_char(c as char);
}

/// A byte has a control byte exactly if it is a letter, one of the characters
/// from `@` to `_`, the space, a digit from `2` to `8`, or `?`.
pub proof fn law_what_has_a_control_byte(c: u8)
    ensures
        ctrl_byte(c) is Some <==> (0x61 <= c <= 0x7A || 0x40 <= c <= 0x5F || c == 0x20 || 0x32 <= c
            <= 0x38 || c == 0x3F),
        0x61 <= c <= 0x7A ==> ctrl_byte(c) == Some((c - 0x60) as u8),
        0x40 <= c <= 0x5F ==> ctrl_byte(c) == Some((c - 0x40) as u8),
        c == 0x20 || c == 0x32 ==> ctrl_byte(c) == Some(0x00u8),
        0x33 <= c <= 0x37 ==> ctrl_byte(c) == Some((c - 0x18) as u8),
        c == 0x38 || c == 0x3F ==> ctrl_byte(c) == Some(0x7Fu8),
{
}

/// The keys that send something when they go down are all but the function keys
/// outside the first twelve and the keys without an encoding.
pub proof fn law_what_sends(event: KeyEvent)
    ensures
        key_bytes(event) is Some <==> event.kind != KeyEventKind::Release && event.code
            != KeyCode::Unmapped && (event.code matches KeyCode::F(n) ==> 1 <= n <= 12),
{
}

/// Apart from control and alt no modifier matters, and it does not matter
/// whether the key is pressed or repeats.
pub proof fn law_only_control_and_alt_matter(event: KeyEvent, other: KeyEvent)
    requires
        event.code == other.code,
        event.kind is Release <==> other.kind is Release,
        event.modifiers.has(CONTROL) == other.modifiers.has(CONTROL),
        event.modifiers.has(ALT) == other.modifiers.has(ALT),
    ensures
        key_bytes(event) == key_bytes(other),
        command_key(event) == command_key(other),
{
}

/// The bytes of the keys that type no character, in a terminal's application
/// mode; with alt they come after an escape byte, and control does not matter.
pub proof fn law_named_keys(modifiers: KeyModifiers, kind: KeyEventKind)
    requires
        !modifiers.has(ALT),
        !(kind is Release),
    ensures
        ({
            let sent = |code: KeyCode| key_bytes(KeyEvent { code, modifiers, kind });
            &&& sent(KeyCode::Enter) == Some(seq![0x0Du8])
            &&& sent(KeyCode::Backspace) == Some(seq![0x7Fu8])
            &&& sent(KeyCode::Tab) == Some(seq![0x09u8])
            &&& sent(KeyCode::Esc) == Some(seq![0x1Bu8])
            &&& sent(KeyCode::BackTab) == Some(seq![0x1Bu8, 0x5B, 0x5A])
            &&& sent(KeyCode::Up) == Some(seq![0x1Bu8, 0x4F, 0x41])
            &&& sent(KeyCode::Down) == Some(seq![0x1Bu8, 0x4F, 0x42])
            &&& sent(KeyCode::Right) == Some(seq![0x1Bu8, 0x4F, 0x43])
            &&& sent(KeyCode::Left) == Some(seq![0x1Bu8, 0x4F, 0x44])
            &&& sent(KeyCode::End) == Some(seq![0x1Bu8, 0x4F, 0x46])
            &&& sent(KeyCode::Home) == Some(seq![0x1Bu8, 0x4F, 0x48])
            &&& sent(KeyCode::Insert) == Some(seq![0x1Bu8, 0x5B, 0x32, 0x7E])
            &&& sent(KeyCode::Delete) == Some(seq![0x1Bu8, 0x5B, 0x33, 0x7E])
            &&& sent(KeyCode::PageUp) == Some(seq![0x1Bu8, 0x5B, 0x35, 0x7E])
            &&& sent(KeyCode::PageDown) == Some(seq![0x1Bu8, 0x5B, 0x36, 0x7E])
        }),
{
    reveal_with_fuel(decimal, 2);
    assert(numbered_sequence(2) =~= seq![0x1Bu8, 0x5B, 0x32, 0x7E]);
    assert(numbered_sequence(3) =~= seq![0x1Bu8, 0x5B, 0x33, 0x7E]);
    assert(numbered_sequence(5) =~= seq![0x1Bu8, 0x5B, 0x35, 0x7E]);
    assert(numbered_sequence(6) =~= seq![0x1Bu8, 0x5B, 0x36, 0x7E]);
}

/// The bytes of the function keys: the first four end in a letter from `P` on,
/// the others carry a number of two digits, which leaves out 16 and 22.
pub proof fn law_function_keys(n: u8, modifiers: KeyModifiers, kind: KeyEventKind)
    requires
        !modifiers.has(ALT),
        !(kind is Release),
    ensures
        ({
            let sent = key_bytes(KeyEvent { code: KeyCode::F(n), modifiers, kind });
            let numbered = |tens: u8, ones: u8|
                Some(seq![0x1Bu8, 0x5B, (0x30 + tens) as u8, (0x30 + ones) as u8, 0x7E]);
            &&& 1 <= n <= 4 ==> sent == Some(seq![0x1Bu8, 0x4F, (0x4F + n) as u8])
            &&& n == 5 ==> sent == numbered(1, 5)
            &&& 6 <= n <= 8 ==> sent == numbered(1, (n + 1) as u8)
            &&& 9 <= n <= 10 ==> sent == numbered(2, (n - 9) as u8)
            &&& 11 <= n <= 12 ==> sent == numbered(2, (n - 8) as u8)
            &&& n == 0 || n > 12 ==> sent is None
        }),
{
    reveal_with_fuel(decimal, 3);
    let number = if n == 5 {
        15
    } else if n <= 10 {
        n + 11
    } else {
        n + 12
    };
    if 5 <= n <= 12 {
        assert(numbered_sequence(number as nat) =~= seq![
            0x1Bu8,
            0x5B,
            (0x30 + number / 10) as u8,
            (0x30 + number % 10) as u8,
            0x7E,
        ]);
    }
}

/// The command key is a six or a caret with control held, and nothing else,
/// whatever other modifiers are held.
pub proof fn law_what_is_the_command_key(event: KeyEvent)
    ensures
        command_key(event) ==> event.modifiers.has(CONTROL) && event.code is Char,
        event.modifiers.has(CONTROL) && event.code is Char ==> (command_key(event) <==> (
        event.code->Char_0 == '6' || event.code->Char_0 == '^')),
{
}

} // verus!
