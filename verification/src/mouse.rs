//! What a mouse event sends to the remote terminal.
use crate::encoding::{all_digits, bytes_of, decimal, law_decimal_reads_back, push_decimal};
use crate::input::{
    KeyModifiers, MouseButton, MouseEvent, MouseEventKind, MouseMode, ALT, CONTROL, SHIFT,
};
use crate::keys::ESC;
use vstd::prelude::*;

verus! {

/// The number that held modifiers add to a button code: 4 for shift, 8 for
/// alt, 16 for control.
pub open spec fn modifier_number(mods: KeyModifiers) -> int {
    (if mods.has(SHIFT) {
        4int
    } else {
        0
    }) + (if mods.has(ALT) {
        8int
    } else {
        0
    }) + (if mods.has(CONTROL) {
        16int
    } else {
        0
    })
}

/// The held modifiers as bits of a button code.
pub fn modifier_mask(mods: KeyModifiers) -> (mask: u8)
    ensures
        mask == modifier_number(mods),
        mask & 0x1C == mask,
{
    let mut mask: u8 = 0;
    proof {
        assert(0u8 | 4 == 4) by (bit_vector);
        assert(forall|m: u8|
            m == 0 || m == 4 ==> #[trigger] (m | 8) == m + 8 && m & 0x1C == m) by (bit_vector);
        assert(forall|m: u8|
            m == 0 || m == 4 || m == 8 || m == 12 ==> #[trigger] (m | 16) == m + 16 && m & 0x1C == m
                && (m | 16) & 0x1C == (m | 16)) by (bit_vector);
    }
    if mods.contains(SHIFT) {
        mask |= 4;
    }
    if mods.contains(ALT) {
        mask |= 8;
    }
    assert(mask | 16 == mask + 16);
    if mods.contains(CONTROL) {
        mask |= 16;
    }
    mask
}

/// The number of a button.
pub open spec fn button_number(button: MouseButton) -> int {
    match button {
        MouseButton::Left => 0,
        MouseButton::Middle => 1,
        MouseButton::Right => 2,
    }
}

/// The code of a button.
pub fn mouse_button_code(button: MouseButton) -> (code: u8)
    ensures
        code == button_number(button),
{
    match button {
        MouseButton::Left => 0,
        MouseButton::Middle => 1,
        MouseButton::Right => 2,
    }
}

/// The button code and the final character of a report, if the event is
/// reported at all: a motion with no button held is, only in the mode that
/// asks for every event, and then without the modifiers.
pub open spec fn report_head(kind: MouseEventKind, mode: MouseMode, mods: KeyModifiers) -> Option<
    (int, char),
> {
    let held = modifier_number(mods);
    match kind {
        MouseEventKind::Down(button) => Some((button_number(button) + held, 'M')),
        MouseEventKind::Up(_) => Some((3 + held, 'm')),
        MouseEventKind::Drag(button) => Some((32 + button_number(button) + held, 'm')),
        MouseEventKind::Moved => if mode is AnyEventTracking {
            Some((35, 'm'))
        } else {
            None
        },
        MouseEventKind::ScrollUp => Some((64 + held, 'M')),
        MouseEventKind::ScrollDown => Some((65 + held, 'M')),
        MouseEventKind::ScrollLeft => Some((66 + held, 'M')),
        MouseEventKind::ScrollRight => Some((67 + held, 'M')),
    }
}

/// A coordinate as the protocol counts it: from one. The last one that a
/// coordinate can hold stays as it is.
pub open spec fn one_based(coordinate: u16) -> int {
    if coordinate == u16::MAX {
        u16::MAX as int
    } else {
        coordinate + 1
    }
}

/// The SGR mouse report `ESC [ < code ; x ; y ; final`.
pub open spec fn sgr_report(code: int, x: int, y: int, last: char) -> Seq<u8> {
    seq![ESC, '[' as u8, '<' as u8] + decimal(code as nat) + seq![';' as u8] + decimal(x as nat)
        + seq![';' as u8] + decimal(y as nat) + seq![';' as u8, last as u8]
}

/// The bytes that a mouse event sends, if it is reported.
pub open spec fn mouse_bytes(event: MouseEvent, mode: MouseMode, mods: KeyModifiers) -> Option<
    Seq<u8>,
> {
    match report_head(event.kind, mode, mods) {
        None => None,
        Some((code, last)) => Some(
            sgr_report(code, one_based(event.column), one_based(event.row), last),
        ),
    }
}

/// Sets the modifier bits of a button code that has none of them.
fn with_modifiers(code: u8, mask: u8) -> (r: u8)
    requires
        code & 0x1C == 0,
        mask & 0x1C == mask,
    ensures
        r == code + mask,
{
    assert(code & 0x1C == 0 && mask & 0x1C == mask ==> code | mask == code + mask) by (bit_vector);
    code | mask
}

/// Encodes a mouse event as an SGR extended report (DECSET ?1006):
/// `ESC [ < code ; x ; y ; M` for a press or a scroll, `ESC [ < code ; x ; y ; m`
/// for a release, a drag or a motion. Coordinates are 1-based.
#[verifier::rlimit(50)]
pub fn encode_sgr_mouse(event: &MouseEvent, mode: MouseMode, modifiers: KeyModifiers) -> (r: Option<
    Vec<u8>,
>)
    ensures
        bytes_of(r) == mouse_bytes(*event, mode, modifiers),
{
    let mask = modifier_mask(modifiers);
    proof {
        assert(forall|b: u8| b <= 3 ==> #[trigger] (b & 0x1C) == 0 && (32 | b) == 32 + b && (32 | b)
            & 0x1C == 0) by (bit_vector);
        assert(64u8 & 0x1C == 0 && 65u8 & 0x1C == 0 && 66u8 & 0x1C == 0 && 67u8 & 0x1C == 0)
            by (bit_vector);
    }
    let (code, last): (u8, char) = match event.kind {
        MouseEventKind::Down(button) => (with_modifiers(mouse_button_code(button), mask), 'M'),
        MouseEventKind::Up(_) => (with_modifiers(3, mask), 'm'),
        MouseEventKind::Drag(button) => {
            let b = mouse_button_code(button);
            assert(b & 0x1C == 0);
            (with_modifiers(32 | b, mask), 'm')
        },
        MouseEventKind::Moved => {
            if !matches!(mode, MouseMode::AnyEventTracking) {
                return None;
            }
            (35, 'm')
        },
        MouseEventKind::ScrollDown => (with_modifiers(65, mask), 'M'),
        MouseEventKind::ScrollUp => (with_modifiers(64, mask), 'M'),
        MouseEventKind::ScrollLeft => (with_modifiers(66, mask), 'M'),
        MouseEventKind::ScrollRight => (with_modifiers(67, mask), 'M'),
    };
    assert(report_head(event.kind, mode, modifiers) == Some((code as int, last)));
    let mut out: Vec<u8> = vec![ESC, '[' as u8, '<' as u8];
    push_decimal(&mut out, code as u16);
    out.push(';' as u8);
    push_decimal(&mut out, event.column.saturating_add(1));
    out.push(';' as u8);
    push_decimal(&mut out, event.row.saturating_add(1));
    out.push(';' as u8);
    out.push(last as u8);
    assert(out@ =~= mouse_bytes(*event, mode, modifiers)->0);
    Some(out)
}

/// Every mouse event is reported in every mode, except a motion with no button
/// held, which only the mode for every event reports.
pub proof fn law_reported_events(event: MouseEvent, mode: MouseMode, mods: KeyModifiers)
    ensures
        mouse_bytes(event, mode, mods) is None <==> event.kind is Moved && !(
        mode is AnyEventTracking),
{
}

/// Two digit strings before the same separator, with anything after it, are
/// equal where the whole is equal, and so is what follows.
proof fn lemma_digits_end_at_separator(
    digits: Seq<u8>,
    other_digits: Seq<u8>,
    rest: Seq<u8>,
    other_rest: Seq<u8>,
)
    requires
        all_digits(digits),
        all_digits(other_digits),
        rest.len() > 0,
        other_rest.len() > 0,
        !(0x30 <= rest[0] <= 0x39),
        !(0x30 <= other_rest[0] <= 0x39),
        digits + rest == other_digits + other_rest,
    ensures
        digits == other_digits,
        rest == other_rest,
{
    let whole = digits + rest;
    assert(whole[digits.len() as int] == rest[0]);
    assert(whole[other_digits.len() as int] == (other_digits + other_rest)[other_digits.len() as int]);
    if digits.len() < other_digits.len() {
        assert(other_digits[digits.len() as int] == whole[digits.len() as int]);
    }
    if other_digits.len() < digits.len() {
        assert(digits[other_digits.len() as int] == whole[other_digits.len() as int]);
    }
    assert(digits =~= whole.subrange(0, digits.len() as int));
    assert(other_digits =~= whole.subrange(0, digits.len() as int));
    assert(rest =~= whole.subrange(digits.len() as int, whole.len() as int));
    assert(other_rest =~= whole.subrange(digits.len() as int, whole.len() as int));
}

/// Two fields after the same prefix, each up to something that is no digit, hold
/// the same number where the whole is equal, and so is what follows.
proof fn lemma_field(
    prefix: Seq<u8>,
    number: nat,
    other_number: nat,
    rest: Seq<u8>,
    other_rest: Seq<u8>,
)
    requires
        rest.len() > 0,
        other_rest.len() > 0,
        !(0x30 <= rest[0] <= 0x39),
        !(0x30 <= other_rest[0] <= 0x39),
        prefix + (decimal(number) + rest) == prefix + (decimal(other_number) + other_rest),
    ensures
        number == other_number,
        rest == other_rest,
{
    let whole = prefix + (decimal(number) + rest);
    assert(decimal(number) + rest =~= whole.subrange(prefix.len() as int, whole.len() as int));
    assert(decimal(other_number) + other_rest =~= whole.subrange(
        prefix.len() as int,
        whole.len() as int,
    ));
    law_decimal_reads_back(number);
    law_decimal_reads_back(other_number);
    lemma_digits_end_at_separator(decimal(number), decimal(other_number), rest, other_rest);
}

/// A report, grouped from the right.
spec fn grouped_report(code: nat, x: nat, y: nat, last: char) -> Seq<u8> {
    seq![ESC, '[' as u8, '<' as u8] + (decimal(code) + after_code(x, y, last))
}

spec fn after_code(x: nat, y: nat, last: char) -> Seq<u8> {
    seq![';' as u8] + (decimal(x) + after_x(y, last))
}

spec fn after_x(y: nat, last: char) -> Seq<u8> {
    seq![';' as u8] + (decimal(y) + seq![';' as u8, last as u8])
}

proof fn lemma_grouped_report(code: nat, x: nat, y: nat, last: char)
    ensures
        sgr_report(code as int, x as int, y as int, last) == grouped_report(code, x, y, last),
{
    assert(sgr_report(code as int, x as int, y as int, last) =~= grouped_report(code, x, y, last));
}

/// A report tells its reader everything that was put into it: equal reports
/// have the same button code, coordinates and final character.
pub proof fn law_report_is_unambiguous(
    code: nat,
    x: nat,
    y: nat,
    last: char,
    other_code: nat,
    other_x: nat,
    other_y: nat,
    other_last: char,
)
    requires
        last == 'M' || last == 'm',
        other_last == 'M' || other_last == 'm',
        sgr_report(code as int, x as int, y as int, last) == sgr_report(
            other_code as int,
            other_x as int,
            other_y as int,
            other_last,
        ),
    ensures
        code == other_code,
        x == other_x,
        y == other_y,
        last == other_last,
{
    lemma_grouped_report(code, x, y, last);
    lemma_grouped_report(other_code, other_x, other_y, other_last);
    lemma_field(
        seq![ESC, '[' as u8, '<' as u8],
        code,
        other_code,
        after_code(x, y, last),
        after_code(other_x, other_y, other_last),
    );
    lemma_field(
        seq![';' as u8],
        x,
        other_x,
        after_x(y, last),
        after_x(other_y, other_last),
    );
    let end = seq![';' as u8, last as u8];
    let other_end = seq![';' as u8, other_last as u8];
    lemma_field(seq![';' as u8], y, other_y, end, other_end);
    assert(end[1] == other_end[1]);
}

/// Two events reported with the same bytes are of the same sort and happened at
/// the same place; only the last coordinate reads like the one before it.
pub proof fn law_report_tells_position(
    event: MouseEvent,
    other: MouseEvent,
    mode: MouseMode,
    other_mode: MouseMode,
    mods: KeyModifiers,
    other_mods: KeyModifiers,
)
    requires
        mouse_bytes(event, mode, mods) is Some,
        mouse_bytes(event, mode, mods) == mouse_bytes(other, other_mode, other_mods),
    ensures
        event.column == other.column || event.column >= u16::MAX - 1 && other.column >= u16::MAX
            - 1,
        event.row == other.row || event.row >= u16::MAX - 1 && other.row >= u16::MAX - 1,
        report_head(event.kind, mode, mods) == report_head(other.kind, other_mode, other_mods),
{
    let (code, last) = report_head(event.kind, mode, mods)->0;
    let (other_code, other_last) = report_head(other.kind, other_mode, other_mods)->0;
    law_report_is_unambiguous(
        code as nat,
        one_based(event.column) as nat,
        one_based(event.row) as nat,
        last,
        other_code as nat,
        one_based(other.column) as nat,
        one_based(other.row) as nat,
        other_last,
    );
}

} // verus!
