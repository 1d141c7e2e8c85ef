//! What a reader finds in a mouse report.
use crate::encoding::{
    all_digits, decimal, decimal_value, law_decimal_has_no_leading_zero, law_decimal_reads_back,
};
use crate::input::{
    KeyModifiers, MouseButton, MouseEvent, MouseEventKind, MouseMode, ALT, CONTROL, SHIFT,
};
use crate::mouse::{
    button_number, modifier_number, mouse_bytes, one_based, report_head, sgr_report,
};
use vstd::prelude::*;

verus! {

/// The modifiers take three bits of a button code, above the two lowest: the
/// first is set exactly for shift, the second for alt, the third for control.
pub proof fn law_modifier_number_bit_by_bit(mods: KeyModifiers)
    ensures
        0 <= modifier_number(mods) < 32,
        modifier_number(mods) % 4 == 0,
        (modifier_number(mods) / 4) % 2 == 1 <==> mods.has(SHIFT),
        (modifier_number(mods) / 8) % 2 == 1 <==> mods.has(ALT),
        (modifier_number(mods) / 16) % 2 == 1 <==> mods.has(CONTROL),
{
}

/// The buttons are numbered from the left.
pub proof fn law_buttons_from_the_left(button: MouseButton)
    ensures
        button_number(button) == 0 <==> button == MouseButton::Left,
        button_number(button) == 1 <==> button == MouseButton::Middle,
        button_number(button) == 2 <==> button == MouseButton::Right,
{
}

/// The fields of a text between its semicolons.
pub open spec fn fields(s: Seq<u8>) -> Seq<Seq<u8>>
    decreases s.len(),
{
    if s.len() == 0 {
        seq![seq![]]
    } else {
        let before = fields(s.drop_last());
        if s.last() == ';' as u8 {
            before.push(seq![])
        } else {
            before.update(before.len() - 1, before.last().push(s.last()))
        }
    }
}

/// Text without a semicolon belongs to the last field.
proof fn lemma_fields_extend(s: Seq<u8>, text: Seq<u8>)
    requires
        forall|i: int| 0 <= i < text.len() ==> #[trigger] text[i] != ';' as u8,
    ensures
        fields(s).len() > 0,
        fields(s + text) == fields(s).update(fields(s).len() - 1, fields(s).last() + text),
    decreases text.len(), s.len(),
{
    if text.len() == 0 {
        if s.len() > 0 {
            lemma_fields_extend(s.drop_last(), text);
        }
        assert(s + text =~= s);
        assert(fields(s).last() + text =~= fields(s).last());
        assert(fields(s + text) =~= fields(s).update(
            fields(s).len() - 1,
            fields(s).last() + text,
        ));
    } else {
        let rest = text.drop_last();
        assert forall|i: int| 0 <= i < rest.len() implies #[trigger] rest[i] != ';' as u8 by {
            assert(rest[i] == text[i]);
        }
        lemma_fields_extend(s, rest);
        assert((s + text).drop_last() =~= s + rest);
        assert((s + text).last() == text[text.len() - 1]);
        assert((fields(s).last() + rest).push(text.last()) =~= fields(s).last() + text);
        assert(fields(s + text) =~= fields(s).update(
            fields(s).len() - 1,
            fields(s).last() + text,
        ));
    }
}

/// A semicolon starts a field.
proof fn lemma_fields_separator(s: Seq<u8>)
    ensures
        fields(s + seq![';' as u8]) == fields(s).push(seq![]),
{
    assert((s + seq![';' as u8]).drop_last() =~= s);
}

/// One more field of digits after a semicolon.
proof fn lemma_fields_number(s: Seq<u8>, number: nat)
    ensures
        fields(s + seq![';' as u8] + decimal(number)) == fields(s).push(decimal(number)),
{
    law_decimal_reads_back(number);
    lemma_fields_separator(s);
    lemma_fields_extend(s + seq![';' as u8], decimal(number));
    assert(Seq::<u8>::empty() + decimal(number) =~= decimal(number));
    assert(fields(s + seq![';' as u8] + decimal(number)) =~= fields(s).push(decimal(number)));
}

proof fn lemma_fields_of_report(code: nat, x: nat, y: nat, last: char)
    requires
        last == 'M' || last == 'm',
    ensures
        ({
            let report = sgr_report(code as int, x as int, y as int, last);
            &&& report.len() > 3
            &&& report[0] == 0x1B && report[1] == 0x5B && report[2] == 0x3C
            &&& fields(report.subrange(3, report.len() as int)) == seq![
                decimal(code),
                decimal(x),
                decimal(y),
                seq![last as u8],
            ]
        }),
{
    let report = sgr_report(code as int, x as int, y as int, last);
    let sep = seq![';' as u8];
    let end = seq![last as u8];
    let none = Seq::<u8>::empty();
    let one = decimal(code);
    let two = one + sep + decimal(x);
    let three = two + sep + decimal(y);
    law_decimal_reads_back(code);
    lemma_fields_extend(none, one);
    assert(none + one =~= one);
    assert(fields(one) =~= seq![one]);
    lemma_fields_number(one, x);
    lemma_fields_number(two, y);
    lemma_fields_separator(three);
    lemma_fields_extend(three + sep, end);
    assert(none + end =~= end);
    assert(report.subrange(3, report.len() as int) =~= three + sep + end);
    assert(fields(three + sep + end) =~= seq![one, decimal(x), decimal(y), end]);
}

/// What a reader finds in a report: after `ESC [ <`, four fields between
/// semicolons. The first is the button code, the second the column and the third
/// the row, in decimal digits and counted from one, where the last coordinate
/// stays as it is; the fourth is the letter `M` for a press or the wheel, and
/// `m` for a release, a drag or a motion.
pub proof fn law_report_fields(event: MouseEvent, mode: MouseMode, mods: KeyModifiers)
    requires
        mouse_bytes(event, mode, mods) is Some,
    ensures
        ({
            let report = mouse_bytes(event, mode, mods)->0;
            let found = fields(report.subrange(3, report.len() as int));
            let wheel = event.kind is ScrollUp || event.kind is ScrollDown
                || event.kind is ScrollLeft || event.kind is ScrollRight;
            &&& report.len() > 3
            &&& report[0] == 0x1B && report[1] == 0x5B && report[2] == 0x3C
            &&& found.len() == 4
            &&& forall|i: int| 0 <= i < 3 ==> all_digits(#[trigger] found[i])
            &&& decimal_value(found[1]) == if event.column == 65535 {
                65535int
            } else {
                event.column + 1
            }
            &&& decimal_value(found[2]) == if event.row == 65535 {
                65535int
            } else {
                event.row + 1
            }
            &&& event.kind is Down || wheel ==> found[3] == seq![0x4Du8]
            &&& event.kind is Up || event.kind is Drag || event.kind is Moved ==> found[3]
                == seq![0x6Du8]
        }),
{
    let (code, last) = report_head(event.kind, mode, mods)->0;
    let x = one_based(event.column) as nat;
    let y = one_based(event.row) as nat;
    lemma_fields_of_report(code as nat, x, y, last);
    law_decimal_reads_back(code as nat);
    law_decimal_reads_back(x);
    law_decimal_reads_back(y);
}

/// The bits of a button code.
spec fn code_describes(code: int, kind: MouseEventKind, mods: KeyModifiers) -> bool {
    let held = !(kind is Moved);
    let wheel = kind is ScrollUp || kind is ScrollDown || kind is ScrollLeft
        || kind is ScrollRight;
    &&& 0 <= code < 128
    &&& code % 4 == match kind {
        MouseEventKind::Down(MouseButton::Left) => 0int,
        MouseEventKind::Down(MouseButton::Middle) => 1,
        MouseEventKind::Down(MouseButton::Right) => 2,
        MouseEventKind::Up(_) => 3,
        MouseEventKind::Drag(MouseButton::Left) => 0,
        MouseEventKind::Drag(MouseButton::Middle) => 1,
        MouseEventKind::Drag(MouseButton::Right) => 2,
        MouseEventKind::Moved => 3,
        MouseEventKind::ScrollUp => 0,
        MouseEventKind::ScrollDown => 1,
        MouseEventKind::ScrollLeft => 2,
        MouseEventKind::ScrollRight => 3,
    }
    &&& (code / 4) % 2 == 1 <==> held && mods.has(SHIFT)
    &&& (code / 8) % 2 == 1 <==> held && mods.has(ALT)
    &&& (code / 16) % 2 == 1 <==> held && mods.has(CONTROL)
    &&& (code / 32) % 2 == 1 <==> kind is Drag || kind is Moved
    &&& (code / 64) % 2 == 1 <==> wheel
}

proof fn lemma_report_head_code(kind: MouseEventKind, mode: MouseMode, mods: KeyModifiers)
    requires
        report_head(kind, mode, mods) is Some,
    ensures
        code_describes((report_head(kind, mode, mods)->0).0, kind, mods),
{
}

/// The button code that a reader finds in the first field. Its two lowest bits
/// tell the button, 3 for none; the next three the modifiers, which a motion
/// leaves out; then one bit is set exactly for a drag or a motion, and one for
/// the wheel, whose directions are up, down, left and right.
pub proof fn law_report_button_code(event: MouseEvent, mode: MouseMode, mods: KeyModifiers)
    requires
        mouse_bytes(event, mode, mods) is Some,
    ensures
        ({
            let report = mouse_bytes(event, mode, mods)->0;
            let code = decimal_value(fields(report.subrange(3, report.len() as int))[0]);
            let held = !(event.kind is Moved);
            let wheel = event.kind is ScrollUp || event.kind is ScrollDown
                || event.kind is ScrollLeft || event.kind is ScrollRight;
            &&& 0 <= code < 128
            &&& code % 4 == match event.kind {
                MouseEventKind::Down(MouseButton::Left) => 0int,
                MouseEventKind::Down(MouseButton::Middle) => 1,
                MouseEventKind::Down(MouseButton::Right) => 2,
                MouseEventKind::Up(_) => 3,
                MouseEventKind::Drag(MouseButton::Left) => 0,
                MouseEventKind::Drag(MouseButton::Middle) => 1,
                MouseEventKind::Drag(MouseButton::Right) => 2,
                MouseEventKind::Moved => 3,
                MouseEventKind::ScrollUp => 0,
                MouseEventKind::ScrollDown => 1,
                MouseEventKind::ScrollLeft => 2,
                MouseEventKind::ScrollRight => 3,
            }
            &&& (code / 4) % 2 == 1 <==> held && mods.has(SHIFT)
            &&& (code / 8) % 2 == 1 <==> held && mods.has(ALT)
            &&& (code / 16) % 2 == 1 <==> held && mods.has(CONTROL)
            &&& (code / 32) % 2 == 1 <==> event.kind is Drag || event.kind is Moved
            &&& (code / 64) % 2 == 1 <==> wheel
        }),
{
    let (code, last) = report_head(event.kind, mode, mods)->0;
    let x = one_based(event.column) as nat;
    let y = one_based(event.row) as nat;
    lemma_fields_of_report(code as nat, x, y, last);
    law_decimal_reads_back(code as nat);
    lemma_report_head_code(event.kind, mode, mods);
    let report = mouse_bytes(event, mode, mods)->0;
    assert(decimal_value(fields(report.subrange(3, report.len() as int))[0]) == code);
}

/// The fields of a report are written with as few digits as they need: none
/// starts with a zero. So the report is the shortest text with these fields.
pub proof fn law_report_has_no_leading_zeros(
    event: MouseEvent,
    mode: MouseMode,
    mods: KeyModifiers,
    i: int,
)
    requires
        mouse_bytes(event, mode, mods) is Some,
        0 <= i < 3,
    ensures
        ({
            let report = mouse_bytes(event, mode, mods)->0;
            let field = fields(report.subrange(3, report.len() as int))[i];
            &&& field.len() > 0
            &&& field.len() > 1 ==> field[0] != 0x30
        }),
{
    let (code, last) = report_head(event.kind, mode, mods)->0;
    let x = one_based(event.column) as nat;
    let y = one_based(event.row) as nat;
    lemma_fields_of_report(code as nat, x, y, last);
    law_decimal_has_no_leading_zero(code as nat);
    law_decimal_has_no_leading_zero(x);
    law_decimal_has_no_leading_zero(y);
}

/// What is sent for an event does not depend on the mode, where it is sent, nor
/// on the modifiers recorded in the event, only on those given.
pub proof fn law_report_depends_on_event_and_modifiers(
    event: MouseEvent,
    other: MouseEvent,
    mode: MouseMode,
    other_mode: MouseMode,
    mods: KeyModifiers,
)
    requires
        event.kind == other.kind,
        event.column == other.column,
        event.row == other.row,
        mouse_bytes(event, mode, mods) is Some,
        mouse_bytes(other, other_mode, mods) is Some,
    ensures
        mouse_bytes(event, mode, mods) == mouse_bytes(other, other_mode, mods),
{
}

} // verus!
