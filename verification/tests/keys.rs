use mosh_client::encoding::{encode_utf8_char, push_decimal};
use mosh_client::input::{
    KeyCode, KeyEvent, KeyEventKind, KeyModifiers, ALT, CONTROL, SHIFT,
};
use mosh_client::keys::{encode_ctrl_char, handle_key_event, is_command_key, MOSH_COMMAND_KEY};

const NONE: u8 = 0;

fn key(code: KeyCode, modifiers: u8, kind: KeyEventKind) -> KeyEvent {
    KeyEvent { code, modifiers: KeyModifiers { bits: modifiers }, kind }
}

fn press(code: KeyCode, modifiers: u8) -> Option<Vec<u8>> {
    handle_key_event(&key(code, modifiers, KeyEventKind::Press))
}

#[test]
fn test_ignores_key_release_events() {
    let release = key(KeyCode::Char('a'), NONE, KeyEventKind::Release);
    assert!(handle_key_event(&release).is_none());
}

#[test]
fn test_accepts_press_and_repeat() {
    let press = key(KeyCode::Char('a'), NONE, KeyEventKind::Press);
    let repeat = key(KeyCode::Char('a'), NONE, KeyEventKind::Repeat);
    assert!(matches!(handle_key_event(&press), Some(v) if v == b"a"));
    assert!(matches!(handle_key_event(&repeat), Some(v) if v == b"a"));
}

#[test]
fn test_alt_prefixes_escape() {
    let alt_x = key(KeyCode::Char('x'), ALT, KeyEventKind::Press);
    assert!(matches!(handle_key_event(&alt_x), Some(v) if v == b"\x1Bx"));
}

#[test]
fn test_ctrl_alt_char_is_treated_as_altgr_literal() {
    let altgr_slash = key(KeyCode::Char('/'), CONTROL | ALT, KeyEventKind::Press);
    assert!(matches!(handle_key_event(&altgr_slash), Some(v) if v == b"/"));
}

#[test]
fn test_ctrl_c_is_sent_to_remote() {
    let ctrl_c = key(KeyCode::Char('c'), CONTROL, KeyEventKind::Press);
    assert!(matches!(handle_key_event(&ctrl_c), Some(v) if v == vec![0x03]));
}

#[test]
fn test_ctrl_digit_mappings_match_terminal_conventions() {
    let ctrl_2 = key(KeyCode::Char('2'), CONTROL, KeyEventKind::Press);
    let ctrl_3 = key(KeyCode::Char('3'), CONTROL, KeyEventKind::Press);
    assert!(matches!(handle_key_event(&ctrl_2), Some(v) if v == vec![0x00]));
    assert!(matches!(handle_key_event(&ctrl_3), Some(v) if v == vec![0x1B]));
}

#[test]
fn test_command_key_detection() {
    let cmd = key(KeyCode::Char('6'), CONTROL, KeyEventKind::Press);
    let normal = key(KeyCode::Char('6'), NONE, KeyEventKind::Press);
    assert!(is_command_key(&cmd));
    assert!(!is_command_key(&normal));
}

#[test]
fn modifier_bits_are_those_of_crossterm() {
    assert_eq!(SHIFT, crossterm::event::KeyModifiers::SHIFT.bits());
    assert_eq!(CONTROL, crossterm::event::KeyModifiers::CONTROL.bits());
    assert_eq!(ALT, crossterm::event::KeyModifiers::ALT.bits());
}

#[test]
fn contains_asks_for_every_bit() {
    for bits in 0..=u8::MAX {
        for mask in [NONE, SHIFT, CONTROL, ALT, CONTROL | ALT, 0x20, 0x80, 0xFF] {
            let expected = bits & mask == mask;
            assert_eq!(KeyModifiers { bits }.contains(mask), expected, "{bits:#x} {mask:#x}");
        }
    }
    assert!(!KeyModifiers { bits: CONTROL }.contains(ALT));
    assert!(!KeyModifiers { bits: CONTROL }.contains(CONTROL | ALT));
    assert!(KeyModifiers { bits: CONTROL | SHIFT }.contains(SHIFT));
}

#[test]
fn command_key_also_by_its_caret_and_with_alt() {
    assert!(is_command_key(&key(KeyCode::Char('^'), CONTROL, KeyEventKind::Press)));
    assert!(is_command_key(&key(KeyCode::Char('6'), CONTROL | ALT, KeyEventKind::Press)));
    assert!(is_command_key(&key(KeyCode::Char('6'), CONTROL, KeyEventKind::Release)));
    assert!(!is_command_key(&key(KeyCode::Char('^'), SHIFT, KeyEventKind::Press)));
    assert!(!is_command_key(&key(KeyCode::Char('7'), CONTROL, KeyEventKind::Press)));
    assert!(!is_command_key(&key(KeyCode::F(6), CONTROL, KeyEventKind::Press)));
}

#[test]
fn command_key_encodes_as_the_command_byte() {
    assert_eq!(press(KeyCode::Char('6'), CONTROL), Some(vec![MOSH_COMMAND_KEY]));
    assert_eq!(press(KeyCode::Char('^'), CONTROL), Some(vec![MOSH_COMMAND_KEY]));
}

#[test]
fn control_bytes_of_letters_and_punctuation() {
    assert_eq!(encode_ctrl_char(b'a'), Some(0x01));
    assert_eq!(encode_ctrl_char(b'Z'), Some(0x1A));
    assert_eq!(encode_ctrl_char(b'z'), Some(0x1A));
    for c in [b' ', b'2', b'@'] {
        assert_eq!(encode_ctrl_char(c), Some(0x00));
    }
    assert_eq!(encode_ctrl_char(b'['), Some(0x1B));
    assert_eq!(encode_ctrl_char(b'4'), Some(0x1C));
    assert_eq!(encode_ctrl_char(b'\\'), Some(0x1C));
    assert_eq!(encode_ctrl_char(b'5'), Some(0x1D));
    assert_eq!(encode_ctrl_char(b']'), Some(0x1D));
    assert_eq!(encode_ctrl_char(b'6'), Some(0x1E));
    assert_eq!(encode_ctrl_char(b'^'), Some(0x1E));
    assert_eq!(encode_ctrl_char(b'7'), Some(0x1F));
    assert_eq!(encode_ctrl_char(b'_'), Some(0x1F));
    assert_eq!(encode_ctrl_char(b'8'), Some(0x7F));
    assert_eq!(encode_ctrl_char(b'?'), Some(0x7F));
    for c in [b'0', b'1', b'9', b'/', b'`', b'{', 0x00, 0x7F, 0x80, 0xE1] {
        assert_eq!(encode_ctrl_char(c), None);
    }
}

#[test]
fn caret_notation() {
    for b in (0x00..=0x1Fu8).chain([0x7F]) {
        assert_eq!(encode_ctrl_char(b ^ 0x40), Some(b));
    }
}

#[test]
fn control_leaves_keys_without_a_control_byte() {
    assert_eq!(press(KeyCode::Char('/'), CONTROL), Some(b"/".to_vec()));
    assert_eq!(press(KeyCode::Char('\u{e9}'), CONTROL), Some("\u{e9}".as_bytes().to_vec()));
    assert_eq!(press(KeyCode::Up, CONTROL), Some(b"\x1BOA".to_vec()));
}

#[test]
fn named_keys() {
    let expected: Vec<(KeyCode, &[u8])> = vec![
        (KeyCode::Enter, b"\x0D"),
        (KeyCode::Backspace, b"\x7F"),
        (KeyCode::Tab, b"\x09"),
        (KeyCode::BackTab, b"\x1B[Z"),
        (KeyCode::Esc, b"\x1B"),
        (KeyCode::Up, b"\x1BOA"),
        (KeyCode::Down, b"\x1BOB"),
        (KeyCode::Right, b"\x1BOC"),
        (KeyCode::Left, b"\x1BOD"),
        (KeyCode::Home, b"\x1BOH"),
        (KeyCode::End, b"\x1BOF"),
        (KeyCode::PageUp, b"\x1B[5~"),
        (KeyCode::PageDown, b"\x1B[6~"),
        (KeyCode::Insert, b"\x1B[2~"),
        (KeyCode::Delete, b"\x1B[3~"),
        (KeyCode::F(1), b"\x1BOP"),
        (KeyCode::F(2), b"\x1BOQ"),
        (KeyCode::F(3), b"\x1BOR"),
        (KeyCode::F(4), b"\x1BOS"),
        (KeyCode::F(5), b"\x1B[15~"),
        (KeyCode::F(6), b"\x1B[17~"),
        (KeyCode::F(7), b"\x1B[18~"),
        (KeyCode::F(8), b"\x1B[19~"),
        (KeyCode::F(9), b"\x1B[20~"),
        (KeyCode::F(10), b"\x1B[21~"),
        (KeyCode::F(11), b"\x1B[23~"),
        (KeyCode::F(12), b"\x1B[24~"),
    ];
    for (code, bytes) in expected {
        assert_eq!(press(code, NONE), Some(bytes.to_vec()), "{code:?}");
        assert_eq!(handle_key_event(&key(code, NONE, KeyEventKind::Release)), None);
    }
}

#[test]
fn keys_without_an_encoding() {
    assert_eq!(press(KeyCode::Unmapped, NONE), None);
    assert_eq!(press(KeyCode::Unmapped, ALT), None);
    assert_eq!(press(KeyCode::F(0), NONE), None);
    assert_eq!(press(KeyCode::F(13), NONE), None);
    assert_eq!(press(KeyCode::F(255), NONE), None);
}

#[test]
fn alt_on_named_keys() {
    assert_eq!(press(KeyCode::Up, ALT), Some(b"\x1B\x1BOA".to_vec()));
    assert_eq!(press(KeyCode::Up, CONTROL | ALT), Some(b"\x1B\x1BOA".to_vec()));
    assert_eq!(press(KeyCode::Esc, CONTROL | ALT), Some(b"\x1B".to_vec()));
    assert_eq!(press(KeyCode::Enter, ALT), Some(b"\x1B\x0D".to_vec()));
    assert_eq!(press(KeyCode::Esc, ALT), Some(b"\x1B".to_vec()));
}

#[test]
fn alt_gr_letter_is_not_a_control_byte() {
    assert_eq!(press(KeyCode::Char('c'), CONTROL | ALT), Some(b"c".to_vec()));
    assert_eq!(press(KeyCode::Char('\u{20ac}'), CONTROL | ALT), Some("\u{20ac}".as_bytes().to_vec()));
}

#[test]
fn characters_are_utf8() {
    for c in ['\0', 'a', '\u{7f}', '\u{80}', '\u{7ff}', '\u{800}', '\u{d7ff}', '\u{e000}', '\u{ffff}', '\u{10000}', '\u{1f600}', '\u{10ffff}'] {
        assert_eq!(encode_utf8_char(c), c.to_string().into_bytes(), "{c:?}");
        assert_eq!(press(KeyCode::Char(c), NONE), Some(c.to_string().into_bytes()));
    }
}

#[test]
fn decimal_digits() {
    for n in [0u16, 7, 9, 10, 99, 100, 1000, 65535] {
        let mut out = vec![b'x'];
        push_decimal(&mut out, n);
        assert_eq!(out, format!("x{n}").into_bytes());
    }
}
