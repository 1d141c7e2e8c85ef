use mosh_client::input::{
    KeyModifiers, MouseButton, MouseEvent, MouseEventKind, MouseMode, ALT, CONTROL, SHIFT,
};
use mosh_client::mouse::{encode_sgr_mouse, modifier_mask, mouse_button_code};

fn report(kind: MouseEventKind, column: u16, row: u16, modifiers: u8, mode: MouseMode) -> Option<String> {
    let modifiers = KeyModifiers { bits: modifiers };
    let event = MouseEvent { kind, column, row, modifiers };
    encode_sgr_mouse(&event, mode, modifiers).map(|bytes| String::from_utf8(bytes).unwrap())
}

fn at_origin(kind: MouseEventKind, modifiers: u8) -> String {
    report(kind, 0, 0, modifiers, MouseMode::ButtonTracking).unwrap()
}

#[test]
fn presses_are_one_based() {
    let kind = MouseEventKind::Down(MouseButton::Left);
    assert_eq!(report(kind, 0, 0, 0, MouseMode::ButtonTracking).unwrap(), "\x1b[<0;1;1;M");
    assert_eq!(report(kind, 79, 23, 0, MouseMode::ButtonTracking).unwrap(), "\x1b[<0;80;24;M");
}

#[test]
fn buttons_and_wheel() {
    assert_eq!(at_origin(MouseEventKind::Down(MouseButton::Middle), 0), "\x1b[<1;1;1;M");
    assert_eq!(at_origin(MouseEventKind::Down(MouseButton::Right), 0), "\x1b[<2;1;1;M");
    assert_eq!(at_origin(MouseEventKind::Up(MouseButton::Left), 0), "\x1b[<3;1;1;m");
    assert_eq!(at_origin(MouseEventKind::Up(MouseButton::Right), 0), "\x1b[<3;1;1;m");
    assert_eq!(at_origin(MouseEventKind::Drag(MouseButton::Left), 0), "\x1b[<32;1;1;m");
    assert_eq!(at_origin(MouseEventKind::Drag(MouseButton::Right), 0), "\x1b[<34;1;1;m");
    assert_eq!(at_origin(MouseEventKind::ScrollUp, 0), "\x1b[<64;1;1;M");
    assert_eq!(at_origin(MouseEventKind::ScrollDown, 0), "\x1b[<65;1;1;M");
    assert_eq!(at_origin(MouseEventKind::ScrollLeft, 0), "\x1b[<66;1;1;M");
    assert_eq!(at_origin(MouseEventKind::ScrollRight, 0), "\x1b[<67;1;1;M");
}

#[test]
fn press_with_modifiers_and_release_at_the_origin() {
    let press = MouseEventKind::Down(MouseButton::Right);
    let pressed = report(press, 4, 9, SHIFT | CONTROL, MouseMode::AnyEventTracking);
    assert_eq!(pressed.unwrap(), "\x1b[<22;5;10;M");
    let release = MouseEventKind::Up(MouseButton::Left);
    assert_eq!(report(release, 0, 0, 0, MouseMode::Off).unwrap(), "\x1b[<3;1;1;m");
}

#[test]
fn modifiers_add_to_the_code() {
    let all = SHIFT | ALT | CONTROL;
    assert_eq!(at_origin(MouseEventKind::Down(MouseButton::Left), SHIFT), "\x1b[<4;1;1;M");
    assert_eq!(at_origin(MouseEventKind::Up(MouseButton::Left), all), "\x1b[<31;1;1;m");
    assert_eq!(at_origin(MouseEventKind::Drag(MouseButton::Middle), ALT), "\x1b[<41;1;1;m");
    assert_eq!(at_origin(MouseEventKind::ScrollRight, all), "\x1b[<95;1;1;M");
}

#[test]
fn motion_only_in_any_event_tracking() {
    let all = SHIFT | ALT | CONTROL;
    assert_eq!(report(MouseEventKind::Moved, 4, 6, 0, MouseMode::Off), None);
    assert_eq!(report(MouseEventKind::Moved, 4, 6, 0, MouseMode::ButtonTracking), None);
    let moved = report(MouseEventKind::Moved, 4, 6, all, MouseMode::AnyEventTracking);
    assert_eq!(moved.unwrap(), "\x1b[<35;5;7;m");
}

#[test]
fn buttons_are_reported_in_every_mode() {
    let kind = MouseEventKind::Down(MouseButton::Left);
    assert_eq!(report(kind, 1, 2, 0, MouseMode::Off).unwrap(), "\x1b[<0;2;3;M");
    assert_eq!(report(kind, 1, 2, 0, MouseMode::AnyEventTracking).unwrap(), "\x1b[<0;2;3;M");
}

#[test]
fn the_modifiers_given_count() {
    let event = MouseEvent {
        kind: MouseEventKind::ScrollUp,
        column: 0,
        row: 0,
        modifiers: KeyModifiers { bits: SHIFT },
    };
    let bytes = encode_sgr_mouse(&event, MouseMode::Off, KeyModifiers { bits: CONTROL });
    assert_eq!(bytes.unwrap(), b"\x1b[<80;1;1;M");
}

#[test]
fn last_coordinate_saturates() {
    let kind = MouseEventKind::Down(MouseButton::Left);
    let at = |c: u16| report(kind, c, c, 0, MouseMode::ButtonTracking).unwrap();
    assert_eq!(at(u16::MAX), "\x1b[<0;65535;65535;M");
    assert_eq!(at(u16::MAX - 1), "\x1b[<0;65535;65535;M");
    assert_eq!(at(u16::MAX - 2), "\x1b[<0;65534;65534;M");
}

#[test]
fn masks_and_codes() {
    assert_eq!(modifier_mask(KeyModifiers { bits: 0 }), 0);
    assert_eq!(modifier_mask(KeyModifiers { bits: SHIFT }), 4);
    assert_eq!(modifier_mask(KeyModifiers { bits: ALT }), 8);
    assert_eq!(modifier_mask(KeyModifiers { bits: CONTROL }), 16);
    assert_eq!(modifier_mask(KeyModifiers { bits: 0xFF }), 28);
    assert_eq!(modifier_mask(KeyModifiers { bits: 0xF8 }), 0);
    assert_eq!(mouse_button_code(MouseButton::Left), 0);
    assert_eq!(mouse_button_code(MouseButton::Middle), 1);
    assert_eq!(mouse_button_code(MouseButton::Right), 2);
}
