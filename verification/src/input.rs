//! Keyboard and mouse events, as plain values.
use vstd::prelude::*;

verus! {

/// Bit of a held shift key in [`KeyModifiers`].
pub const SHIFT: u8 = 0x01;

/// Bit of a held control key in [`KeyModifiers`].
pub const CONTROL: u8 = 0x02;

/// Bit of a held alt key in [`KeyModifiers`].
pub const ALT: u8 = 0x04;

/// The modifier keys that were held during an event, one bit each, in the
/// layout of `crossterm::event::KeyModifiers`.
#[derive(Debug, Clone, Copy, PartialEq, Eq, Structural)]
pub struct KeyModifiers {
    pub bits: u8,
}

/// Calls `crossterm::event::KeyModifiers::contains` on the flag sets with the
/// bits `bits` and `mask`, built by `from_bits_retain`, which keeps every bit.
/// Trusted: the answer is whether every bit of `mask` is also set in `bits`.
#[verifier::external_body]
fn flags_contain(bits: u8, mask: u8) -> (r: bool)
    ensures
        r == (bits & mask == mask),
{
    let held = crossterm::event::KeyModifiers::from_bits_retain(bits);
    held.contains(crossterm::event::KeyModifiers::from_bits_retain(mask))
}

impl KeyModifiers {
    /// Every modifier of `mask` is held.
    pub open spec fn has(self, mask: u8) -> bool {
        self.bits & mask == mask
    }

    /// Whether every modifier of `mask` is held.
    pub fn contains(&self, mask: u8) -> (r: bool)
        ensures
            r == self.has(mask),
    {
        flags_contain(self.bits, mask)
    }
}

/// The key of a keyboard event.
#[derive(Debug, Clone, Copy, PartialEq, Eq, Structural)]
pub enum KeyCode {
    Backspace,
    Enter,
    Left,
    Right,
    Up,
    Down,
    Home,
    End,
    PageUp,
    PageDown,
    Tab,
    BackTab,
    Delete,
    Insert,
    /// A function key, by its number.
    F(u8),
    /// A key that types a character.
    Char(char),
    Esc,
    /// A key that has no encoding of its own: lock, media, modifier keys and the like.
    Unmapped,
}

/// What happened to the key.
#[derive(Debug, Clone, Copy, PartialEq, Eq, Structural)]
pub enum KeyEventKind {
    Press,
    Repeat,
    Release,
}

/// A keyboard event.
#[derive(Debug, Clone, Copy, PartialEq, Eq, Structural)]
pub struct KeyEvent {
    pub code: KeyCode,
    pub modifiers: KeyModifiers,
    pub kind: KeyEventKind,
}

impl KeyEvent {
    /// The key went down or repeats; a release is not `down`.
    pub open spec fn down(self) -> bool {
        self.kind is Press || self.kind is Repeat
    }

    /// Whether the key went down or repeats.
    pub fn is_down(&self) -> (r: bool)
        ensures
            r == self.down(),
    {
        matches!(self.kind, KeyEventKind::Press | KeyEventKind::Repeat)
    }
}

/// A mouse button.
#[derive(Debug, Clone, Copy, PartialEq, Eq, Structural)]
pub enum MouseButton {
    Left,
    Right,
    Middle,
}

/// What the mouse did.
#[derive(Debug, Clone, Copy, PartialEq, Eq, Structural)]
pub enum MouseEventKind {
    Down(MouseButton),
    Up(MouseButton),
    /// Moved with the button held.
    Drag(MouseButton),
    /// Moved with no button held.
    Moved,
    ScrollDown,
    ScrollUp,
    ScrollLeft,
    ScrollRight,
}

/// A mouse event. Column and row count from zero.
#[derive(Debug, Clone, Copy, PartialEq, Eq, Structural)]
pub struct MouseEvent {
    pub kind: MouseEventKind,
    pub column: u16,
    pub row: u16,
    pub modifiers: KeyModifiers,
}

/// Which mouse events the remote terminal asked for.
#[derive(Debug, Clone, Copy, PartialEq, Eq, Structural)]
pub enum MouseMode {
    /// No mouse reporting.
    Off,
    /// Some reporting, but not of a mouse that moves with no button held.
    ButtonTracking,
    /// Reporting of every mouse event.
    AnyEventTracking,
}

/// A set of modifiers is held exactly if each of its bits is set among the bits
/// held. So a held set is held together with another exactly if both are, and
/// nothing is always held.
pub proof fn law_held_bit_by_bit(mods: KeyModifiers, mask: u8, other: u8)
    ensures
        mods.has(mask) <==> (forall|i: u8|
            i < 8 && (#[trigger] (mask >> i)) & 1 == 1 ==> (mods.bits >> i) & 1 == 1),
        mods.has(mask | other) <==> mods.has(mask) && mods.has(other),
        mods.has(0),
{
    let bits = mods.bits;
    if bits & mask == mask {
        assert forall|i: u8| i < 8 && (#[trigger] (mask >> i)) & 1 == 1 implies (bits >> i) & 1
            == 1 by {
            assert(i < 8 && bits & mask == mask && (mask >> i) & 1 == 1 ==> (bits >> i) & 1 == 1)
                by (bit_vector);
        }
    }
    if forall|i: u8|
        i < 8 && (#[trigger] (mask >> i)) & 1 == 1 ==> (bits >> i) & 1 == 1 {
        let kept = |i: u8| (mask >> i) & 1 == 1 ==> (bits >> i) & 1 == 1;
        assert(kept(0) && kept(1) && kept(2) && kept(3) && kept(4) && kept(5) && kept(6) && kept(
            7,
        ));
        assert(bits & mask == mask) by (bit_vector)
            requires
                (mask >> 0u8) & 1 == 1 ==> (bits >> 0u8) & 1 == 1,
                (mask >> 1u8) & 1 == 1 ==> (bits >> 1u8) & 1 == 1,
                (mask >> 2u8) & 1 == 1 ==> (bits >> 2u8) & 1 == 1,
                (mask >> 3u8) & 1 == 1 ==> (bits >> 3u8) & 1 == 1,
                (mask >> 4u8) & 1 == 1 ==> (bits >> 4u8) & 1 == 1,
                (mask >> 5u8) & 1 == 1 ==> (bits >> 5u8) & 1 == 1,
                (mask >> 6u8) & 1 == 1 ==> (bits >> 6u8) & 1 == 1,
                (mask >> 7u8) & 1 == 1 ==> (bits >> 7u8) & 1 == 1,
        ;
    }
    assert((bits & (mask | other) == mask | other) <==> (bits & mask == mask && bits & other
        == other)) by (bit_vector);
    assert(bits & 0 == 0) by (bit_vector);
}

/// Shift is the lowest bit, control the next, alt the one after that.
pub proof fn law_modifier_bits(mods: KeyModifiers)
    ensures
        mods.has(SHIFT) <==> mods.bits % 2 == 1,
        mods.has(CONTROL) <==> (mods.bits / 2) % 2 == 1,
        mods.has(ALT) <==> (mods.bits / 4) % 2 == 1,
{
    let bits = mods.bits;
    assert((bits & 1 == 1) <==> bits % 2 == 1) by (bit_vector);
    assert((bits & 2 == 2) <==> (bits / 2) % 2 == 1) by (bit_vector);
    assert((bits & 4 == 4) <==> (bits / 4) % 2 == 1) by (bit_vector);
}

/// A key event acts exactly if it is no release.
pub proof fn law_down_unless_released(event: KeyEvent)
    ensures
        event.down() <==> event.kind != KeyEventKind::Release,
{
}

} // verus!
