//! The vocabulary of the terminal UI: events, key codes, attributes and
//! style values that components are configured with.

use vstd::prelude::*;

pub mod playlist;

verus! {

/// Horizontal alignment of rendered text.
#[derive(Clone, Copy, Debug, PartialEq, Eq, Structural)]
pub enum Alignment {
    Left,
    Center,
    Right,
}

/// The terminal colors this interface uses; `Reset` is the terminal's own
/// default color.
#[derive(Clone, Copy, Debug, PartialEq, Eq, Structural)]
pub enum Color {
    Reset,
    Black,
    Cyan,
}

/// The empty text-modifier bitset.
pub const MODIFIERS_EMPTY: u16 = 0;

/// The bold text modifier.
pub const MODIFIER_BOLD: u16 = 1;

/// Border line styles a block can be drawn with.
#[derive(Clone, Copy, Debug, PartialEq, Eq, Structural)]
pub enum BorderType {
    Plain,
    Rounded,
    Double,
    Thick,
}

/// The bitset selecting all four sides of a block's border.
pub const BORDER_SIDES_ALL: u8 = 0b1111;

/// The border configuration of a block: which sides are drawn, in which
/// line style, and in which color.
#[derive(Clone, Copy, Debug, PartialEq, Eq, Structural)]
pub struct Borders {
    pub sides: u8,
    pub line: BorderType,
    pub color: Color,
}

/// The empty key-modifier bitset: a plain keystroke.
pub const KEY_MODIFIERS_NONE: u8 = 0;

/// The shift key modifier.
pub const KEY_MODIFIER_SHIFT: u8 = 1;

/// The control key modifier.
pub const KEY_MODIFIER_CONTROL: u8 = 2;

/// The alt key modifier.
pub const KEY_MODIFIER_ALT: u8 = 4;

/// The key codes the interface distinguishes.
#[derive(Clone, Copy, Debug, PartialEq, Eq, Structural)]
pub enum Key {
    Backspace,
    Enter,
    Esc,
    Tab,
    Up,
    Down,
    Left,
    Right,
    Char(char),
}

/// One keyboard event: a key code together with its modifier bitset.
#[derive(Clone, Copy, Debug, PartialEq, Eq, Structural)]
pub struct KeyEvent {
    pub code: Key,
    pub modifiers: u8,
}

/// An event polled from the terminal during one tick.
#[derive(Clone, Copy, Debug, PartialEq, Eq, Structural)]
pub enum Event {
    Keyboard(KeyEvent),
    WindowResize(u16, u16),
    Tick,
}

/// The attributes a component's property bag can be configured with.
#[derive(Clone, Copy, Debug, PartialEq, Eq, Structural)]
pub enum Attribute {
    Title,
    TextAlign,
    Foreground,
    Background,
    TextProps,
    Value,
    Borders,
    Display,
    Focus,
}

/// A value for one attribute; each attribute accepts exactly one of these
/// shapes.
#[derive(Clone, Debug, PartialEq, Eq)]
pub enum AttrValue {
    Alignment(Alignment),
    Borders(Borders),
    Color(Color),
    Flag(bool),
    Str(String),
    TextModifiers(u16),
    Title(String, Alignment),
}

/// A command a component is asked to perform after translating an event.
#[derive(Clone, Copy, Debug, PartialEq, Eq, Structural)]
pub enum Cmd {
    Submit,
    Noop,
}

/// The result of performing a command; the playlist panel handles no
/// command yet, so nothing else is ever produced.
#[derive(Clone, Debug, PartialEq, Eq, Structural)]
pub enum CmdResult {
    Noop,
}

/// A single state value a component can expose.
#[derive(Clone, Debug, PartialEq, Eq)]
pub enum StateValue {
    Str(String),
}

/// The state a component exposes to its callers.
#[derive(Clone, Debug, PartialEq, Eq)]
pub enum State {
    One(StateValue),
}

} // verus!
