use vstd::prelude::*;

verus! {

/// A key as the editor tells keys apart.
#[derive(Debug, Clone, Copy, PartialEq, Eq, Structural)]
pub enum KeyCode {
    Char(char),
    Enter,
    Esc,
    Backspace,
    Delete,
    Left,
    Right,
    Up,
    Down,
    Tab,
    BackTab,
    Home,
    End,
    PageUp,
    PageDown,
    Insert,
    F(u8),
    /// Any other key the terminal reports.
    Other,
}

/// The modifier keys held during an event.
#[derive(Debug, Clone, Copy, PartialEq, Eq, Structural)]
pub struct KeyModifiers {
    pub shift: bool,
    pub control: bool,
    pub alt: bool,
}

impl KeyModifiers {
    /// No modifier held.
    pub fn none() -> (m: Self)
        ensures
            !m.shift && !m.control && !m.alt,
    {
        KeyModifiers { shift: false, control: false, alt: false }
    }
}

/// A mouse button.
#[derive(Debug, Clone, Copy, PartialEq, Eq, Structural)]
pub enum MouseButton {
    Left,
    Right,
    Middle,
}

/// What kind of mouse event occurred.
#[derive(Debug, Clone, Copy, PartialEq, Eq, Structural)]
pub enum MouseEventKind {
    Down(MouseButton),
    Up(MouseButton),
    Drag(MouseButton),
    Moved,
    ScrollDown,
    ScrollUp,
    ScrollLeft,
    ScrollRight,
}

/// A mouse event at a screen (or canvas) cell.
#[derive(Debug, Clone, Copy, PartialEq, Eq, Structural)]
pub struct MouseEvent {
    pub column: u16,
    pub row: u16,
    pub kind: MouseEventKind,
    pub modifiers: KeyModifiers,
}

impl MouseEvent {
    /// The same event at other coordinates.
    pub fn with_coords(&self, column: u16, row: u16) -> (r: Self)
        ensures
            r == (MouseEvent { column, row, kind: self.kind, modifiers: self.modifiers }),
    {
        MouseEvent { column, row, kind: self.kind, modifiers: self.modifiers }
    }

    /// Whether Shift was held.
    pub fn is_shift(&self) -> (r: bool)
        ensures
            r == self.modifiers.shift,
    {
        self.modifiers.shift
    }
}

/// A key press with its modifiers.
#[derive(Debug, Clone, Copy, PartialEq, Eq, Structural)]
pub struct KeyEvent {
    pub code: KeyCode,
    pub modifiers: KeyModifiers,
}

impl KeyEvent {
    /// A key press without modifiers.
    pub fn new(code: KeyCode) -> (e: Self)
        ensures
            e.code == code,
            !e.modifiers.shift && !e.modifiers.control && !e.modifiers.alt,
    {
        KeyEvent { code, modifiers: KeyModifiers::none() }
    }
}

} // verus!
