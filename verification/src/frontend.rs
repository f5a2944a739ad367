use vstd::prelude::*;

verus! {

/// The eight keys of the console.
#[derive(Clone, Copy, Debug, PartialEq, Eq, Structural)]
pub enum KeyCode {
    Up,
    Down,
    Left,
    Right,
    A,
    B,
    Start,
    Select,
}

/// What a frontend can ask of the core.
#[derive(Clone, Debug)]
pub enum Event {
    KeyDown(Vec<KeyCode>),
    KeyUp(Vec<KeyCode>),
    LoadFile(String),
    SaveState(String),
    LoadState(String),
    Run,
    Pause,
    Reset,
    Exit,
}

/// A host that shows frames and supplies input.
pub trait Frontend {
    /// Presents one frame of 160 by 144 pixels in row-major order.
    fn draw(&self, buffer: &[u32]);

    /// Hands over the next pending event.
    fn get_input(&self) -> Event;
}

} // verus!
