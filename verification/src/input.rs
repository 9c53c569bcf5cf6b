//! The held-direction register read once per frame by the input system.
//!
//! Host keyboard callbacks set and clear directions; only the latest
//! held/not-held state of each direction survives until the next frame.

use vstd::prelude::*;

verus! {

/// One of the four logical directions a key can be mapped to.
#[derive(Clone, Copy, Debug, PartialEq, Eq, Structural)]
pub enum Direction {
    Up,
    Down,
    Left,
    Right,
}

/// Key code for the Up direction (the W key).
pub const KEY_UP: u32 = 87;

/// Key code for the Down direction (the S key).
pub const KEY_DOWN: u32 = 83;

/// Key code for the Left direction (the A key).
pub const KEY_LEFT: u32 = 65;

/// Key code for the Right direction (the D key).
pub const KEY_RIGHT: u32 = 68;

/// The direction a raw key code maps to, if any. Unmapped codes are ignored
/// by the frame driver.
pub open spec fn key_direction(code: u32) -> Option<Direction> {
    if code == KEY_UP {
        Some(Direction::Up)
    } else if code == KEY_DOWN {
        Some(Direction::Down)
    } else if code == KEY_LEFT {
        Some(Direction::Left)
    } else if code == KEY_RIGHT {
        Some(Direction::Right)
    } else {
        None
    }
}

/// Maps a raw key code to its logical direction through the fixed table
/// W -> Up, S -> Down, A -> Left, D -> Right.
pub fn direction_for_key(code: u32) -> (r: Option<Direction>)
    ensures
        r == key_direction(code),
{
    if code == KEY_UP {
        Some(Direction::Up)
    } else if code == KEY_DOWN {
        Some(Direction::Down)
    } else if code == KEY_LEFT {
        Some(Direction::Left)
    } else if code == KEY_RIGHT {
        Some(Direction::Right)
    } else {
        None
    }
}

/// Which directions are currently held. A plain value owned by the frame
/// driver and passed by reference into the input system each tick.
#[derive(Clone, Copy, Debug, PartialEq, Eq, Structural)]
pub struct InputState {
    pub up: bool,
    pub down: bool,
    pub left: bool,
    pub right: bool,
}

impl InputState {
    /// Whether direction `d` is held in this state.
    pub open spec fn holds(self, d: Direction) -> bool {
        match d {
            Direction::Up => self.up,
            Direction::Down => self.down,
            Direction::Left => self.left,
            Direction::Right => self.right,
        }
    }

    /// Whether no direction at all is held.
    pub open spec fn none_held(self) -> bool {
        !self.up && !self.down && !self.left && !self.right
    }

    /// This state with direction `d` held.
    pub open spec fn press(self, d: Direction) -> InputState {
        match d {
            Direction::Up => (InputState { up: true, ..self }),
            Direction::Down => (InputState { down: true, ..self }),
            Direction::Left => (InputState { left: true, ..self }),
            Direction::Right => (InputState { right: true, ..self }),
        }
    }

    /// This state with direction `d` released.
    pub open spec fn release(self, d: Direction) -> InputState {
        match d {
            Direction::Up => (InputState { up: false, ..self }),
            Direction::Down => (InputState { down: false, ..self }),
            Direction::Left => (InputState { left: false, ..self }),
            Direction::Right => (InputState { right: false, ..self }),
        }
    }

    /// A state with no direction held.
    pub fn new() -> (r: InputState)
        ensures
            r == (InputState { up: false, down: false, left: false, right: false }),
    {
        InputState { up: false, down: false, left: false, right: false }
    }

    /// Marks direction `d` as held (key-down).
    pub fn set(&mut self, d: Direction)
        ensures
            *final(self) == old(self).press(d),
    {
        match d {
            Direction::Up => self.up = true,
            Direction::Down => self.down = true,
            Direction::Left => self.left = true,
            Direction::Right => self.right = true,
        }
    }

    /// Marks direction `d` as released (key-up).
    pub fn clear(&mut self, d: Direction)
        ensures
            *final(self) == old(self).release(d),
    {
        match d {
            Direction::Up => self.up = false,
            Direction::Down => self.down = false,
            Direction::Left => self.left = false,
            Direction::Right => self.right = false,
        }
    }

    /// Reads whether direction `d` is currently held.
    pub fn contains(&self, d: Direction) -> (r: bool)
        ensures
            r == self.holds(d),
    {
        match d {
            Direction::Up => self.up,
            Direction::Down => self.down,
            Direction::Left => self.left,
            Direction::Right => self.right,
        }
    }
}

} // verus!
