//! Per-tick input snapshots: the tri-state [`Input`] of one key or button,
//! the [`Mouse`] (three button slots, cursor position, wheel direction), and
//! the classification of a wheel delta into a [`MouseWheel`] direction.

use vstd::prelude::*;

verus! {

/// The state of one key or mouse button at the current tick.
#[derive(Debug, Clone, Copy, PartialEq, Eq, Structural)]
pub struct Input {
    /// The input went down on this tick.
    pub pressed: bool,
    /// The input is held down on this tick.
    pub held: bool,
    /// The input was let go on this tick.
    pub released: bool,
}

impl Input {
    /// A new [`Input`] with the given flags.
    pub fn new(pressed: bool, held: bool, released: bool) -> (r: Self)
        ensures
            r == (Input { pressed, held, released }),
    {
        Input { pressed, held, released }
    }

    /// An [`Input`] with every flag cleared.
    pub fn default() -> (r: Self)
        ensures
            r == (Input { pressed: false, held: false, released: false }),
    {
        Input { pressed: false, held: false, released: false }
    }

    /// True if any of the three flags is set.
    pub fn any(self) -> (r: bool)
        ensures
            r == (self.pressed || self.held || self.released),
    {
        self.pressed || self.held || self.released
    }
}

/// A mouse button.
#[derive(Debug, Clone, Copy, PartialEq, Eq, Structural)]
pub enum MouseBtn {
    /// The left click.
    Left,
    /// The right click.
    Right,
    /// The middle click (scroll wheel click).
    Middle,
}

/// The slot of a mouse button in [`Mouse::buttons`].
pub open spec fn btn_slot(btn: MouseBtn) -> int {
    match btn {
        MouseBtn::Left => 0,
        MouseBtn::Right => 1,
        MouseBtn::Middle => 2,
    }
}

/// The slot of a mouse button, as an index.
pub fn btn_index(btn: MouseBtn) -> (i: usize)
    ensures
        i == btn_slot(btn),
{
    match btn {
        MouseBtn::Left => 0,
        MouseBtn::Right => 1,
        MouseBtn::Middle => 2,
    }
}

/// A scroll wheel direction.
#[derive(Debug, Clone, Copy, PartialEq, Eq, Structural)]
pub enum MouseWheel {
    /// No scroll on this tick.
    NoScroll,
    /// Scrolling up.
    Up,
    /// Scrolling down.
    Down,
    /// Scrolling right.
    Right,
    /// Scrolling left.
    Left,
}

/// The whole mouse state at the current tick.
#[derive(Debug, Clone, Copy)]
pub struct Mouse {
    /// One slot per button: left, right, middle.
    pub buttons: [Input; 3],
    /// Cursor position in logical pixels.
    pub pos: (u32, u32),
    /// Wheel direction seen on this tick.
    pub wheel: MouseWheel,
}

impl Mouse {
    /// A mouse with no button active, the cursor at the origin and no scroll.
    pub fn new() -> (r: Self)
        ensures
            forall|i: int|
                0 <= i < 3 ==> r.buttons[i] == (Input {
                    pressed: false,
                    held: false,
                    released: false,
                }),
            r.pos == (0u32, 0u32),
            r.wheel == MouseWheel::NoScroll,
    {
        Mouse {
            buttons: [Input::default(), Input::default(), Input::default()],
            pos: (0, 0),
            wheel: MouseWheel::NoScroll,
        }
    }
}

/// The direction a wheel delta classifies as: the axis with the strictly
/// larger magnitude wins, ties go to the vertical axis, and the sign picks
/// the direction on that axis; a zero delta on the winning axis is no scroll.
pub open spec fn wheel_direction(dx: int, dy: int) -> MouseWheel {
    let ax = if dx >= 0 { dx } else { -dx };
    let ay = if dy >= 0 { dy } else { -dy };
    if ax > ay {
        if dx > 0 {
            MouseWheel::Right
        } else {
            MouseWheel::Left
        }
    } else if dy > 0 {
        MouseWheel::Down
    } else if dy < 0 {
        MouseWheel::Up
    } else {
        MouseWheel::NoScroll
    }
}

/// Classify a wheel delta into a direction.
///
/// Horizontal movement wins only when its magnitude is strictly larger than
/// the vertical one; a positive vertical delta scrolls down, a negative one
/// scrolls up.
pub fn classify_wheel(dx: i64, dy: i64) -> (r: MouseWheel)
    ensures
        r == wheel_direction(dx as int, dy as int),
{
    let ax: i128 = if dx >= 0 {
        dx as i128
    } else {
        -(dx as i128)
    };
    let ay: i128 = if dy >= 0 {
        dy as i128
    } else {
        -(dy as i128)
    };
    if ax > ay {
        if dx > 0 {
            MouseWheel::Right
        } else {
            MouseWheel::Left
        }
    } else if dy > 0 {
        MouseWheel::Down
    } else if dy < 0 {
        MouseWheel::Up
    } else {
        MouseWheel::NoScroll
    }
}

} // verus!
