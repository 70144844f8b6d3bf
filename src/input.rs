//! The decisions behind the free-fly camera's controls: when mouse look
//! starts and stops, which way the movement keys push, and how fast.
use vstd::prelude::*;

verus! {

/// What the camera does with the mouse in one frame.
#[derive(Clone, Copy, Debug, PartialEq, Eq, Structural)]
pub enum LookStep {
    /// The look button went down: hide and capture the cursor, and remember
    /// where it is.
    Capture,
    /// The look button came up: give the cursor back.
    Release,
    /// The button is still held: turn by how far the cursor moved since the
    /// last frame.
    Turn,
    /// The button is not held and was not: nothing happens.
    Idle,
}

/// Whether the look button is being held, as the camera last saw it.
#[derive(Clone, Copy, Debug, PartialEq, Eq, Structural)]
pub struct MouseLook {
    pub was_pressed: bool,
}

pub open spec fn spec_look_step(was_pressed: bool, pressed: bool) -> LookStep {
    if was_pressed && !pressed {
        LookStep::Release
    } else if !was_pressed && pressed {
        LookStep::Capture
    } else if was_pressed {
        LookStep::Turn
    } else {
        LookStep::Idle
    }
}

impl MouseLook {
    /// Mouse look starts released.
    pub fn new() -> (r: MouseLook)
        ensures
            !r.was_pressed,
    {
        MouseLook { was_pressed: false }
    }

    /// Takes one frame's state of the look button and says what to do with
    /// the cursor; afterwards the button counts as held exactly when it is.
    pub fn step(&mut self, pressed: bool) -> (r: LookStep)
        ensures
            r == spec_look_step(old(self).was_pressed, pressed),
            final(self).was_pressed == pressed,
    {
        if self.was_pressed && !pressed {
            self.was_pressed = false;
            LookStep::Release
        } else if !self.was_pressed && pressed {
            self.was_pressed = true;
            LookStep::Capture
        } else if self.was_pressed {
            LookStep::Turn
        } else {
            LookStep::Idle
        }
    }
}

/// Which movement keys are held in one frame.
#[derive(Clone, Copy, Debug, PartialEq, Eq, Structural)]
pub struct MovementKeys {
    pub forward: bool,
    pub back: bool,
    pub left: bool,
    pub right: bool,
    pub down: bool,
    pub up: bool,
}

/// A direction in camera space, each axis in -1, 0 or 1: x to the right,
/// y up, z forward.
#[derive(Clone, Copy, Debug, PartialEq, Eq, Structural)]
pub struct Axes {
    pub x: i8,
    pub y: i8,
    pub z: i8,
}

pub open spec fn held(b: bool) -> int {
    if b {
        1
    } else {
        0
    }
}

impl Axes {
    /// Whether the direction is no direction at all.
    pub fn is_zero(&self) -> (r: bool)
        ensures
            r == (self.x == 0 && self.y == 0 && self.z == 0),
    {
        self.x == 0 && self.y == 0 && self.z == 0
    }
}

impl MovementKeys {
    /// The direction the held keys push the camera: opposite keys cancel.
    pub fn direction(&self) -> (r: Axes)
        ensures
            r.x == held(self.right) - held(self.left),
            r.y == held(self.up) - held(self.down),
            r.z == held(self.forward) - held(self.back),
    {
        Axes {
            x: axis(self.right, self.left),
            y: axis(self.up, self.down),
            z: axis(self.forward, self.back),
        }
    }
}

fn axis(positive: bool, negative: bool) -> (r: i8)
    ensures
        r == held(positive) - held(negative),
{
    let mut a: i8 = 0;
    if positive {
        a = a + 1;
    }
    if negative {
        a = a - 1;
    }
    a
}

/// How fast the camera moves: a held shift key wins over a held control key.
#[derive(Clone, Copy, Debug, PartialEq, Eq, Structural)]
pub enum Speed {
    Fast,
    Slow,
    Normal,
}

pub fn speed(shift: bool, control: bool) -> (r: Speed)
    ensures
        r == (if shift {
            Speed::Fast
        } else if control {
            Speed::Slow
        } else {
            Speed::Normal
        }),
{
    if shift {
        Speed::Fast
    } else if control {
        Speed::Slow
    } else {
        Speed::Normal
    }
}

/// The size of the window's drawable area in pixels, which the off-screen
/// buffers and the projection follow.
#[derive(Clone, Copy, Debug, PartialEq, Eq, Structural)]
pub struct ScreenSize {
    pub width: u32,
    pub height: u32,
}

pub const DEFAULT_SCREEN_WIDTH: u32 = 1600;
pub const DEFAULT_SCREEN_HEIGHT: u32 = 900;

impl ScreenSize {
    /// The size a window opens with.
    pub fn new() -> (r: ScreenSize)
        ensures
            r.width == DEFAULT_SCREEN_WIDTH,
            r.height == DEFAULT_SCREEN_HEIGHT,
    {
        ScreenSize { width: DEFAULT_SCREEN_WIDTH, height: DEFAULT_SCREEN_HEIGHT }
    }

    /// Takes the size a resize event reports. A size with a zero side (a
    /// minimised window) is ignored and the result is false; otherwise the
    /// screen takes it and the buffers must follow.
    pub fn resize(&mut self, width: i32, height: i32) -> (r: bool)
        ensures
            r == (width != 0 && height != 0),
            r ==> *final(self) == (ScreenSize { width: width as u32, height: height as u32 }),
            !r ==> *final(self) == *old(self),
    {
        if width != 0 && height != 0 {
            self.width = width as u32;
            self.height = height as u32;
            true
        } else {
            false
        }
    }
}

} // verus!
