use vstd::prelude::*;

verus! {

/// The named keys the renderer reacts to.
#[derive(Clone, Copy, Debug, PartialEq, Eq, Structural)]
pub enum KeyName {
    Up,
    Down,
    Left,
    Right,
    Escape,
    Space,
}

/// A discrete input notification from the platform event source,
/// reduced to the plain values the core needs.
#[derive(Clone, Copy, Debug, PartialEq, Eq, Structural)]
pub enum InputEvent {
    /// Pointer moved to `(x, y)` in device pixels.
    PointerMoved(u32, u32),
    KeyDown(KeyName),
    KeyUp(KeyName),
    /// Window resized to `(width, height)` in device pixels.
    Resized(u32, u32),
    CloseRequested,
}

/// What the event loop should do after an event was applied.
#[derive(Clone, Copy, Debug, PartialEq, Eq, Structural)]
pub enum EventAction {
    /// Nothing further; keep running.
    Continue,
    /// The aspect changed: recompute the camera and reconfigure the
    /// surface before the next frame.
    Reconfigure,
    /// Leave the event loop between frames.
    Exit,
}

/// Keys that steer the camera movement flags.
pub open spec fn is_arrow(key: KeyName) -> bool {
    match key {
        KeyName::Up | KeyName::Down | KeyName::Left | KeyName::Right => true,
        _ => false,
    }
}

/// Pressed-state flags of the movement keys, plus the configured
/// movement speed in thousandths of a world unit per tick.
#[derive(Clone, Copy, Debug, PartialEq, Eq, Structural)]
pub struct Controller {
    pub up_pressed: bool,
    pub down_pressed: bool,
    pub left_pressed: bool,
    pub right_pressed: bool,
    pub velocity_milli: u32,
}

/// The controller after a key notification: the matching movement flag
/// is overwritten; other keys change nothing.
pub open spec fn with_key(c: Controller, key: KeyName, pressed: bool) -> Controller {
    match key {
        KeyName::Up => Controller { up_pressed: pressed, ..c },
        KeyName::Down => Controller { down_pressed: pressed, ..c },
        KeyName::Left => Controller { left_pressed: pressed, ..c },
        KeyName::Right => Controller { right_pressed: pressed, ..c },
        _ => c,
    }
}

/// Signed unit of one movement axis: the positive flag minus the
/// negative one.
pub open spec fn axis_unit(positive: bool, negative: bool) -> int {
    (if positive {
        1int
    } else {
        0int
    }) - (if negative {
        1int
    } else {
        0int
    })
}

impl Controller {
    /// A controller with nothing pressed and the given speed.
    pub fn new(velocity_milli: u32) -> (c: Controller)
        ensures
            (c == Controller {
                up_pressed: false,
                down_pressed: false,
                left_pressed: false,
                right_pressed: false,
                velocity_milli,
            }),
    {
        Controller {
            up_pressed: false,
            down_pressed: false,
            left_pressed: false,
            right_pressed: false,
            velocity_milli,
        }
    }

    /// Applies a key notification. Returns whether the key was one the
    /// controller owns; others are left for the event loop.
    pub fn process_key(&mut self, key: KeyName, pressed: bool) -> (handled: bool)
        ensures
            *final(self) == with_key(*old(self), key, pressed),
            handled <==> is_arrow(key),
    {
        match key {
            KeyName::Up => {
                self.up_pressed = pressed;
                true
            },
            KeyName::Down => {
                self.down_pressed = pressed;
                true
            },
            KeyName::Left => {
                self.left_pressed = pressed;
                true
            },
            KeyName::Right => {
                self.right_pressed = pressed;
                true
            },
            _ => false,
        }
    }

    /// The movement direction the flags select, one signed unit per
    /// axis: x grows rightward, z grows with the up key, opposite keys
    /// cancel. Scaling to the configured speed is the caller's.
    pub fn move_direction(&self) -> (d: (i32, i32))
        ensures
            d.0 == axis_unit(self.right_pressed, self.left_pressed),
            d.1 == axis_unit(self.up_pressed, self.down_pressed),
    {
        let dx: i32 = (if self.right_pressed {
            1
        } else {
            0
        }) - (if self.left_pressed {
            1
        } else {
            0
        });
        let dz: i32 = (if self.up_pressed {
            1
        } else {
            0
        }) - (if self.down_pressed {
            1
        } else {
            0
        });
        (dx, dz)
    }
}

} // verus!
