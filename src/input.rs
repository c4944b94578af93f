use vstd::prelude::*;

verus! {

/// Keys that steer the camera; every other key is `Other`.
#[derive(Clone, Copy, Debug, PartialEq, Eq, Structural)]
pub enum Key {
    A,
    D,
    W,
    S,
    Q,
    E,
    Other,
}

/// Pointer buttons; the right button is the one that looks around.
#[derive(Clone, Copy, Debug, PartialEq, Eq, Structural)]
pub enum MouseButton {
    Left,
    Right,
    Middle,
    Other,
}

/// A raw device event, as the window system delivers it between frames.
#[derive(Clone, Copy, Debug, PartialEq, Eq, Structural)]
pub enum InputEvent {
    Keyboard { key: Key, pressed: bool },
    /// Absolute pointer position, in whole physical pixels.
    CursorMoved { x: i32, y: i32 },
    /// Wheel motion counted in lines; the vertical part, in thousandths of a line.
    LineScroll { y_milli: i32 },
    /// Wheel motion counted in pixels (touch pads); it is ignored.
    PixelScroll,
    MouseInput { button: MouseButton, pressed: bool },
    Other,
}

/// Movement requested by the held keys, one component per axis, each in {-1, 0, 1}.
#[derive(Clone, Copy, Debug, PartialEq, Eq, Structural)]
pub struct Movement {
    pub x: i8,
    pub y: i8,
    pub z: i8,
}

/// Pointer displacement in pixels, oriented so that right and up are positive.
#[derive(Clone, Copy, Debug, PartialEq, Eq, Structural)]
pub struct MouseDelta {
    pub x: i64,
    pub y: i64,
}

/// A pointer position, in whole physical pixels.
#[derive(Clone, Copy, Debug, PartialEq, Eq, Structural)]
pub struct PixelPos {
    pub x: i32,
    pub y: i32,
}

/// A pointer displacement with the render tick at which it was captured.
#[derive(Clone, Copy, Debug, PartialEq, Eq, Structural)]
pub struct StampedDelta {
    pub tick: usize,
    pub delta: MouseDelta,
}

/// Input state gathered from device events.
#[derive(Clone, Copy, Debug, PartialEq, Eq, Structural)]
pub struct Input {
    /// Whether the look button is held.
    pub mouse_down: bool,
    pub movement: Movement,
    /// The last pointer displacement, with the render tick at which it was captured.
    pub mouse_delta: StampedDelta,
    /// The last pointer position seen.
    pub last_mouse_pos: PixelPos,
    /// The last wheel motion, in thousandths of a line.
    pub scroll_delta: i32,
}

pub open spec fn zero_delta() -> MouseDelta {
    MouseDelta { x: 0, y: 0 }
}

pub open spec fn axis_valid(v: i8) -> bool {
    -1 <= v <= 1
}

impl Movement {
    pub open spec fn valid(self) -> bool {
        axis_valid(self.x) && axis_valid(self.y) && axis_valid(self.z)
    }
}

/// Movement after a key changes state: pressing sets the key's axis to its
/// direction, releasing sets that axis back to zero. The last writer per axis wins.
pub open spec fn key_movement(m: Movement, key: Key, pressed: bool) -> Movement {
    match key {
        Key::A => Movement { x: if pressed { -1i8 } else { 0i8 }, ..m },
        Key::D => Movement { x: if pressed { 1i8 } else { 0i8 }, ..m },
        Key::W => Movement { z: if pressed { 1i8 } else { 0i8 }, ..m },
        Key::S => Movement { z: if pressed { -1i8 } else { 0i8 }, ..m },
        Key::Q => Movement { y: if pressed { 1i8 } else { 0i8 }, ..m },
        Key::E => Movement { y: if pressed { -1i8 } else { 0i8 }, ..m },
        Key::Other => m,
    }
}

/// Displacement between two pointer positions, right and up positive
/// (pixel rows grow downwards).
pub open spec fn displacement(from: PixelPos, to: PixelPos) -> MouseDelta {
    MouseDelta { x: (to.x - from.x) as i64, y: (from.y - to.y) as i64 }
}

impl Input {
    pub open spec fn valid(self) -> bool {
        self.movement.valid()
    }

    /// The state after `event`, delivered while `ticks` render ticks have run.
    pub open spec fn after_event(self, event: InputEvent, ticks: usize) -> Input {
        match event {
            InputEvent::Keyboard { key, pressed } => Input {
                movement: key_movement(self.movement, key, pressed),
                ..self
            },
            InputEvent::CursorMoved { x, y } => Input {
                mouse_delta: StampedDelta {
                    tick: ticks,
                    delta: if self.mouse_down {
                        displacement(self.last_mouse_pos, PixelPos { x, y })
                    } else {
                        zero_delta()
                    },
                },
                last_mouse_pos: PixelPos { x, y },
                ..self
            },
            InputEvent::LineScroll { y_milli } => Input { scroll_delta: y_milli, ..self },
            InputEvent::MouseInput { button: MouseButton::Right, pressed } => if pressed {
                Input { mouse_down: true, ..self }
            } else {
                Input { mouse_down: false, mouse_delta: StampedDelta { tick: ticks, delta: zero_delta() }, ..self }
            },
            _ => self,
        }
    }

    /// The state after the once-per-tick clear at render tick `ticks`: a pointer
    /// displacement captured on an earlier tick is stale and reads as zero.
    pub open spec fn after_clear(self, ticks: usize) -> Input {
        if ticks > self.mouse_delta.tick {
            Input { mouse_delta: StampedDelta { tick: ticks, delta: zero_delta() }, ..self }
        } else {
            self
        }
    }

    /// No key or button held, no motion seen.
    pub open spec fn initial() -> Input {
        Input {
            mouse_down: false,
            movement: Movement { x: 0, y: 0, z: 0 },
            mouse_delta: StampedDelta { tick: 0, delta: zero_delta() },
            last_mouse_pos: PixelPos { x: 0, y: 0 },
            scroll_delta: 0,
        }
    }

    pub fn new() -> (r: Input)
        ensures
            r == Input::initial(),
            r.valid(),
    {
        Input {
            mouse_down: false,
            movement: Movement { x: 0, y: 0, z: 0 },
            mouse_delta: StampedDelta { tick: 0, delta: MouseDelta { x: 0, y: 0 } },
            last_mouse_pos: PixelPos { x: 0, y: 0 },
            scroll_delta: 0,
        }
    }

    /// Zeroes the pointer displacement if it was captured before render tick
    /// `render_ticks`; the held keys stay as they are.
    pub fn clear(&mut self, render_ticks: usize)
        ensures
            *final(self) == old(self).after_clear(render_ticks),
    {
        let last_tick = self.mouse_delta.tick;
        if render_ticks > last_tick {
            self.mouse_delta = StampedDelta { tick: render_ticks, delta: MouseDelta { x: 0, y: 0 } };
        }
    }

    pub fn mouse_delta(&self) -> (r: MouseDelta)
        ensures
            r == self.mouse_delta.delta,
    {
        self.mouse_delta.delta
    }

    fn press_key(&mut self, key: Key, pressed: bool)
        ensures
            *final(self) == (Input { movement: key_movement(old(self).movement, key, pressed), ..*old(self) }),
    {
        let v: i8 = if pressed { 1 } else { 0 };
        match key {
            Key::A => self.movement.x = -v,
            Key::D => self.movement.x = v,
            Key::W => self.movement.z = v,
            Key::S => self.movement.z = -v,
            Key::Q => self.movement.y = v,
            Key::E => self.movement.y = -v,
            Key::Other => {},
        }
    }

    /// Applies one device event. `render_ticks` tags a new pointer displacement
    /// with the tick at which it was captured.
    pub fn handle_input(&mut self, event: &InputEvent, render_ticks: usize)
        ensures
            *final(self) == old(self).after_event(*event, render_ticks),
            old(self).valid() ==> final(self).valid(),
    {
        match *event {
            InputEvent::Keyboard { key, pressed } => {
                self.press_key(key, pressed);
            },
            InputEvent::CursorMoved { x, y } => {
                if self.mouse_down {
                    let dx: i64 = x as i64 - self.last_mouse_pos.x as i64;
                    let dy: i64 = self.last_mouse_pos.y as i64 - y as i64;
                    self.mouse_delta = StampedDelta { tick: render_ticks, delta: MouseDelta { x: dx, y: dy } };
                } else {
                    self.mouse_delta = StampedDelta { tick: render_ticks, delta: MouseDelta { x: 0, y: 0 } };
                }
                self.last_mouse_pos = PixelPos { x, y };
            },
            InputEvent::LineScroll { y_milli } => {
                self.scroll_delta = y_milli;
            },
            InputEvent::PixelScroll => {},
            InputEvent::MouseInput { button, pressed } => {
                if let MouseButton::Right = button {
                    if pressed {
                        self.mousedown();
                    } else {
                        self.mouseup(render_ticks);
                    }
                }
            },
            InputEvent::Other => {},
        }
    }

    /// Releases the look button: the displacement reads as zero from now on.
    pub fn mouseup(&mut self, render_ticks: usize)
        ensures
            *final(self) == (Input {
                mouse_down: false,
                mouse_delta: StampedDelta { tick: render_ticks, delta: zero_delta() },
                ..*old(self)
            }),
    {
        self.mouse_down = false;
        self.mouse_delta = StampedDelta { tick: render_ticks, delta: MouseDelta { x: 0, y: 0 } };
    }

    fn mousedown(&mut self)
        ensures
            *final(self) == (Input { mouse_down: true, ..*old(self) }),
    {
        self.mouse_down = true;
    }
}

/// A pointer displacement captured on tick `t` and not refreshed by a later
/// event reads as zero once the input is cleared on any later tick.
pub proof fn lemma_stale_delta_reads_zero(input: Input, later: usize)
    requires
        later > input.mouse_delta.tick,
    ensures
        input.after_clear(later).mouse_delta.delta == zero_delta(),
        input.after_clear(later).movement == input.movement,
        input.after_clear(later).after_clear(later) == input.after_clear(later),
{
}

} // verus!
