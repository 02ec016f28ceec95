//! What the camera knows of keyboard and mouse: which movement keys are held
//! and whether the view is being dragged.
//!
//! The caller turns each input event into one call here, and moves and turns
//! the camera by what is reported back.

use vstd::prelude::*;

verus! {

/// A key, as far as the camera tells keys apart.
#[derive(Debug, Clone, Copy, PartialEq, Eq)]
pub enum Key {
    Space,
    ShiftLeft,
    KeyW,
    ArrowUp,
    KeyA,
    ArrowLeft,
    KeyS,
    ArrowDown,
    KeyD,
    ArrowRight,
    /// Any other key.
    Other,
}

/// A direction in which keys move the camera.
#[derive(Debug, Clone, Copy, PartialEq, Eq)]
pub enum Direction {
    Up,
    Down,
    Forward,
    Left,
    Backward,
    Right,
}

/// The direction that a key stands for, if it stands for one.
pub open spec fn direction_of(key: Key) -> Option<Direction> {
    match key {
        Key::Space => Some(Direction::Up),
        Key::ShiftLeft => Some(Direction::Down),
        Key::KeyW | Key::ArrowUp => Some(Direction::Forward),
        Key::KeyA | Key::ArrowLeft => Some(Direction::Left),
        Key::KeyS | Key::ArrowDown => Some(Direction::Backward),
        Key::KeyD | Key::ArrowRight => Some(Direction::Right),
        Key::Other => None,
    }
}

/// The direction that a key stands for, if it stands for one.
pub fn key_direction(key: Key) -> (direction: Option<Direction>)
    ensures
        direction == direction_of(key),
{
    match key {
        Key::Space => Some(Direction::Up),
        Key::ShiftLeft => Some(Direction::Down),
        Key::KeyW | Key::ArrowUp => Some(Direction::Forward),
        Key::KeyA | Key::ArrowLeft => Some(Direction::Left),
        Key::KeyS | Key::ArrowDown => Some(Direction::Backward),
        Key::KeyD | Key::ArrowRight => Some(Direction::Right),
        Key::Other => None,
    }
}

/// The input state of the camera. `Pos` is the caller's cursor position.
#[derive(Debug, Clone, Copy, PartialEq, Eq)]
pub struct Controls<Pos> {
    pub is_forward_pressed: bool,
    pub is_backward_pressed: bool,
    pub is_left_pressed: bool,
    pub is_right_pressed: bool,
    pub is_up_pressed: bool,
    pub is_down_pressed: bool,
    /// Where the cursor was at the last move of the current drag.
    pub last_cursor_position: Option<Pos>,
    /// A mouse button is held: cursor moves turn the view.
    pub cursor_down: bool,
}

impl<Pos> Controls<Pos> {
    /// Whether the key for `direction` is held.
    pub open spec fn pressed(self, direction: Direction) -> bool {
        match direction {
            Direction::Up => self.is_up_pressed,
            Direction::Down => self.is_down_pressed,
            Direction::Forward => self.is_forward_pressed,
            Direction::Left => self.is_left_pressed,
            Direction::Backward => self.is_backward_pressed,
            Direction::Right => self.is_right_pressed,
        }
    }

    /// The state with the key for `direction` held or not, as `pressed` says.
    pub open spec fn with_pressed(self, direction: Direction, pressed: bool) -> Self {
        match direction {
            Direction::Up => Controls { is_up_pressed: pressed, ..self },
            Direction::Down => Controls { is_down_pressed: pressed, ..self },
            Direction::Forward => Controls { is_forward_pressed: pressed, ..self },
            Direction::Left => Controls { is_left_pressed: pressed, ..self },
            Direction::Backward => Controls { is_backward_pressed: pressed, ..self },
            Direction::Right => Controls { is_right_pressed: pressed, ..self },
        }
    }

    /// Nothing held, nothing dragged.
    pub fn new() -> (controls: Self)
        ensures
            controls == (Controls::<Pos> {
                is_forward_pressed: false,
                is_backward_pressed: false,
                is_left_pressed: false,
                is_right_pressed: false,
                is_up_pressed: false,
                is_down_pressed: false,
                last_cursor_position: None,
                cursor_down: false,
            }),
    {
        Controls {
            is_forward_pressed: false,
            is_backward_pressed: false,
            is_left_pressed: false,
            is_right_pressed: false,
            is_up_pressed: false,
            is_down_pressed: false,
            last_cursor_position: None,
            cursor_down: false,
        }
    }

    /// A key went down or up. A key that stands for a direction sets that
    /// direction; any other key changes nothing.
    pub fn key(&mut self, key: Key, pressed: bool)
        ensures
            *final(self) == match direction_of(key) {
                Some(direction) => old(self).with_pressed(direction, pressed),
                None => *old(self),
            },
    {
        match key_direction(key) {
            Some(Direction::Up) => {
                self.is_up_pressed = pressed;
            },
            Some(Direction::Down) => {
                self.is_down_pressed = pressed;
            },
            Some(Direction::Forward) => {
                self.is_forward_pressed = pressed;
            },
            Some(Direction::Left) => {
                self.is_left_pressed = pressed;
            },
            Some(Direction::Backward) => {
                self.is_backward_pressed = pressed;
            },
            Some(Direction::Right) => {
                self.is_right_pressed = pressed;
            },
            None => {},
        }
    }

    /// A mouse button went down or up. Going down starts a drag; going up
    /// ends it and forgets where the cursor was.
    pub fn mouse_button(&mut self, pressed: bool)
        ensures
            *final(self) == (Controls {
                cursor_down: pressed,
                last_cursor_position: if pressed {
                    old(self).last_cursor_position
                } else {
                    None
                },
                ..*old(self)
            }),
    {
        if pressed {
            self.cursor_down = true;
        } else {
            self.last_cursor_position = None;
            self.cursor_down = false;
        }
    }

    /// The cursor moved to `position`. During a drag, returns the position
    /// to measure the move from, which is `position` itself at the first move
    /// of the drag, and remembers `position`. Outside a drag, returns `None`
    /// and changes nothing.
    pub fn cursor_moved(&mut self, position: Pos) -> (from: Option<Pos>) where Pos: Copy
        ensures
            from == if old(self).cursor_down {
                Some(
                    match old(self).last_cursor_position {
                        Some(last) => last,
                        None => position,
                    },
                )
            } else {
                None
            },
            *final(self) == if old(self).cursor_down {
                Controls { last_cursor_position: Some(position), ..*old(self) }
            } else {
                *old(self)
            },
    {
        if self.cursor_down {
            let from = match self.last_cursor_position {
                Some(last) => last,
                None => position,
            };
            self.last_cursor_position = Some(position);
            Some(from)
        } else {
            None
        }
    }
}

/// A key sets its own direction and leaves the others as they are, and the
/// two keys of a direction do the same.
pub proof fn lemma_keys_are_separate<Pos>(
    controls: Controls<Pos>,
    direction: Direction,
    other: Direction,
    pressed: bool,
)
    ensures
        controls.with_pressed(direction, pressed).pressed(direction) == pressed,
        other != direction ==> controls.with_pressed(direction, pressed).pressed(other)
            == controls.pressed(other),
        controls.with_pressed(direction, pressed).cursor_down == controls.cursor_down,
        controls.with_pressed(direction, pressed).last_cursor_position
            == controls.last_cursor_position,
        direction_of(Key::KeyW) == direction_of(Key::ArrowUp),
        direction_of(Key::KeyA) == direction_of(Key::ArrowLeft),
        direction_of(Key::KeyS) == direction_of(Key::ArrowDown),
        direction_of(Key::KeyD) == direction_of(Key::ArrowRight),
{
}

} // verus!
