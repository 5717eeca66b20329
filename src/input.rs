//! Keyboard state: the four movement directions bound to `w`, `s`, `a`, `d`.

use vstd::prelude::*;

verus! {

/// Whether a key went down or came up.
#[derive(Clone, Copy, Debug, PartialEq, Eq, Structural)]
pub enum KeyState {
    Pressed,
    Released,
}

/// A key as the window reports it: the text it types, or a key that types
/// none (arrows, modifiers and the like).
#[derive(Debug)]
pub enum Key {
    Character(String),
    Named,
}

/// One of the four movement directions.
#[derive(Clone, Copy, Debug, PartialEq, Eq, Structural)]
pub enum Direction {
    Up,
    Down,
    Left,
    Right,
}

/// The direction a key's text is bound to: `w` up, `s` down, `a` left,
/// `d` right. Any other text is bound to nothing.
pub open spec fn binding(text: Seq<char>) -> Option<Direction> {
    if text == seq!['w'] {
        Some(Direction::Up)
    } else if text == seq!['s'] {
        Some(Direction::Down)
    } else if text == seq!['a'] {
        Some(Direction::Left)
    } else if text == seq!['d'] {
        Some(Direction::Right)
    } else {
        None
    }
}

/// The direction a key is bound to, if any.
pub open spec fn key_binding(key: Key) -> Option<Direction> {
    match key {
        Key::Character(text) => binding(text@),
        Key::Named => None,
    }
}

/// Which of the four directions are held down.
#[derive(Clone, Copy, Debug, PartialEq, Eq, Structural)]
pub struct GameInput {
    pub up: bool,
    pub down: bool,
    pub left: bool,
    pub right: bool,
}

/// `input` with the flag of direction `d` set to `value`.
pub open spec fn with_direction(input: GameInput, d: Direction, value: bool) -> GameInput {
    match d {
        Direction::Up => GameInput { up: value, ..input },
        Direction::Down => GameInput { down: value, ..input },
        Direction::Left => GameInput { left: value, ..input },
        Direction::Right => GameInput { right: value, ..input },
    }
}

/// The direction bound to a key's text.
fn text_binding(text: &String) -> (r: Option<Direction>)
    ensures
        r == binding(text@),
{
    let s = text.as_str();
    if s.unicode_len() != 1 {
        return None;
    }
    let c = s.get_char(0);
    assert(s@ =~= seq![c]);
    if c == 'w' {
        Some(Direction::Up)
    } else if c == 's' {
        Some(Direction::Down)
    } else if c == 'a' {
        Some(Direction::Left)
    } else if c == 'd' {
        Some(Direction::Right)
    } else {
        assert(s@ != seq!['w'] && s@ != seq!['s'] && s@ != seq!['a'] && s@ != seq!['d']) by {
            assert(seq!['w'][0] == 'w');
            assert(seq!['s'][0] == 's');
            assert(seq!['a'][0] == 'a');
            assert(seq!['d'][0] == 'd');
        }
        None
    }
}

impl GameInput {
    /// No direction held.
    pub fn new() -> (r: Self)
        ensures
            !r.up && !r.down && !r.left && !r.right,
    {
        GameInput { up: false, down: false, left: false, right: false }
    }

    /// Records a key event. A bound key sets its direction's flag to whether
    /// it is pressed; any other key changes nothing. The result says whether
    /// any direction changed, so that the host redraws only on a change.
    pub fn update(&mut self, key: Key, state: KeyState) -> (r: bool)
        ensures
            r == (*final(self) != *old(self)),
            match key_binding(key) {
                Some(d) => *final(self) == with_direction(*old(self), d, state == KeyState::Pressed),
                None => *final(self) == *old(self),
            },
    {
        let value = match state {
            KeyState::Pressed => true,
            KeyState::Released => false,
        };
        let bound = match &key {
            Key::Character(text) => text_binding(text),
            Key::Named => None,
        };
        match bound {
            Some(Direction::Up) => {
                let changed = self.up != value;
                self.up = value;
                changed
            },
            Some(Direction::Down) => {
                let changed = self.down != value;
                self.down = value;
                changed
            },
            Some(Direction::Left) => {
                let changed = self.left != value;
                self.left = value;
                changed
            },
            Some(Direction::Right) => {
                let changed = self.right != value;
                self.right = value;
                changed
            },
            None => false,
        }
    }
}

impl Default for GameInput {
    fn default() -> (r: Self)
        ensures
            !r.up && !r.down && !r.left && !r.right,
    {
        GameInput::new()
    }
}

} // verus!
