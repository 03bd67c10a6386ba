use vstd::prelude::*;

verus! {

/// The keys the camera reacts to; every other key is `Other`.
#[derive(Clone, Copy, Debug, PartialEq, Eq, Structural)]
pub enum Key {
    R,
    H,
    S,
    T,
    Up,
    Down,
    Left,
    Right,
    Space,
    LShift,
    Escape,
    Other,
}

/// Whether a key or a mouse button went down or up.
#[derive(Clone, Copy, Debug, PartialEq, Eq, Structural)]
pub enum ButtonState {
    Pressed,
    Released,
}

/// A direction in which the camera can be moved.
#[derive(Clone, Copy, Debug, PartialEq, Eq, Structural)]
pub enum Direction {
    Forward,
    Backward,
    Left,
    Right,
    Up,
    Down,
}

/// The direction a key moves the camera in, if any.
pub open spec fn direction_of(key: Key) -> Option<Direction> {
    match key {
        Key::R | Key::Up => Some(Direction::Forward),
        Key::H | Key::Down => Some(Direction::Backward),
        Key::S | Key::Left => Some(Direction::Left),
        Key::T | Key::Right => Some(Direction::Right),
        Key::Space => Some(Direction::Up),
        Key::LShift => Some(Direction::Down),
        _ => None,
    }
}

/// The directions held after `key` changed to `state`.
pub open spec fn held_after_key(held: Set<Direction>, key: Key, state: ButtonState) -> Set<Direction> {
    match direction_of(key) {
        Some(d) => if state == ButtonState::Pressed {
            held.insert(d)
        } else {
            held.remove(d)
        },
        None => held,
    }
}

/// +1, 0 or -1: whether the camera moves towards `pos`, stays, or moves towards `neg`.
pub open spec fn axis(held: Set<Direction>, pos: Direction, neg: Direction) -> int {
    (if held.contains(pos) { 1int } else { 0int }) - (if held.contains(neg) { 1int } else { 0int })
}

pub fn key_direction(key: Key) -> (r: Option<Direction>)
    ensures
        r == direction_of(key),
{
    match key {
        Key::R | Key::Up => Some(Direction::Forward),
        Key::H | Key::Down => Some(Direction::Backward),
        Key::S | Key::Left => Some(Direction::Left),
        Key::T | Key::Right => Some(Direction::Right),
        Key::Space => Some(Direction::Up),
        Key::LShift => Some(Direction::Down),
        _ => None,
    }
}

/// The signed movement the held keys ask for along each camera axis.
#[derive(Clone, Copy, Debug, PartialEq, Eq, Structural)]
pub struct Movement {
    /// +1 forward, -1 backward.
    pub forward: i8,
    /// +1 to the right, -1 to the left.
    pub right: i8,
    /// +1 up, -1 down.
    pub up: i8,
}

/// Which movement keys the user holds down. Its view is the set of
/// directions whose key is held.
#[derive(Clone, Copy, Debug)]
pub struct CameraControlls {
    amount_forward: bool,
    amount_backward: bool,
    amount_left: bool,
    amount_right: bool,
    amount_up: bool,
    amount_down: bool,
}

impl CameraControlls {
    pub closed spec fn held(self, d: Direction) -> bool {
        match d {
            Direction::Forward => self.amount_forward,
            Direction::Backward => self.amount_backward,
            Direction::Left => self.amount_left,
            Direction::Right => self.amount_right,
            Direction::Up => self.amount_up,
            Direction::Down => self.amount_down,
        }
    }
}

impl View for CameraControlls {
    type V = Set<Direction>;

    closed spec fn view(&self) -> Set<Direction> {
        Set::new(|d: Direction| self.held(d))
    }
}

impl CameraControlls {
    /// Controls with no key held.
    pub fn new() -> (r: Self)
        ensures
            r@ == Set::<Direction>::empty(),
    {
        let r = CameraControlls {
            amount_forward: false,
            amount_backward: false,
            amount_left: false,
            amount_right: false,
            amount_up: false,
            amount_down: false,
        };
        proof {
            assert(r@ =~= Set::<Direction>::empty());
        }
        r
    }

    /// Whether the key for `d` is held.
    pub fn is_held(&self, d: Direction) -> (r: bool)
        ensures
            r == self@.contains(d),
    {
        match d {
            Direction::Forward => self.amount_forward,
            Direction::Backward => self.amount_backward,
            Direction::Left => self.amount_left,
            Direction::Right => self.amount_right,
            Direction::Up => self.amount_up,
            Direction::Down => self.amount_down,
        }
    }

    /// Records that `key` went down or up. Returns whether the key is a
    /// movement key; other keys leave the controls as they were.
    pub fn proces_keyboard_input(&mut self, key: Key, state: ButtonState) -> (handled: bool)
        ensures
            handled == direction_of(key).is_some(),
            final(self)@ == held_after_key(old(self)@, key, state),
    {
        let amount = state == ButtonState::Pressed;
        match key_direction(key) {
            Some(Direction::Forward) => self.amount_forward = amount,
            Some(Direction::Backward) => self.amount_backward = amount,
            Some(Direction::Left) => self.amount_left = amount,
            Some(Direction::Right) => self.amount_right = amount,
            Some(Direction::Up) => self.amount_up = amount,
            Some(Direction::Down) => self.amount_down = amount,
            None => {
                proof {
                    assert(self@ =~= old(self)@);
                }
                return false;
            },
        }
        proof {
            assert(self@ =~= held_after_key(old(self)@, key, state));
        }
        true
    }

    /// The movement the held keys ask for: opposite keys cancel out.
    pub fn movement(&self) -> (m: Movement)
        ensures
            m.forward == axis(self@, Direction::Forward, Direction::Backward),
            m.right == axis(self@, Direction::Right, Direction::Left),
            m.up == axis(self@, Direction::Up, Direction::Down),
    {
        Movement {
            forward: (self.amount_forward as i8) - (self.amount_backward as i8),
            right: (self.amount_right as i8) - (self.amount_left as i8),
            up: (self.amount_up as i8) - (self.amount_down as i8),
        }
    }
}

} // verus!
