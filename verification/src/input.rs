//! Per-action key tracking with edge detection.
//!
//! Each logical action carries a three-state flag. A key pressed and
//! released within one frame still reads as pressed (`been_pressed`)
//! for that frame, even though `is_down` is already false; the trailing
//! per-tick transition then retires the edge.

use vstd::prelude::*;
use crate::game::Config;

verus! {

/// Tri-state flag for one key: up, held down, or released after having
/// been down this frame.
#[derive(Clone, Copy, Debug, PartialEq, Eq, Structural)]
pub enum KeyState {
    Up,
    Down,
    BeenDown,
}

/// Flag after a key-release event.
pub open spec fn spec_key_up(k: KeyState) -> KeyState {
    match k {
        KeyState::Up => KeyState::Up,
        KeyState::Down => KeyState::BeenDown,
        KeyState::BeenDown => KeyState::BeenDown,
    }
}

/// Flag after a key-press event.
pub open spec fn spec_key_down(k: KeyState) -> KeyState {
    KeyState::Down
}

/// Flag after the end-of-tick transition: a retired edge goes back up,
/// a held key stays down.
pub open spec fn spec_key_tick(k: KeyState) -> KeyState {
    match k {
        KeyState::Up => KeyState::Up,
        KeyState::Down => KeyState::Down,
        KeyState::BeenDown => KeyState::Up,
    }
}

/// Whether the key was down at any point during the frame.
pub open spec fn spec_been_pressed(k: KeyState) -> bool {
    k != KeyState::Up
}

/// Whether the key is held down right now.
pub open spec fn spec_is_down(k: KeyState) -> bool {
    k == KeyState::Down
}

impl KeyState {
    pub fn up(&mut self)
        ensures
            *final(self) == spec_key_up(*old(self)),
    {
        *self = match *self {
            KeyState::Up => KeyState::Up,
            KeyState::Down => KeyState::BeenDown,
            KeyState::BeenDown => KeyState::BeenDown,
        };
    }

    pub fn down(&mut self)
        ensures
            *final(self) == spec_key_down(*old(self)),
    {
        *self = KeyState::Down;
    }

    pub fn tick(&mut self)
        ensures
            *final(self) == spec_key_tick(*old(self)),
    {
        *self = match *self {
            KeyState::Up => KeyState::Up,
            KeyState::Down => KeyState::Down,
            KeyState::BeenDown => KeyState::Up,
        };
    }

    pub fn been_pressed(&self) -> (r: bool)
        ensures
            r == spec_been_pressed(*self),
    {
        match *self {
            KeyState::Up => false,
            KeyState::Down => true,
            KeyState::BeenDown => true,
        }
    }

    pub fn is_down(&self) -> (r: bool)
        ensures
            r == spec_is_down(*self),
    {
        match *self {
            KeyState::Down => true,
            KeyState::Up => false,
            KeyState::BeenDown => false,
        }
    }
}

/// A key pressed and then released within one frame still reads as
/// pressed for that frame while no longer being held; the trailing
/// end-of-tick transition retires the edge. A key held across the tick
/// stays held.
pub proof fn lemma_input_edge(k: KeyState)
    ensures
        spec_been_pressed(spec_key_up(spec_key_down(k))),
        !spec_is_down(spec_key_up(spec_key_down(k))),
        spec_key_tick(spec_key_up(spec_key_down(k))) == KeyState::Up,
        spec_is_down(spec_key_down(k)),
        spec_key_tick(spec_key_down(k)) == KeyState::Down,
        spec_is_down(spec_key_tick(spec_key_down(k))),
{
}

/// The tracker-level reading of the same law: pressing and releasing
/// one action within a frame leaves it observably pressed but not held,
/// the trailing transition retires it, and a press alone keeps the
/// action held across the transition. Other actions are untouched
/// throughout.
pub proof fn lemma_inputs_edge(inp: Inputs, idx: InputIndex)
    ensures
        ({
            let pressed = spec_with_flag(inp, idx, spec_key_down(spec_flag(inp, idx)));
            let released = spec_with_flag(pressed, idx, spec_key_up(spec_flag(pressed, idx)));
            &&& spec_been_pressed(spec_flag(released, idx))
            &&& !spec_is_down(spec_flag(released, idx))
            &&& spec_flag(spec_inputs_tick(released), idx) == KeyState::Up
            &&& spec_is_down(spec_flag(spec_inputs_tick(pressed), idx))
            &&& forall|other: InputIndex|
                other != idx ==> spec_flag(released, other) == spec_flag(inp, other)
        }),
{
}

/// The logical actions a key can be bound to.
#[derive(Clone, Copy, Debug, PartialEq, Eq, Structural)]
pub enum InputIndex {
    Shoot,
    Forward,
    Backward,
    Left,
    Right,
}

/// The tracked flags of all logical actions.
#[derive(Clone, Copy, Debug, PartialEq, Eq, Structural)]
pub struct Inputs {
    pub shoot: KeyState,
    pub forward: KeyState,
    pub backward: KeyState,
    pub left: KeyState,
    pub right: KeyState,
}

/// The flag a given action holds in a tracker.
pub open spec fn spec_flag(inputs: Inputs, idx: InputIndex) -> KeyState {
    match idx {
        InputIndex::Shoot => inputs.shoot,
        InputIndex::Forward => inputs.forward,
        InputIndex::Backward => inputs.backward,
        InputIndex::Left => inputs.left,
        InputIndex::Right => inputs.right,
    }
}

/// A tracker with one flag replaced.
pub open spec fn spec_with_flag(inputs: Inputs, idx: InputIndex, k: KeyState) -> Inputs {
    match idx {
        InputIndex::Shoot => Inputs { shoot: k, ..inputs },
        InputIndex::Forward => Inputs { forward: k, ..inputs },
        InputIndex::Backward => Inputs { backward: k, ..inputs },
        InputIndex::Left => Inputs { left: k, ..inputs },
        InputIndex::Right => Inputs { right: k, ..inputs },
    }
}

/// A tracker after the end-of-tick transition of every flag.
pub open spec fn spec_inputs_tick(inputs: Inputs) -> Inputs {
    Inputs {
        shoot: spec_key_tick(inputs.shoot),
        forward: spec_key_tick(inputs.forward),
        backward: spec_key_tick(inputs.backward),
        left: spec_key_tick(inputs.left),
        right: spec_key_tick(inputs.right),
    }
}

/// The tracker with every flag up.
pub open spec fn spec_inputs_new() -> Inputs {
    Inputs {
        shoot: KeyState::Up,
        forward: KeyState::Up,
        backward: KeyState::Up,
        left: KeyState::Up,
        right: KeyState::Up,
    }
}

impl Inputs {
    pub fn new() -> (r: Inputs)
        ensures
            r == spec_inputs_new(),
    {
        Inputs {
            shoot: KeyState::Up,
            forward: KeyState::Up,
            backward: KeyState::Up,
            left: KeyState::Up,
            right: KeyState::Up,
        }
    }

    pub fn been_pressed(&self, idx: InputIndex) -> (r: bool)
        ensures
            r == spec_been_pressed(spec_flag(*self, idx)),
    {
        match idx {
            InputIndex::Shoot => self.shoot.been_pressed(),
            InputIndex::Forward => self.forward.been_pressed(),
            InputIndex::Backward => self.backward.been_pressed(),
            InputIndex::Left => self.left.been_pressed(),
            InputIndex::Right => self.right.been_pressed(),
        }
    }

    pub fn is_down(&self, idx: InputIndex) -> (r: bool)
        ensures
            r == spec_is_down(spec_flag(*self, idx)),
    {
        match idx {
            InputIndex::Shoot => self.shoot.is_down(),
            InputIndex::Forward => self.forward.is_down(),
            InputIndex::Backward => self.backward.is_down(),
            InputIndex::Left => self.left.is_down(),
            InputIndex::Right => self.right.is_down(),
        }
    }

    /// Retire this frame's edges on every flag; called once, last, per
    /// game tick.
    pub fn tick(&mut self)
        ensures
            *final(self) == spec_inputs_tick(*old(self)),
    {
        self.shoot.tick();
        self.forward.tick();
        self.backward.tick();
        self.left.tick();
        self.right.tick();
    }

    /// Press the flag of one action.
    pub fn press(&mut self, idx: InputIndex)
        ensures
            *final(self) == spec_with_flag(*old(self), idx, spec_key_down(spec_flag(*old(self), idx))),
    {
        match idx {
            InputIndex::Shoot => self.shoot.down(),
            InputIndex::Forward => self.forward.down(),
            InputIndex::Backward => self.backward.down(),
            InputIndex::Left => self.left.down(),
            InputIndex::Right => self.right.down(),
        }
    }

    /// Feed a raw key-press event through the bindings: the first
    /// binding of the code decides the action; unmapped codes are
    /// ignored silently.
    pub fn key_down(&mut self, code: u32, config: &Config)
        ensures
            (forall|k: int|
                0 <= k < config.key_binds@.len() ==> (#[trigger] config.key_binds@[k]).0 != code)
                ==> *final(self) == *old(self),
            forall|j: int|
                (0 <= j < config.key_binds@.len() && (#[trigger] config.key_binds@[j]).0 == code
                    && (forall|k: int|
                    0 <= k < j ==> (#[trigger] config.key_binds@[k]).0 != code)) ==> *final(self)
                    == spec_with_flag(
                    *old(self),
                    config.key_binds@[j].1,
                    spec_key_down(spec_flag(*old(self), config.key_binds@[j].1)),
                ),
    {
        if let Some(index) = config.lookup_input_key(code) {
            self.press(index);
        }
    }

    /// Feed a raw key-release event through the bindings, as
    /// `key_down` does.
    pub fn key_up(&mut self, code: u32, config: &Config)
        ensures
            (forall|k: int|
                0 <= k < config.key_binds@.len() ==> (#[trigger] config.key_binds@[k]).0 != code)
                ==> *final(self) == *old(self),
            forall|j: int|
                (0 <= j < config.key_binds@.len() && (#[trigger] config.key_binds@[j]).0 == code
                    && (forall|k: int|
                    0 <= k < j ==> (#[trigger] config.key_binds@[k]).0 != code)) ==> *final(self)
                    == spec_with_flag(
                    *old(self),
                    config.key_binds@[j].1,
                    spec_key_up(spec_flag(*old(self), config.key_binds@[j].1)),
                ),
    {
        if let Some(index) = config.lookup_input_key(code) {
            self.release(index);
        }
    }

    /// Release the flag of one action.
    pub fn release(&mut self, idx: InputIndex)
        ensures
            *final(self) == spec_with_flag(*old(self), idx, spec_key_up(spec_flag(*old(self), idx))),
    {
        match idx {
            InputIndex::Shoot => self.shoot.up(),
            InputIndex::Forward => self.forward.up(),
            InputIndex::Backward => self.backward.up(),
            InputIndex::Left => self.left.up(),
            InputIndex::Right => self.right.up(),
        }
    }
}

} // verus!
