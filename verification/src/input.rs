//! The set of discrete actions that are currently held.

use vstd::prelude::*;

verus! {

/// A discrete action that a key or button can hold down.
#[derive(Clone, Copy, Debug, PartialEq, Eq, Hash, Structural)]
pub enum InputAction {
    MoveForward,
    MoveBack,
    MoveLeft,
    MoveRight,
}

/// The actions that are held right now. Its view is the set of those actions.
#[derive(Clone, Copy, Debug)]
pub struct InputManager {
    forward: bool,
    back: bool,
    left: bool,
    right: bool,
}

impl View for InputManager {
    type V = Set<InputAction>;

    closed spec fn view(&self) -> Set<InputAction> {
        Set::new(
            |a: InputAction|
                match a {
                    InputAction::MoveForward => self.forward,
                    InputAction::MoveBack => self.back,
                    InputAction::MoveLeft => self.left,
                    InputAction::MoveRight => self.right,
                },
        )
    }
}

impl InputManager {
    /// A manager with nothing held.
    pub fn new() -> (m: InputManager)
        ensures
            m@ == Set::<InputAction>::empty(),
    {
        let m = InputManager { forward: false, back: false, left: false, right: false };
        assert(m@ =~= Set::<InputAction>::empty());
        m
    }

    /// Records that `key` went down. Pressing a held action changes nothing.
    pub fn action_pressed(&mut self, key: InputAction)
        ensures
            final(self)@ == old(self)@.insert(key),
    {
        match key {
            InputAction::MoveForward => {
                self.forward = true;
            },
            InputAction::MoveBack => {
                self.back = true;
            },
            InputAction::MoveLeft => {
                self.left = true;
            },
            InputAction::MoveRight => {
                self.right = true;
            },
        }
        assert(self@ =~= old(self)@.insert(key));
    }

    /// Records that `key` went up. Releasing an action that is not held changes
    /// nothing.
    pub fn action_released(&mut self, key: InputAction)
        ensures
            final(self)@ == old(self)@.remove(key),
    {
        match key {
            InputAction::MoveForward => {
                self.forward = false;
            },
            InputAction::MoveBack => {
                self.back = false;
            },
            InputAction::MoveLeft => {
                self.left = false;
            },
            InputAction::MoveRight => {
                self.right = false;
            },
        }
        assert(self@ =~= old(self)@.remove(key));
    }

    /// Whether `key` is held.
    pub fn is_action_pressed(&self, key: &InputAction) -> (held: bool)
        ensures
            held == self@.contains(*key),
    {
        match key {
            InputAction::MoveForward => self.forward,
            InputAction::MoveBack => self.back,
            InputAction::MoveLeft => self.left,
            InputAction::MoveRight => self.right,
        }
    }
}

impl Default for InputManager {
    fn default() -> (m: InputManager)
        ensures
            m@ == Set::<InputAction>::empty(),
    {
        InputManager::new()
    }
}

/// Pressing an action that is held, or releasing one that is not, changes
/// nothing: both are idempotent.
pub proof fn lemma_press_release_idempotent(held: Set<InputAction>, key: InputAction)
    ensures
        held.insert(key).insert(key) == held.insert(key),
        held.remove(key).remove(key) == held.remove(key),
        held.contains(key) ==> held.insert(key) == held,
        !held.contains(key) ==> held.remove(key) == held,
{
    assert(held.insert(key).insert(key) =~= held.insert(key));
    assert(held.remove(key).remove(key) =~= held.remove(key));
    if held.contains(key) {
        assert(held.insert(key) =~= held);
    } else {
        assert(held.remove(key) =~= held);
    }
}

} // verus!
