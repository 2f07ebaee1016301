//! The scene: every entity with its components, and the two singleton
//! resources.

use crate::components::Entity;
use crate::input::{InputAction, InputManager};
use crate::time::Time;
use vstd::prelude::*;

verus! {

/// The entity store. An entity's identity is its index in `entities`; entities
/// are never removed, so an index stays valid.
pub struct Scene {
    pub entities: Vec<Entity>,
    pub time: Time,
    pub input: InputManager,
}

impl Scene {
    /// A scene without entities, with a zero clock and nothing held.
    pub fn new() -> (scene: Scene)
        ensures
            scene.entities@ == Seq::<Entity>::empty(),
            scene.time.is_zero(),
            scene.input@ == Set::<InputAction>::empty(),
    {
        Scene { entities: Vec::new(), time: Time::new(), input: InputManager::new() }
    }

    /// Adds `entity` and returns its index.
    pub fn spawn(&mut self, entity: Entity) -> (id: usize)
        ensures
            id == old(self).entities@.len(),
            final(self).entities@ == old(self).entities@.push(entity),
            final(self).time == old(self).time,
            final(self).input == old(self).input,
    {
        let id = self.entities.len();
        self.entities.push(entity);
        id
    }

    /// Replaces the clock resource.
    pub fn insert_time(&mut self, time: Time)
        ensures
            final(self).time == time,
            final(self).entities == old(self).entities,
            final(self).input == old(self).input,
    {
        self.time = time;
    }

    /// Replaces the input resource by a snapshot of `input`.
    pub fn insert_input(&mut self, input: InputManager)
        ensures
            final(self).input == input,
            final(self).entities == old(self).entities,
            final(self).time == old(self).time,
    {
        self.input = input;
    }

    /// The number of entities.
    pub fn len(&self) -> (n: usize)
        ensures
            n == self.entities@.len(),
    {
        self.entities.len()
    }

    /// The entity with index `id`, if there is one.
    pub fn get(&self, id: usize) -> (e: Option<Entity>)
        ensures
            id < self.entities@.len() ==> e == Some(self.entities@[id as int]),
            id >= self.entities@.len() ==> e is None,
    {
        if id < self.entities.len() {
            Some(self.entities[id])
        } else {
            None
        }
    }
}

} // verus!
