//! The headless engine: the scene and the clock reading of the last update.

use crate::components::{Entity, MoveSpeed};
use crate::input::{InputAction, InputManager};
use crate::math::Vec2;
use crate::scene::Scene;
use crate::systems::{movement_step, player_movement_system, Direction};
use crate::time::Time;
use std::time::{Duration, Instant};
use vstd::prelude::*;

verus! {

/// `std::time::Instant`: a reading of the monotonic clock. Nothing of a
/// reading is known here; the engine only keeps the last one.
#[verifier::external_type_specification]
#[verifier::external_body]
pub struct ExInstant(Instant);

/// `Instant::now` reads the monotonic clock. Nothing is known of the reading.
pub assume_specification[ Instant::now ]() -> (now: Instant);

/// `Instant::saturating_duration_since` returns the time from `earlier` to
/// `later`, and zero where `earlier` is the later one. Nothing is known of
/// its length.
pub assume_specification[ Instant::saturating_duration_since ](
    later: &Instant,
    earlier: Instant,
) -> (elapsed: Duration);

/// The headless engine. Its view is the scene it owns.
pub struct Engine {
    pub world: Scene,
    last_update: Instant,
}

impl View for Engine {
    type V = Scene;

    closed spec fn view(&self) -> Scene {
        self.world
    }
}

/// How one update relates the scene before it to the scene after it, when
/// `delta` has passed since the update before and `input` is held: the clock
/// holds `delta`, the input resource is `input`, and the movement pass has run
/// with both.
pub open spec fn update_step<F: Fn(Vec2, Direction, MoveSpeed, Time) -> Vec2>(
    pre: Scene,
    post: Scene,
    delta: Duration,
    input: InputManager,
    displace: F,
) -> bool {
    &&& post.time.holds(delta)
    &&& movement_step(Scene { entities: pre.entities, time: post.time, input }, post, displace)
}

impl Engine {
    /// An engine over an empty scene, with a zero clock and nothing held.
    pub fn new() -> (engine: Engine)
        ensures
            engine@.entities@ == Seq::<Entity>::empty(),
            engine@.time.is_zero(),
            engine@.input@ == Set::<InputAction>::empty(),
    {
        Engine { world: Scene::new(), last_update: Instant::now() }
    }

    /// The scene, for reading.
    pub fn world(&self) -> (scene: &Scene)
        ensures
            *scene == self@,
    {
        &self.world
    }

    /// The scene, for spawning entities and replacing resources.
    pub fn world_mut(&mut self) -> (scene: &mut Scene)
        ensures
            *scene == old(self)@,
            final(self)@ == *final(scene),
    {
        &mut self.world
    }

    /// Runs one update for a tick that took `delta`: advances the clock by
    /// `delta`, hands the scene a snapshot of `input_manager`, and runs the
    /// movement pass.
    pub fn tick<F: Fn(Vec2, Direction, MoveSpeed, Time) -> Vec2>(
        &mut self,
        delta: Duration,
        input_manager: &InputManager,
        displace: F,
    )
        requires
            forall|p: Vec2, d: Direction, s: MoveSpeed, t: Time|
                d.is_step() ==> call_requires(displace, (p, d, s, t)),
        ensures
            update_step(old(self)@, final(self)@, delta, *input_manager, displace),
    {
        let mut time = self.world.time;
        time.advance_by(delta);
        self.world.insert_time(time);
        self.world.insert_input(*input_manager);
        player_movement_system(&mut self.world, displace);
    }

    /// Runs one update for the time that has passed since the update before
    /// (or since the engine was made), as the monotonic clock gives it.
    pub fn update<F: Fn(Vec2, Direction, MoveSpeed, Time) -> Vec2>(
        &mut self,
        input_manager: &InputManager,
        displace: F,
    )
        requires
            forall|p: Vec2, d: Direction, s: MoveSpeed, t: Time|
                d.is_step() ==> call_requires(displace, (p, d, s, t)),
        ensures
            exists|delta: Duration|
                update_step(old(self)@, final(self)@, delta, *input_manager, displace),
    {
        let now = Instant::now();
        let delta = now.saturating_duration_since(self.last_update);
        self.last_update = now;
        self.tick(delta, input_manager, displace);
        assert(update_step(old(self)@, self@, delta, *input_manager, displace));
    }
}

} // verus!
