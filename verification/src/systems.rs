//! The movement pass: once per tick it turns the held actions into a direction
//! and displaces every entity that directional input moves.
//!
//! The pass decides which entities move and in which direction. The new
//! position itself is arithmetic on single-precision numbers and is computed
//! by the kernel that the host hands in.

use crate::components::{Entity, MoveSpeed, Transform};
use crate::input::{InputAction, InputManager};
use crate::math::Vec2;
use crate::scene::Scene;
use crate::time::Time;
use vstd::prelude::*;

verus! {

/// The direction that the held actions ask for: one step of -1, 0 or 1 on each
/// of the two axes, before any normalisation.
#[derive(Clone, Copy, Debug, PartialEq, Eq, Structural)]
pub struct Direction {
    pub x: i8,
    pub y: i8,
}

impl Direction {
    /// The squared length of the direction.
    pub open spec fn length_squared(self) -> int {
        self.x * self.x + self.y * self.y
    }

    /// Whether the direction is the zero vector.
    pub open spec fn is_zero(self) -> bool {
        self.x == 0 && self.y == 0
    }

    /// Whether the direction is one that held actions can give and that moves
    /// an entity: each axis within one step, and not both zero.
    pub open spec fn is_step(self) -> bool {
        -1 <= self.x <= 1 && -1 <= self.y <= 1 && !self.is_zero()
    }

    /// Whether no displacement follows from this direction.
    pub fn is_still(&self) -> (still: bool)
        ensures
            still == self.is_zero(),
            still == (self.length_squared() == 0),
    {
        assert(self.x * self.x >= 0 && self.y * self.y >= 0) by (nonlinear_arith);
        assert(self.x != 0 ==> self.x * self.x > 0) by (nonlinear_arith);
        assert(self.y != 0 ==> self.y * self.y > 0) by (nonlinear_arith);
        self.x == 0 && self.y == 0
    }
}

/// What two opposed actions add up to on one axis: the action on the positive
/// side counts 1, the one on the negative side -1.
pub open spec fn axis_sum(positive: bool, negative: bool) -> int {
    (if positive { 1int } else { 0int }) - (if negative { 1int } else { 0int })
}

/// The direction that a set of held actions asks for.
pub open spec fn direction_of(held: Set<InputAction>) -> Direction {
    Direction {
        x: axis_sum(
            held.contains(InputAction::MoveRight),
            held.contains(InputAction::MoveLeft),
        ) as i8,
        y: axis_sum(
            held.contains(InputAction::MoveForward),
            held.contains(InputAction::MoveBack),
        ) as i8,
    }
}

/// Computes the direction that `input` asks for.
pub fn movement_direction(input: &InputManager) -> (d: Direction)
    ensures
        d == direction_of(input@),
{
    let mut x: i8 = 0;
    let mut y: i8 = 0;
    if input.is_action_pressed(&InputAction::MoveForward) {
        y = y + 1;
    }
    if input.is_action_pressed(&InputAction::MoveBack) {
        y = y - 1;
    }
    if input.is_action_pressed(&InputAction::MoveLeft) {
        x = x - 1;
    }
    if input.is_action_pressed(&InputAction::MoveRight) {
        x = x + 1;
    }
    Direction { x, y }
}

/// How the movement pass relates one entity before it to the same entity
/// after it, for the direction `dir` and the clock `time`.
///
/// An entity that the pass acts on keeps everything but its position, and its
/// new position is one that `displace` returns for its old position, the
/// direction, its speed and the clock. Every other entity, and every entity
/// when the direction is zero, is unchanged.
pub open spec fn entity_step<F: Fn(Vec2, Direction, MoveSpeed, Time) -> Vec2>(
    pre: Entity,
    post: Entity,
    dir: Direction,
    time: Time,
    displace: F,
) -> bool {
    if pre.is_mover() && !dir.is_zero() {
        &&& post.player == pre.player
        &&& post.move_speed == pre.move_speed
        &&& post.renderable == pre.renderable
        &&& post.transform is Some
        &&& post.transform->0.scale == pre.transform->0.scale
        &&& post.transform->0.rotation == pre.transform->0.rotation
        &&& call_ensures(
            displace,
            (pre.transform->0.position, dir, pre.move_speed->0, time),
            post.transform->0.position,
        )
    } else {
        post == pre
    }
}

/// How the movement pass relates the scene before it to the scene after it.
pub open spec fn movement_step<F: Fn(Vec2, Direction, MoveSpeed, Time) -> Vec2>(
    pre: Scene,
    post: Scene,
    displace: F,
) -> bool {
    &&& post.time == pre.time
    &&& post.input == pre.input
    &&& post.entities@.len() == pre.entities@.len()
    &&& forall|i: int|
        0 <= i < pre.entities@.len() ==> entity_step(
            pre.entities@[i],
            #[trigger] post.entities@[i],
            direction_of(pre.input@),
            pre.time,
            displace,
        )
}

/// Runs the movement pass on `scene`.
///
/// `displace(position, direction, speed, time)` is the host's arithmetic: it
/// returns the position that an entity reaches from `position` when it moves
/// along the normalised `direction` at `speed` for the clock's delta.
pub fn player_movement_system<F: Fn(Vec2, Direction, MoveSpeed, Time) -> Vec2>(
    scene: &mut Scene,
    displace: F,
)
    requires
        forall|p: Vec2, d: Direction, s: MoveSpeed, t: Time|
            d.is_step() ==> call_requires(displace, (p, d, s, t)),
    ensures
        movement_step(*old(scene), *final(scene), displace),
{
    let dir = movement_direction(&scene.input);
    if dir.is_still() {
        return ;
    }
    let time = scene.time;
    let n = scene.entities.len();
    let mut i: usize = 0;
    while i < n
        invariant
            i <= n,
            n == old(scene).entities@.len(),
            scene.entities@.len() == n,
            scene.time == old(scene).time,
            scene.input == old(scene).input,
            time == old(scene).time,
            dir == direction_of(old(scene).input@),
            dir.is_step(),
            forall|p: Vec2, d: Direction, s: MoveSpeed, t: Time|
                d.is_step() ==> call_requires(displace, (p, d, s, t)),
            forall|j: int|
                0 <= j < i ==> entity_step(
                    old(scene).entities@[j],
                    #[trigger] scene.entities@[j],
                    dir,
                    time,
                    displace,
                ),
            forall|j: int| i <= j < n ==> scene.entities@[j] == old(scene).entities@[j],
        decreases n - i,
    {
        let entity = scene.entities[i];
        if let (Some(_), Some(speed), Some(transform)) = (
            entity.player,
            entity.move_speed,
            entity.transform,
        ) {
            let position = displace(transform.position, dir, speed, time);
            let moved = Entity {
                player: entity.player,
                move_speed: entity.move_speed,
                transform: Some(
                    Transform { position, scale: transform.scale, rotation: transform.rotation },
                ),
                renderable: entity.renderable,
            };
            scene.entities.set(i, moved);
        }
        i = i + 1;
    }
}

/// An entity that the movement pass does not act on, and so every entity
/// without the player marker, is the same after one pass as before it,
/// whatever is held.
pub proof fn lemma_pass_keeps_others<F: Fn(Vec2, Direction, MoveSpeed, Time) -> Vec2>(
    pre: Scene,
    post: Scene,
    displace: F,
    i: int,
)
    requires
        movement_step(pre, post, displace),
        0 <= i < pre.entities@.len(),
        !pre.entities@[i].is_mover(),
    ensures
        post.entities@[i] == pre.entities@[i],
{
}

/// Whether `after[k]` is the scene that the movement pass makes of
/// `before[k]`, for every `k`, and between two passes only the clock and the
/// held actions change.
pub open spec fn is_run<F: Fn(Vec2, Direction, MoveSpeed, Time) -> Vec2>(
    before: Seq<Scene>,
    after: Seq<Scene>,
    displace: F,
) -> bool {
    &&& before.len() == after.len()
    &&& forall|k: int| 0 <= k < before.len() ==> movement_step(before[k], #[trigger] after[k], displace)
    &&& forall|k: int|
        0 < k < before.len() ==> (#[trigger] before[k]).entities@ == after[k - 1].entities@
}

/// An entity that the movement pass does not act on, and so every entity
/// without the player marker, is the same after any number of passes as
/// before the first, whatever is held at each of them.
pub proof fn lemma_run_keeps_others<F: Fn(Vec2, Direction, MoveSpeed, Time) -> Vec2>(
    before: Seq<Scene>,
    after: Seq<Scene>,
    displace: F,
    i: int,
    k: int,
)
    requires
        is_run(before, after, displace),
        0 <= k < before.len(),
        0 <= i < before[0].entities@.len(),
        !before[0].entities@[i].is_mover(),
    ensures
        after[k].entities@.len() == before[0].entities@.len(),
        after[k].entities@[i] == before[0].entities@[i],
    decreases k,
{
    if k > 0 {
        lemma_run_keeps_others(before, after, displace, i, k - 1);
        assert(before[k].entities@ == after[k - 1].entities@);
    }
    assert(movement_step(before[k], after[k], displace));
}

/// With an action held on one side of an axis and none on the other, the
/// direction is one whole step on that axis: already a unit vector, which
/// normalising leaves as it is.
pub proof fn lemma_single_action_is_unit(held: Set<InputAction>, action: InputAction)
    requires
        held == Set::<InputAction>::empty().insert(action),
    ensures
        direction_of(held).length_squared() == 1,
        action == InputAction::MoveForward ==> direction_of(held) == (Direction { x: 0, y: 1 }),
        action == InputAction::MoveBack ==> direction_of(held) == (Direction { x: 0, y: -1i8 }),
        action == InputAction::MoveLeft ==> direction_of(held) == (Direction { x: -1i8, y: 0 }),
        action == InputAction::MoveRight ==> direction_of(held) == (Direction { x: 1, y: 0 }),
{
    lemma_step_squared(direction_of(held).x as int);
    lemma_step_squared(direction_of(held).y as int);
}

/// With forward and right held and nothing else, the direction is one step on
/// each axis: the diagonal `(1, 1)`, of squared length two.
pub proof fn lemma_forward_right_is_diagonal(held: Set<InputAction>)
    requires
        held == Set::<InputAction>::empty().insert(InputAction::MoveForward).insert(
            InputAction::MoveRight,
        ),
    ensures
        direction_of(held) == (Direction { x: 1, y: 1 }),
        direction_of(held).length_squared() == 2,
{
    lemma_step_squared(1);
}

/// With forward held alone, an entity that the pass acts on is displaced
/// along the unit vector `(0, 1)`: its new position is what the kernel returns
/// for its old position, that direction, its own speed and the clock.
pub proof fn lemma_forward_only_pass<F: Fn(Vec2, Direction, MoveSpeed, Time) -> Vec2>(
    pre: Scene,
    post: Scene,
    displace: F,
    i: int,
)
    requires
        movement_step(pre, post, displace),
        pre.input@ == Set::<InputAction>::empty().insert(InputAction::MoveForward),
        0 <= i < pre.entities@.len(),
        pre.entities@[i].is_mover(),
    ensures
        post.entities@[i].transform is Some,
        call_ensures(
            displace,
            (
                pre.entities@[i].transform->0.position,
                Direction { x: 0, y: 1 },
                pre.entities@[i].move_speed->0,
                pre.time,
            ),
            post.entities@[i].transform->0.position,
        ),
{
    lemma_single_action_is_unit(pre.input@, InputAction::MoveForward);
}

/// With forward and right held and nothing else, an entity that the pass acts
/// on is displaced along the diagonal `(1, 1)`, which the kernel normalises:
/// its new position is what the kernel returns for its old position, that
/// direction, its own speed and the clock.
pub proof fn lemma_forward_right_pass<F: Fn(Vec2, Direction, MoveSpeed, Time) -> Vec2>(
    pre: Scene,
    post: Scene,
    displace: F,
    i: int,
)
    requires
        movement_step(pre, post, displace),
        pre.input@ == Set::<InputAction>::empty().insert(InputAction::MoveForward).insert(
            InputAction::MoveRight,
        ),
        0 <= i < pre.entities@.len(),
        pre.entities@[i].is_mover(),
    ensures
        post.entities@[i].transform is Some,
        call_ensures(
            displace,
            (
                pre.entities@[i].transform->0.position,
                Direction { x: 1, y: 1 },
                pre.entities@[i].move_speed->0,
                pre.time,
            ),
            post.entities@[i].transform->0.position,
        ),
{
    lemma_forward_right_is_diagonal(pre.input@);
}

/// Two opposed actions that are both held cancel on their axis.
pub proof fn lemma_opposed_actions_cancel(held: Set<InputAction>)
    ensures
        held.contains(InputAction::MoveForward) && held.contains(InputAction::MoveBack)
            ==> direction_of(held).y == 0,
        held.contains(InputAction::MoveLeft) && held.contains(InputAction::MoveRight)
            ==> direction_of(held).x == 0,
{
}

/// With forward and back held together, and left and right either both held
/// or both not, the pass displaces nothing: the scene is the same after it.
pub proof fn lemma_cancelled_pass_is_still<F: Fn(Vec2, Direction, MoveSpeed, Time) -> Vec2>(
    pre: Scene,
    post: Scene,
    displace: F,
)
    requires
        movement_step(pre, post, displace),
        pre.input@.contains(InputAction::MoveForward),
        pre.input@.contains(InputAction::MoveBack),
        pre.input@.contains(InputAction::MoveLeft) == pre.input@.contains(InputAction::MoveRight),
    ensures
        post.entities@ == pre.entities@,
        post.time == pre.time,
        post.input == pre.input,
{
    assert(direction_of(pre.input@).is_zero());
    assert(post.entities@ =~= pre.entities@);
}

/// Every direction that held actions can give is within one step on each
/// axis, so a direction that is not zero is one that the kernel accepts.
pub proof fn lemma_direction_is_step_or_zero(held: Set<InputAction>)
    ensures
        direction_of(held).is_zero() || direction_of(held).is_step(),
        0 <= direction_of(held).length_squared() <= 2,
{
    lemma_step_squared(direction_of(held).x as int);
    lemma_step_squared(direction_of(held).y as int);
}

/// The square of a step of -1, 0 or 1.
proof fn lemma_step_squared(x: int)
    requires
        -1 <= x <= 1,
    ensures
        x * x == (if x == 0 { 0int } else { 1int }),
{
    assert(x * x == (if x == 0 { 0int } else { 1int })) by (nonlinear_arith)
        requires
            -1 <= x <= 1,
    ;
}

} // verus!
