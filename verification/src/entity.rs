//! The controllable entity and its motion rules.
//!
//! Coordinates, sizes and the speed are fixed-point integers in one unit that
//! the caller chooses (tenths of a pixel, say). A coordinate that a motion rule
//! would carry past the range of `i64` stays at the end of that range.

use vstd::prelude::*;
use crate::action::{is_mapped, key_action, ActionCode};
use crate::render::{DrawCommand, Rect};

verus! {

/// A position: x, then y.
pub type Position = (i64, i64);

/// The nearest value to `v` that a coordinate can hold.
pub open spec fn saturate(v: int) -> int {
    if v < i64::MIN {
        i64::MIN as int
    } else if v > i64::MAX {
        i64::MAX as int
    } else {
        v
    }
}

/// The entity: where it is, how large it is, and how far it moves per tick.
#[derive(Clone, Copy, Debug, PartialEq, Eq, Structural)]
pub struct Player {
    pub x: i64,
    pub y: i64,
    pub width: i64,
    pub height: i64,
    pub speed: i64,
}

impl Player {
    /// The least x that a move to the left can reach: the entity's own width.
    pub open spec fn min_x(self) -> int {
        self.width as int
    }

    /// The greatest x that a move to the right can reach: the arena's width
    /// less twice the entity's.
    pub open spec fn max_x(self, arena_width: int) -> int {
        arena_width - 2 * self.width
    }

    /// The least y that a move up can reach: the entity's own height.
    pub open spec fn min_y(self) -> int {
        self.height as int
    }

    /// The greatest y that a move down can reach: the arena's height less
    /// twice the entity's.
    pub open spec fn max_y(self, arena_height: int) -> int {
        arena_height - 2 * self.height
    }

    /// Whether the position lies within the clamp bounds on both axes.
    pub open spec fn in_bounds(self, arena_width: int, arena_height: int) -> bool {
        &&& self.min_x() <= self.x <= self.max_x(arena_width)
        &&& self.min_y() <= self.y <= self.max_y(arena_height)
    }

    /// The entity after one action in an arena of the given size. Only the
    /// position ever changes, and only on the axis of the action.
    pub open spec fn moved(self, action: ActionCode, arena_width: int, arena_height: int) -> Player {
        match action {
            ActionCode::Up => Player {
                y: saturate(vstd::math::max(self.y - self.speed, self.min_y())) as i64,
                ..self
            },
            ActionCode::Right => Player {
                x: saturate(vstd::math::min(self.x + self.speed, self.max_x(arena_width))) as i64,
                ..self
            },
            ActionCode::Down => Player {
                y: saturate(vstd::math::min(self.y + self.speed, self.max_y(arena_height))) as i64,
                ..self
            },
            ActionCode::Left => Player {
                x: saturate(vstd::math::max(self.x - self.speed, self.min_x())) as i64,
                ..self
            },
            ActionCode::Primary | ActionCode::Idle | ActionCode::Unrecognized => self,
        }
    }

    /// The entity after a sequence of actions, first to last.
    pub open spec fn moved_all(self, actions: Seq<ActionCode>, arena_width: int, arena_height: int) -> Player
        decreases actions.len(),
    {
        if actions.len() == 0 {
            self
        } else {
            self.moved_all(actions.drop_last(), arena_width, arena_height).moved(
                actions.last(),
                arena_width,
                arena_height,
            )
        }
    }

    /// The rectangle that the entity covers.
    pub open spec fn bounds(self) -> Rect {
        Rect { x: self.x, y: self.y, width: self.width, height: self.height }
    }

    /// The commands that draw the entity: its outline, then its body. They are
    /// draw primitives alone; the styles are those set at startup.
    pub open spec fn draw_commands(self) -> Seq<DrawCommand> {
        seq![DrawCommand::StrokeRect(self.bounds()), DrawCommand::FillRect(self.bounds())]
    }

    /// An entity with the given position, size and speed. Nothing is clamped
    /// here: the bounds take hold with the first move on each axis.
    pub fn new(x: i64, y: i64, width: i64, height: i64, speed: i64) -> (player: Player)
        ensures
            player == (Player { x, y, width, height, speed }),
    {
        Player { x, y, width, height, speed }
    }

    /// The current position.
    pub fn get_pos(&self) -> (pos: Position)
        ensures
            pos == (self.x, self.y),
    {
        (self.x, self.y)
    }

    /// Places the entity, unclamped.
    pub fn set_pos(&mut self, pos: Position)
        ensures
            *final(self) == (Player { x: pos.0, y: pos.1, ..*old(self) }),
    {
        self.x = pos.0;
        self.y = pos.1;
    }

    /// Applies one action in an arena of the given size.
    ///
    /// Up and left stop at the entity's own height and width; right and down
    /// stop at the arena's extent less twice the entity's. `Primary`, `Idle`
    /// and `Unrecognized` change nothing. A move never fails: it ends at the
    /// bound instead of being refused.
    pub fn update(&mut self, keyevent: ActionCode, arena_width: i64, arena_height: i64)
        ensures
            *final(self) == old(self).moved(keyevent, arena_width as int, arena_height as int),
            keyevent.is_motionless() ==> *final(self) == *old(self),
            old(self).speed >= 0 && old(self).in_bounds(arena_width as int, arena_height as int)
                ==> final(self).in_bounds(arena_width as int, arena_height as int),
    {
        match keyevent {
            ActionCode::Up => {
                self.y = at_least(self.y as i128 - self.speed as i128, self.height);
            },
            ActionCode::Right => {
                self.x = at_most(
                    self.x as i128 + self.speed as i128,
                    arena_width as i128 - 2 * (self.width as i128),
                );
            },
            ActionCode::Down => {
                self.y = at_most(
                    self.y as i128 + self.speed as i128,
                    arena_height as i128 - 2 * (self.height as i128),
                );
            },
            ActionCode::Left => {
                self.x = at_least(self.x as i128 - self.speed as i128, self.width);
            },
            ActionCode::Primary | ActionCode::Idle | ActionCode::Unrecognized => {},
        }
    }

    /// The drawing commands for the entity as it stands: a stroke and a fill
    /// of the rectangle it covers, and no style command.
    pub fn draw(&self) -> (commands: Vec<DrawCommand>)
        ensures
            commands@ == self.draw_commands(),
            commands@ == seq![DrawCommand::StrokeRect(self.bounds()), DrawCommand::FillRect(self.bounds())],
    {
        let body = Rect { x: self.x, y: self.y, width: self.width, height: self.height };
        let mut commands: Vec<DrawCommand> = Vec::new();
        commands.push(DrawCommand::StrokeRect(body));
        commands.push(DrawCommand::FillRect(body));
        assert(commands@ =~= self.draw_commands());
        commands
    }
}

/// The coordinate nearest to `v`.
fn to_coordinate(v: i128) -> (c: i64)
    ensures
        c == saturate(v as int),
{
    if v < i64::MIN as i128 {
        i64::MIN
    } else if v > i64::MAX as i128 {
        i64::MAX
    } else {
        v as i64
    }
}

/// The greater of a target and a lower bound, as a coordinate.
fn at_least(target: i128, bound: i64) -> (c: i64)
    ensures
        c == saturate(vstd::math::max(target as int, bound as int)),
{
    if target < bound as i128 {
        bound
    } else {
        to_coordinate(target)
    }
}

/// The lesser of a target and an upper bound, as a coordinate.
fn at_most(target: i128, bound: i128) -> (c: i64)
    ensures
        c == saturate(vstd::math::min(target as int, bound as int)),
{
    if target > bound {
        to_coordinate(bound)
    } else {
        to_coordinate(target)
    }
}

/// The clamp invariant. An entity that moves forward (its speed is not
/// negative) and starts within the clamp bounds is within them after every
/// sequence of actions, and so after each single one.
pub proof fn lemma_clamp_invariant(
    player: Player,
    actions: Seq<ActionCode>,
    arena_width: int,
    arena_height: int,
)
    requires
        player.speed >= 0,
        player.in_bounds(arena_width, arena_height),
    ensures
        player.moved_all(actions, arena_width, arena_height).in_bounds(arena_width, arena_height),
        player.moved_all(actions, arena_width, arena_height).speed == player.speed,
        player.moved_all(actions, arena_width, arena_height).width == player.width,
        player.moved_all(actions, arena_width, arena_height).height == player.height,
    decreases actions.len(),
{
    if actions.len() > 0 {
        lemma_clamp_invariant(player, actions.drop_last(), arena_width, arena_height);
    }
}

/// Within the clamp bounds, an entity whose size is not negative lies inside
/// the arena, and so does the far corner of the rectangle it covers.
pub proof fn lemma_bounds_lie_in_arena(player: Player, arena_width: int, arena_height: int)
    requires
        player.width >= 0,
        player.height >= 0,
        player.in_bounds(arena_width, arena_height),
    ensures
        0 <= player.x <= arena_width,
        0 <= player.y <= arena_height,
        player.x + player.width <= arena_width,
        player.y + player.height <= arena_height,
{
}

/// Saturation, not oscillation. From a y at its lower clamp bound, with a
/// speed that is not negative, any number of moves up leaves the entity as it
/// is.
pub proof fn lemma_up_saturates(
    player: Player,
    actions: Seq<ActionCode>,
    arena_width: int,
    arena_height: int,
)
    requires
        player.speed >= 0,
        player.y == player.min_y(),
        forall|i: int| 0 <= i < actions.len() ==> actions[i] == ActionCode::Up,
    ensures
        player.moved_all(actions, arena_width, arena_height) == player,
    decreases actions.len(),
{
    if actions.len() > 0 {
        lemma_up_saturates(player, actions.drop_last(), arena_width, arena_height);
    }
}

/// A sequence of actions that move nothing leaves the entity as it is.
pub proof fn lemma_motionless_actions(
    player: Player,
    actions: Seq<ActionCode>,
    arena_width: int,
    arena_height: int,
)
    requires
        forall|i: int| 0 <= i < actions.len() ==> (#[trigger] actions[i]).is_motionless(),
    ensures
        player.moved_all(actions, arena_width, arena_height) == player,
    decreases actions.len(),
{
    if actions.len() > 0 {
        lemma_motionless_actions(player, actions.drop_last(), arena_width, arena_height);
    }
}

/// A key outside the mapping table is translated to `Unrecognized`, and that
/// action, applied once or again, leaves the entity as it is.
pub proof fn lemma_unmapped_key_moves_nothing(
    key: Seq<char>,
    player: Player,
    arena_width: int,
    arena_height: int,
)
    requires
        !is_mapped(key),
    ensures
        key_action(key) == ActionCode::Unrecognized,
        player.moved(key_action(key), arena_width, arena_height) == player,
        player.moved(key_action(key), arena_width, arena_height).moved(
            key_action(key),
            arena_width,
            arena_height,
        ) == player,
{
}

/// Where no coordinate leaves the range of `i64`, a move is the plain rule:
/// the greater, or the lesser, of the target and the bound.
pub proof fn lemma_moved_in_range(player: Player, action: ActionCode, arena_width: int, arena_height: int)
    requires
        i64::MIN <= player.x - player.speed <= i64::MAX,
        i64::MIN <= player.x + player.speed <= i64::MAX,
        i64::MIN <= player.y - player.speed <= i64::MAX,
        i64::MIN <= player.y + player.speed <= i64::MAX,
        i64::MIN <= player.max_x(arena_width) <= i64::MAX,
        i64::MIN <= player.max_y(arena_height) <= i64::MAX,
    ensures
        action is Up ==> player.moved(action, arena_width, arena_height).y == vstd::math::max(
            player.y - player.speed,
            player.height as int,
        ),
        action is Right ==> player.moved(action, arena_width, arena_height).x == vstd::math::min(
            player.x + player.speed,
            arena_width - 2 * player.width,
        ),
        action is Down ==> player.moved(action, arena_width, arena_height).y == vstd::math::min(
            player.y + player.speed,
            arena_height - 2 * player.height,
        ),
        action is Left ==> player.moved(action, arena_width, arena_height).x == vstd::math::max(
            player.x - player.speed,
            player.width as int,
        ),
{
}

} // verus!
