//! Movement strategies: how an actor picks its next position each tick.

use crate::game::MoveInfo;
use crate::input::{GameKey, GameKeyCode, KeyboardInput};
use crate::rendering::windows::{WindowComponent, Windows, WindowsView};
use crate::util::{Bound, Contains, Point, PointEquality, XPointRelation, YPointRelation};
use rand::Rng;
use vstd::prelude::*;

verus! {

/// What the player is told when a move would leave the bounds.
pub const BLOCKED_MESSAGE: &'static str = "You can't move that way!";

/// The windows after a strategy has run: the message window holds one more
/// line where the strategy refused the player's move.
pub open spec fn after_move(windows: WindowsView, refused: bool) -> WindowsView {
    if refused {
        WindowsView { messages: windows.messages.buffer_message(BLOCKED_MESSAGE@), ..windows }
    } else {
        windows
    }
}

/// A way of choosing an actor's next position.
///
/// Whatever a strategy does, the actor stays where it is or ends up within
/// the bounds of the turn context.
pub trait MovementComponent {
    /// Whether the strategy may answer `next` for an actor at `point`.
    spec fn may_move(&self, point: Point, info: MoveInfo, next: Point) -> bool;

    /// Whether the strategy tells the player that it refused the move.
    spec fn refuses(&self, point: Point, info: MoveInfo) -> bool;

    /// The next position of an actor that stands at `point`.
    fn update(&self, point: Point, info: &MoveInfo, windows: &mut Windows) -> (next: Point)
        ensures
            self.may_move(point, *info, next),
            next == point || info.bounds.spec_contains(next),
            final(windows)@ == after_move(old(windows)@, self.refuses(point, *info)),
    ;
}

/// The point `dx` columns and `dy` rows away from `point`, where that cell
/// lies within `bounds`.
pub open spec fn step_within(bounds: Bound, point: Point, dx: int, dy: int) -> Option<Point> {
    if bounds.holds(point.x + dx, point.y + dy) {
        Some(point.translated(dx, dy))
    } else {
        None
    }
}

/// Takes one step of `(dx, dy)` from `point` unless that leaves `bounds`.
pub fn try_step(bounds: &Bound, point: Point, dx: i32, dy: i32) -> (next: Option<Point>)
    ensures
        next == step_within(*bounds, point, dx as int, dy as int),
{
    match (point.x.checked_add(dx), point.y.checked_add(dy)) {
        (Some(x), Some(y)) => {
            let target = Point { x, y };
            match bounds.contains(target) {
                Contains::DoesContain => Some(target),
                Contains::DoesNotContain => None,
            }
        },
        _ => None,
    }
}

/// Where a random walker ends up when it draws `dx` for the x axis and `dy`
/// for the y axis. The x step is tried first; a step that leaves the bounds
/// cancels the whole move.
pub open spec fn random_move(point: Point, bounds: Bound, dx: int, dy: int) -> Point {
    if !bounds.holds(point.x + dx, point.y as int) {
        point
    } else if !bounds.holds(point.x + dx, point.y + dy) {
        point
    } else {
        point.translated(dx, dy)
    }
}

/// `rand::Rng::gen_range` on the generator of `rand::thread_rng`: some
/// value from `low` up to, but not including, `high`. Which one is not
/// stated.
#[verifier::external_body]
fn roll(low: i32, high: i32) -> (value: i32)
    requires
        low < high,
    ensures
        low <= value < high,
{
    rand::thread_rng().gen_range(low, high)
}

/// Wanders: one random step of at most one cell along each axis.
#[derive(Copy, Clone, Debug, PartialEq, Eq, Structural)]
pub struct RandomMovementComponent;

impl RandomMovementComponent {
    /// A wanderer; it keeps no state.
    pub fn new() -> RandomMovementComponent {
        RandomMovementComponent
    }

    /// Where the walker ends up for given draws.
    pub fn resolve(point: Point, bounds: &Bound, dx: i32, dy: i32) -> (next: Point)
        ensures
            next == random_move(point, *bounds, dx as int, dy as int),
    {
        match try_step(bounds, point, dx, 0) {
            Some(along_x) => match try_step(bounds, along_x, 0, dy) {
                Some(target) => target,
                None => point,
            },
            None => point,
        }
    }
}

impl MovementComponent for RandomMovementComponent {
    open spec fn may_move(&self, point: Point, info: MoveInfo, next: Point) -> bool {
        exists|dx: int, dy: int|
            -1 <= dx <= 1 && -1 <= dy <= 1 && next == #[trigger] random_move(
                point,
                info.bounds,
                dx,
                dy,
            )
    }

    open spec fn refuses(&self, point: Point, info: MoveInfo) -> bool {
        false
    }

    fn update(&self, point: Point, info: &MoveInfo, windows: &mut Windows) -> (next: Point)
        ensures
            next.x - point.x <= 1 && point.x - next.x <= 1,
            next.y - point.y <= 1 && point.y - next.y <= 1,
            info.bounds.spec_contains(point) ==> info.bounds.spec_contains(next),
    {
        let dx = roll(0, 3i32) - 1;
        let along_x = match try_step(&info.bounds, point, dx, 0) {
            Some(along_x) => along_x,
            None => {
                assert(point == random_move(point, info.bounds, dx as int, 0));
                return point;
            },
        };

        let dy = roll(0, 3i32) - 1;
        let next = match try_step(&info.bounds, along_x, 0, dy) {
            Some(target) => target,
            None => point,
        };
        assert(next == random_move(point, info.bounds, dx as int, dy as int));
        next
    }
}

/// A random walker ends up at most one cell away along each axis, and
/// within the bounds wherever it started within them.
pub proof fn lemma_random_walk_stays_near(point: Point, info: MoveInfo, next: Point)
    requires
        RandomMovementComponent.may_move(point, info, next),
    ensures
        -1 <= next.x - point.x <= 1,
        -1 <= next.y - point.y <= 1,
        next == point || info.bounds.spec_contains(next),
        info.bounds.spec_contains(point) ==> info.bounds.spec_contains(next),
{
}

/// The step that a key asks for: each arrow moves one cell along one axis,
/// any other key moves nowhere.
pub open spec fn key_step(key: Option<KeyboardInput>) -> (int, int) {
    match key {
        Some(KeyboardInput { key: GameKey::SpecialKey(GameKeyCode::Up) }) => (0, -1),
        Some(KeyboardInput { key: GameKey::SpecialKey(GameKeyCode::Down) }) => (0, 1),
        Some(KeyboardInput { key: GameKey::SpecialKey(GameKeyCode::Left) }) => (-1, 0),
        Some(KeyboardInput { key: GameKey::SpecialKey(GameKeyCode::Right) }) => (1, 0),
        _ => (0, 0),
    }
}

/// Whether the player's key asks for a step that leaves the bounds.
pub open spec fn user_blocked(point: Point, info: MoveInfo) -> bool {
    let (dx, dy) = key_step(info.last_keypress);
    (dx != 0 || dy != 0) && !info.bounds.holds(point.x + dx, point.y + dy)
}

/// Where the player's key takes an actor at `point`.
pub open spec fn user_move(point: Point, info: MoveInfo) -> Point {
    let (dx, dy) = key_step(info.last_keypress);
    if info.bounds.holds(point.x + dx, point.y + dy) {
        point.translated(dx, dy)
    } else {
        point
    }
}

/// Follows the arrow keys.
#[derive(Copy, Clone, Debug, PartialEq, Eq, Structural)]
pub struct UserMovementComponent;

impl UserMovementComponent {
    /// A follower of the arrow keys; it keeps no state.
    pub fn new() -> UserMovementComponent {
        UserMovementComponent
    }
}

impl MovementComponent for UserMovementComponent {
    open spec fn may_move(&self, point: Point, info: MoveInfo, next: Point) -> bool {
        next == user_move(point, info)
    }

    open spec fn refuses(&self, point: Point, info: MoveInfo) -> bool {
        user_blocked(point, info)
    }

    fn update(&self, point: Point, info: &MoveInfo, windows: &mut Windows) -> (next: Point) {
        let (dx, dy): (i32, i32) = match info.last_keypress {
            Some(keypress) => {
                match keypress.key {
                    GameKey::SpecialKey(GameKeyCode::Up) => (0, -1),
                    GameKey::SpecialKey(GameKeyCode::Down) => (0, 1),
                    GameKey::SpecialKey(GameKeyCode::Left) => (-1, 0),
                    GameKey::SpecialKey(GameKeyCode::Right) => (1, 0),
                    _ => (0, 0),
                }
            },
            None => (0, 0),
        };
        if dx == 0 && dy == 0 {
            return point;
        }
        match try_step(&info.bounds, point, dx, dy) {
            Some(target) => target,
            None => {
                windows.messages.buffer_message(BLOCKED_MESSAGE);
                point
            },
        }
    }
}

/// The unit step along one axis that brings `from` closer to `to`.
pub open spec fn toward(from: int, to: int) -> int {
    if from > to {
        -1
    } else if from < to {
        1
    } else {
        0
    }
}

/// Where a chaser at `point` goes: one step toward the player's character
/// on each axis, unless that is the character's own cell or lies outside
/// the bounds.
pub open spec fn aggro_move(point: Point, info: MoveInfo) -> Point {
    let target = point.translated(
        toward(point.x as int, info.char_location.x as int),
        toward(point.y as int, info.char_location.y as int),
    );
    if target == info.char_location {
        point
    } else if info.bounds.spec_contains(target) {
        target
    } else {
        point
    }
}

/// A chaser that does not stand on the character's cell never steps onto
/// it, and every step it takes is one cell at most along each axis.
pub proof fn lemma_chaser_keeps_off_player(point: Point, info: MoveInfo)
    requires
        point != info.char_location,
    ensures
        aggro_move(point, info) != info.char_location,
        -1 <= aggro_move(point, info).x - point.x <= 1,
        -1 <= aggro_move(point, info).y - point.y <= 1,
        aggro_move(point, info) == point || info.bounds.spec_contains(aggro_move(point, info)),
{
}

/// A chaser never overshoots: along each axis it ends up between where it
/// was and where the character is.
pub proof fn lemma_chaser_closes_in(point: Point, info: MoveInfo)
    ensures
        point.x <= info.char_location.x ==> point.x <= aggro_move(point, info).x
            <= info.char_location.x,
        point.x >= info.char_location.x ==> point.x >= aggro_move(point, info).x
            >= info.char_location.x,
        point.y <= info.char_location.y ==> point.y <= aggro_move(point, info).y
            <= info.char_location.y,
        point.y >= info.char_location.y ==> point.y >= aggro_move(point, info).y
            >= info.char_location.y,
{
}

/// Chases the player's character.
#[derive(Copy, Clone, Debug, PartialEq, Eq, Structural)]
pub struct AggroMovementComponent;

impl AggroMovementComponent {
    /// A chaser; it keeps no state.
    pub fn new() -> AggroMovementComponent {
        AggroMovementComponent
    }
}

impl MovementComponent for AggroMovementComponent {
    open spec fn may_move(&self, point: Point, info: MoveInfo, next: Point) -> bool {
        next == aggro_move(point, info)
    }

    open spec fn refuses(&self, point: Point, info: MoveInfo) -> bool {
        false
    }

    fn update(&self, point: Point, info: &MoveInfo, windows: &mut Windows) -> (next: Point)
        ensures
            point != info.char_location ==> next != info.char_location,
    {
        let char_point = info.char_location;
        let mut offset = Point { x: 0, y: 0 };

        match point.compare_x(char_point) {
            XPointRelation::RightOfPoint => offset = offset.offset_x(-1),
            XPointRelation::LeftOfPoint => offset = offset.offset_x(1),
            XPointRelation::OnPointX => {},
        }

        match point.compare_y(char_point) {
            YPointRelation::BelowPoint => offset = offset.offset_y(-1),
            YPointRelation::AbovePoint => offset = offset.offset_y(1),
            YPointRelation::OnPointY => {},
        }

        match point.offset(offset).compare(char_point) {
            PointEquality::PointsEqual => point,
            PointEquality::PointsNotEqual => {
                match info.bounds.contains(point.offset(offset)) {
                    Contains::DoesContain => point.offset(offset),
                    Contains::DoesNotContain => point,
                }
            },
        }
    }
}

/// The strategy that an actor owns: one of the three ways of moving.
#[derive(Copy, Clone, Debug, PartialEq, Eq, Structural)]
pub enum MovementStrategy {
    Random(RandomMovementComponent),
    User(UserMovementComponent),
    Aggro(AggroMovementComponent),
}

impl MovementComponent for MovementStrategy {
    open spec fn may_move(&self, point: Point, info: MoveInfo, next: Point) -> bool {
        match *self {
            MovementStrategy::Random(random) => random.may_move(point, info, next),
            MovementStrategy::User(user) => user.may_move(point, info, next),
            MovementStrategy::Aggro(aggro) => aggro.may_move(point, info, next),
        }
    }

    open spec fn refuses(&self, point: Point, info: MoveInfo) -> bool {
        match *self {
            MovementStrategy::Random(random) => random.refuses(point, info),
            MovementStrategy::User(user) => user.refuses(point, info),
            MovementStrategy::Aggro(aggro) => aggro.refuses(point, info),
        }
    }

    fn update(&self, point: Point, info: &MoveInfo, windows: &mut Windows) -> (next: Point) {
        match self {
            MovementStrategy::Random(random) => random.update(point, info, windows),
            MovementStrategy::User(user) => user.update(point, info, windows),
            MovementStrategy::Aggro(aggro) => aggro.update(point, info, windows),
        }
    }
}

} // verus!
