//! Actors: everything that stands on the map and moves.

use crate::game::MoveInfo;
use crate::movement::{
    after_move, AggroMovementComponent, MovementComponent, MovementStrategy,
    RandomMovementComponent, UserMovementComponent,
};
use crate::rendering::renderers::{Color, DrawCallView, RenderingComponent};
use crate::rendering::windows::Windows;
use crate::util::Point;
use vstd::prelude::*;

verus! {

/// Someone on the map: where it stands, how it looks, how it moves, and
/// whether it is the player's character.
#[derive(Copy, Debug, PartialEq, Eq, Structural)]
pub struct Actor {
    pub position: Point,
    pub display_char: char,
    pub movement_component: MovementStrategy,
    pub is_pc: bool,
    pub health: u8,
    pub foreground: Color,
    pub background: Color,
}

impl Clone for Actor {
    fn clone(&self) -> (copy: Actor)
        ensures
            copy == *self,
    {
        let mc = self.movement_component.clone();
        Actor::new(
            self.position.x,
            self.position.y,
            self.display_char,
            mc,
            self.is_pc,
            self.foreground,
            self.background,
            self.health,
        )
    }
}

impl Actor {
    /// An actor at column `x`, row `y`.
    pub fn new(
        x: i32,
        y: i32,
        dc: char,
        mc: MovementStrategy,
        is_pc: bool,
        foreground: Color,
        background: Color,
        health: u8,
    ) -> (actor: Actor)
        ensures
            actor == (Actor {
                position: Point { x, y },
                display_char: dc,
                movement_component: mc,
                is_pc,
                health,
                foreground,
                background,
            }),
    {
        Actor {
            position: Point { x: x, y: y },
            display_char: dc,
            movement_component: mc,
            is_pc: is_pc,
            health: health,
            foreground: foreground,
            background: background,
        }
    }

    /// This actor, standing at `position`.
    pub open spec fn at(self, position: Point) -> Actor {
        Actor { position, ..self }
    }

    /// Whether one tick under `info` may turn this actor into `after`: only
    /// the position changes, and only as the actor's strategy allows.
    pub open spec fn may_become(self, info: MoveInfo, after: Actor) -> bool {
        &&& after == self.at(after.position)
        &&& self.movement_component.may_move(self.position, info, after.position)
    }

    /// Whether the actor's strategy tells the player that it refused the
    /// move.
    pub open spec fn refuses(self, info: MoveInfo) -> bool {
        self.movement_component.refuses(self.position, info)
    }

    /// Moves the actor by one tick of its strategy.
    pub fn update(&mut self, info: &MoveInfo, windows: &mut Windows)
        ensures
            old(self).may_become(*info, *final(self)),
            final(self).position == old(self).position || info.bounds.spec_contains(
                final(self).position,
            ),
            final(windows)@ == after_move(old(windows)@, old(self).refuses(*info)),
    {
        self.position = self.movement_component.update(self.position, info, windows);
    }

    /// The call that draws this actor.
    pub open spec fn glyph(self) -> DrawCallView {
        DrawCallView::Object {
            position: self.position,
            symbol: self.display_char,
            foreground: self.foreground,
            background: self.background,
        }
    }

    /// Draws the actor's glyph where the actor stands.
    pub fn render<R: RenderingComponent>(&self, rendering_component: &mut R)
        ensures
            final(rendering_component).calls() == old(rendering_component).calls().push(
                self.glyph(),
            ),
    {
        rendering_component.render_object(
            self.position,
            self.display_char,
            self.foreground,
            self.background,
        );
    }

    /// A dog: a white `d` that wanders.
    pub fn dog(x: i32, y: i32) -> (actor: Actor)
        ensures
            actor == (Actor {
                position: Point { x, y },
                display_char: 'd',
                movement_component: MovementStrategy::Random(RandomMovementComponent),
                is_pc: false,
                health: 20,
                foreground: Color::White,
                background: Color::Black,
            }),
    {
        let mc = MovementStrategy::Random(RandomMovementComponent::new());
        Actor::new(x, y, 'd', mc, false, Color::White, Color::Black, 20u8)
    }

    /// A cat: a white `c` that wanders.
    pub fn cat(x: i32, y: i32) -> (actor: Actor)
        ensures
            actor == (Actor {
                position: Point { x, y },
                display_char: 'c',
                movement_component: MovementStrategy::Random(RandomMovementComponent),
                is_pc: false,
                health: 20,
                foreground: Color::White,
                background: Color::Black,
            }),
    {
        let mc = MovementStrategy::Random(RandomMovementComponent::new());
        Actor::new(x, y, 'c', mc, false, Color::White, Color::Black, 20u8)
    }

    /// The player's character, standing where the turn context says.
    pub fn heroine(move_info: &MoveInfo) -> (actor: Actor)
        ensures
            actor == (Actor {
                position: move_info.char_location,
                display_char: '@',
                movement_component: MovementStrategy::User(UserMovementComponent),
                is_pc: true,
                health: 20,
                foreground: Color::Blue,
                background: Color::Black,
            }),
    {
        let point = move_info.char_location;
        let mc = MovementStrategy::User(UserMovementComponent::new());
        Actor::new(point.x, point.y, '@', mc, true, Color::Blue, Color::Black, 20u8)
    }

    /// A kobold: a red `k` that chases the player's character.
    pub fn kobold(x: i32, y: i32) -> (actor: Actor)
        ensures
            actor == (Actor {
                position: Point { x, y },
                display_char: 'k',
                movement_component: MovementStrategy::Aggro(AggroMovementComponent),
                is_pc: false,
                health: 20,
                foreground: Color::Red,
                background: Color::Black,
            }),
    {
        let mc = MovementStrategy::Aggro(AggroMovementComponent::new());
        Actor::new(x, y, 'k', mc, false, Color::Red, Color::Black, 20u8)
    }
}

} // verus!
