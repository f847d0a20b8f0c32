//! The states of the game: how a key is read, and what a tick does with it.

use crate::actor::Actor;
use crate::combat::{Armament, Weapon};
use crate::game::MoveInfo;
use crate::input::{GameKey, GameKeyCode, KeyboardInput};
use crate::map::{Maps, TurnState};
use crate::movement::{key_step, try_step};
use crate::narration::{attack_prompt, attack_report, prompt_for, report_attack, NO_ENEMY_MESSAGE};
use crate::rendering::renderers::{DrawCallView, RenderingComponent};
use crate::rendering::windows::{WindowComponent, WindowView, Windows, WindowsView};
use crate::util::{Bound, Point};
use vstd::prelude::*;

verus! {

/// The calls that draw one frame: an empty screen, the four windows, the
/// layers of the map, and the frame shown.
pub open spec fn frame(windows: WindowsView, maps: Maps) -> Seq<DrawCallView> {
    seq![DrawCallView::NewFrame] + windows.all_windows().map_values(
        |window: WindowView| DrawCallView::Window(window),
    ) + maps.draw_calls() + seq![DrawCallView::EndFrame]
}

/// One state of the game.
pub trait GameState: Sized {
    /// Whether the state gives way to the one that the next key selects.
    spec fn ready(&self) -> bool;

    /// The windows after the game has come into this state.
    spec fn entered(&self, windows: WindowsView) -> WindowsView;

    /// The windows after the game has left this state.
    spec fn exited(&self, windows: WindowsView) -> WindowsView;

    /// Whether one tick in this state may lead from `maps` and `start` to
    /// the state `after` with `maps_after` and `end`.
    spec fn updated(
        &self,
        maps: Maps,
        start: TurnState,
        after: Self,
        maps_after: Maps,
        end: TurnState,
    ) -> bool;

    /// Comes into this state.
    fn enter(&self, windows: &mut Windows)
        ensures
            final(windows)@ == self.entered(old(windows)@),
    ;

    /// Leaves this state.
    fn exit(&self, windows: &mut Windows)
        ensures
            final(windows)@ == self.exited(old(windows)@),
    ;

    /// Whether the state gives way to the one that the next key selects.
    fn should_update_state(&self) -> (ready: bool)
        ensures
            ready == self.ready(),
    ;

    /// Runs one tick in this state.
    fn update(&mut self, maps: &mut Maps, windows: &mut Windows, move_info: &mut MoveInfo)
        requires
            old(maps).ready(old(move_info).bounds),
        ensures
            old(self).updated(
                *old(maps),
                TurnState { info: *old(move_info), windows: old(windows)@ },
                *final(self),
                *final(maps),
                TurnState { info: *final(move_info), windows: final(windows)@ },
            ),
            final(maps).ready(final(move_info).bounds),
            final(move_info).bounds == old(move_info).bounds,
            final(move_info).last_keypress == old(move_info).last_keypress,
    ;

    /// Draws one frame. Every state draws the same.
    fn render<R: RenderingComponent>(&self, renderer: &mut R, maps: &Maps, windows: &Windows)
        requires
            maps.wf(),
        ensures
            final(renderer).calls() == old(renderer).calls() + frame(windows@, *maps),
    {
        let ghost shown = renderer.calls();
        let ghost panes = windows@.all_windows().map_values(
            |window: WindowView| DrawCallView::Window(window),
        );
        renderer.before_render_new_frame();
        let all_windows = windows.all_windows();
        let mut i: usize = 0;
        while i < all_windows.len()
            invariant
                i <= all_windows.len(),
                all_windows@ == seq![
                    &windows.stats,
                    &windows.input,
                    &windows.messages,
                    &windows.map,
                ],
                panes == windows@.all_windows().map_values(
                    |window: WindowView| DrawCallView::Window(window),
                ),
                renderer.calls() == shown + seq![DrawCallView::NewFrame] + panes.take(i as int),
            decreases all_windows.len() - i,
        {
            renderer.attach_window(all_windows[i]);
            i = i + 1;
        }
        maps.render(renderer);
        renderer.after_render_new_frame();
    }
}

/// Whether a key, pressed in free movement, lets the world move on. Shift
/// alone does not: it only leads up to an attack key.
pub open spec fn moves_world(key: Option<KeyboardInput>) -> bool {
    match key {
        Some(KeyboardInput { key: GameKey::SpecialKey(GameKeyCode::Shift) }) => false,
        Some(_) => true,
        None => false,
    }
}

/// Free movement: every key moves the world on by one tick.
#[derive(Copy, Clone, Debug, PartialEq, Eq, Structural)]
pub struct MovementGameState;

impl MovementGameState {
    /// The state of free movement.
    pub fn new() -> MovementGameState {
        MovementGameState
    }
}

impl GameState for MovementGameState {
    open spec fn ready(&self) -> bool {
        true
    }

    open spec fn entered(&self, windows: WindowsView) -> WindowsView {
        windows
    }

    open spec fn exited(&self, windows: WindowsView) -> WindowsView {
        windows
    }

    open spec fn updated(
        &self,
        maps: Maps,
        start: TurnState,
        after: MovementGameState,
        maps_after: Maps,
        end: TurnState,
    ) -> bool {
        if moves_world(start.info.last_keypress) {
            Maps::ticked(maps, start, maps_after, end)
        } else {
            maps_after == maps && end == start
        }
    }

    fn enter(&self, windows: &mut Windows) {
    }

    fn exit(&self, windows: &mut Windows) {
    }

    fn should_update_state(&self) -> (ready: bool) {
        true
    }

    fn update(&mut self, maps: &mut Maps, windows: &mut Windows, move_info: &mut MoveInfo) {
        let last_keypress = move_info.last_keypress;
        match last_keypress {
            Some(ks) => {
                match ks.key {
                    // Shift leads up to the attack keys, so it does nothing
                    // by itself; the key that follows is read as usual.
                    GameKey::SpecialKey(GameKeyCode::Shift) => {},
                    _ => {
                        maps.update(move_info, windows);
                    },
                }
            },
            _ => {},
        }
    }
}

/// The name of the direction that a key points in, if it is an arrow.
pub open spec fn direction_name(key: Option<KeyboardInput>) -> Option<Seq<char>> {
    match key {
        Some(KeyboardInput { key: GameKey::SpecialKey(GameKeyCode::Up) }) => Some("up"@),
        Some(KeyboardInput { key: GameKey::SpecialKey(GameKeyCode::Down) }) => Some("down"@),
        Some(KeyboardInput { key: GameKey::SpecialKey(GameKeyCode::Left) }) => Some("left"@),
        Some(KeyboardInput { key: GameKey::SpecialKey(GameKeyCode::Right) }) => Some("right"@),
        _ => None,
    }
}

/// The enemy that an attack from the character's cell in the direction of
/// the last key hits: the one that came first to the next cell. Nobody is
/// hit where the enemies' layer has no such cell.
pub open spec fn enemy_hit(maps: Maps, info: MoveInfo) -> Option<Actor> {
    let (dx, dy) = key_step(info.last_keypress);
    let x = info.char_location.x + dx;
    let y = info.char_location.y + dy;
    if 0 <= x < maps.enemies.size.max.x && 0 <= y < maps.enemies.size.max.y
        && maps.enemies.cell_at(x, y).len() > 0 {
        Some(maps.enemies.cell_at(x, y)[0])
    } else {
        None
    }
}

/// What the player is told about an attack with `weapon`.
pub open spec fn attack_outcome(
    weapon: Armament,
    direction: Seq<char>,
    maps: Maps,
    info: MoveInfo,
) -> Seq<char> {
    match enemy_hit(maps, info) {
        Some(enemy) => attack_report(direction, weapon.name(), weapon.damage()),
        None => NO_ENEMY_MESSAGE@,
    }
}

/// Waiting for the direction of an attack.
#[derive(Copy, Clone, Debug, PartialEq, Eq, Structural)]
pub struct AttackInputGameState {
    pub should_update_state: bool,
    pub weapon: Armament,
}

impl AttackInputGameState {
    /// Waiting for the direction of an attack with the boomerang.
    pub fn new() -> (state: AttackInputGameState)
        ensures
            state == (AttackInputGameState {
                should_update_state: false,
                weapon: Armament::Boomerang,
            }),
    {
        let weapon = Armament::Boomerang;
        AttackInputGameState { should_update_state: false, weapon: weapon }
    }

    /// Waiting for the direction of an attack with `weapon`.
    pub fn new_with_weapon(weapon: Armament) -> (state: AttackInputGameState)
        ensures
            state == (AttackInputGameState { should_update_state: false, weapon }),
    {
        AttackInputGameState { should_update_state: false, weapon: weapon }
    }
}

impl GameState for AttackInputGameState {
    open spec fn ready(&self) -> bool {
        self.should_update_state
    }

    open spec fn entered(&self, windows: WindowsView) -> WindowsView {
        WindowsView {
            input: windows.input.flush_buffer().buffer_message(attack_prompt(self.weapon.name())),
            ..windows
        }
    }

    open spec fn exited(&self, windows: WindowsView) -> WindowsView {
        WindowsView { input: windows.input.flush_buffer(), ..windows }
    }

    open spec fn updated(
        &self,
        maps: Maps,
        start: TurnState,
        after: AttackInputGameState,
        maps_after: Maps,
        end: TurnState,
    ) -> bool {
        &&& maps_after == maps
        &&& end.info == start.info
        &&& after.weapon == self.weapon
        &&& match direction_name(start.info.last_keypress) {
            Some(direction) => {
                &&& after.should_update_state
                &&& end.windows == WindowsView {
                    messages: start.windows.messages.buffer_message(
                        attack_outcome(self.weapon, direction, maps, start.info),
                    ),
                    ..start.windows
                }
            },
            None => {
                &&& after.should_update_state == self.should_update_state
                &&& end.windows == start.windows
            },
        }
    }

    fn should_update_state(&self) -> (ready: bool) {
        self.should_update_state
    }

    fn enter(&self, windows: &mut Windows) {
        windows.input.flush_buffer();
        let name = self.weapon.get_name();
        let msg = prompt_for(name.as_str());
        windows.input.buffer_message(msg.as_str());
    }

    fn update(&mut self, maps: &mut Maps, windows: &mut Windows, move_info: &mut MoveInfo) {
        let last_keypress = move_info.last_keypress;
        match last_keypress {
            Some(ks) => {
                let char_point = move_info.char_location;
                let (dx, dy, direction): (i32, i32, &str) = match ks.key {
                    GameKey::SpecialKey(GameKeyCode::Up) => (0, -1, "up"),
                    GameKey::SpecialKey(GameKeyCode::Down) => (0, 1, "down"),
                    GameKey::SpecialKey(GameKeyCode::Left) => (-1, 0, "left"),
                    GameKey::SpecialKey(GameKeyCode::Right) => (1, 0, "right"),
                    _ => {
                        return ;
                    },
                };
                self.should_update_state = true;

                let cells = Bound { min: Point { x: 0, y: 0 }, max: maps.enemies.size.max };
                let enemy = match try_step(&cells, char_point, dx, dy) {
                    Some(point) => maps.enemy_at(point),
                    None => None,
                };
                match enemy {
                    Some(enemy) => {
                        let name = self.weapon.get_name();
                        let damage = self.weapon.deal_damage(enemy);
                        let msg = report_attack(direction, name.as_str(), damage);
                        windows.messages.buffer_message(msg.as_str());
                    },
                    None => {
                        windows.messages.buffer_message(NO_ENEMY_MESSAGE);
                    },
                }
            },
            _ => {},
        }
    }

    fn exit(&self, windows: &mut Windows) {
        windows.input.flush_buffer();
    }
}

/// The state that the game is in.
#[derive(Copy, Clone, Debug, PartialEq, Eq, Structural)]
pub enum CurrentState {
    Movement(MovementGameState),
    AttackInput(AttackInputGameState),
}

impl GameState for CurrentState {
    open spec fn ready(&self) -> bool {
        match *self {
            CurrentState::Movement(state) => state.ready(),
            CurrentState::AttackInput(state) => state.ready(),
        }
    }

    open spec fn entered(&self, windows: WindowsView) -> WindowsView {
        match *self {
            CurrentState::Movement(state) => state.entered(windows),
            CurrentState::AttackInput(state) => state.entered(windows),
        }
    }

    open spec fn exited(&self, windows: WindowsView) -> WindowsView {
        match *self {
            CurrentState::Movement(state) => state.exited(windows),
            CurrentState::AttackInput(state) => state.exited(windows),
        }
    }

    open spec fn updated(
        &self,
        maps: Maps,
        start: TurnState,
        after: CurrentState,
        maps_after: Maps,
        end: TurnState,
    ) -> bool {
        match (*self, after) {
            (CurrentState::Movement(state), CurrentState::Movement(next)) => state.updated(
                maps,
                start,
                next,
                maps_after,
                end,
            ),
            (CurrentState::AttackInput(state), CurrentState::AttackInput(next)) => state.updated(
                maps,
                start,
                next,
                maps_after,
                end,
            ),
            _ => false,
        }
    }

    fn enter(&self, windows: &mut Windows) {
        match self {
            CurrentState::Movement(state) => state.enter(windows),
            CurrentState::AttackInput(state) => state.enter(windows),
        }
    }

    fn exit(&self, windows: &mut Windows) {
        match self {
            CurrentState::Movement(state) => state.exit(windows),
            CurrentState::AttackInput(state) => state.exit(windows),
        }
    }

    fn should_update_state(&self) -> (ready: bool) {
        match self {
            CurrentState::Movement(state) => state.should_update_state(),
            CurrentState::AttackInput(state) => state.should_update_state(),
        }
    }

    fn update(&mut self, maps: &mut Maps, windows: &mut Windows, move_info: &mut MoveInfo) {
        match self {
            CurrentState::Movement(state) => state.update(maps, windows, move_info),
            CurrentState::AttackInput(state) => state.update(maps, windows, move_info),
        }
    }
}

} // verus!
