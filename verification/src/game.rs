//! The game session: the shared turn context and the per-tick cycle.

use crate::combat::Armament;
use crate::game_states::{frame, AttackInputGameState, CurrentState, GameState, MovementGameState};
use crate::input::{translated_key, GameKey, Key, KeyCode, KeyboardInput};
use crate::map::{Maps, TurnState};
use crate::rendering::renderers::RenderingComponent;
use crate::rendering::windows::{TextWindow, Windows, WindowsView};
use crate::util::{Bound, Point};
use vstd::prelude::*;

verus! {

/// What every movement strategy and game state consults during a tick: the
/// last key pressed, where the player's character stands, and the bounds
/// that movement stays within.
#[derive(Copy, Clone, Debug, PartialEq, Eq, Structural)]
pub struct MoveInfo {
    pub last_keypress: Option<KeyboardInput>,
    pub char_location: Point,
    pub bounds: Bound,
}

impl MoveInfo {
    /// The context at the start of a session: no key pressed yet, the
    /// character at column 40, row 25.
    pub fn new(bounds: Bound) -> (info: MoveInfo)
        ensures
            info == (MoveInfo {
                last_keypress: None,
                char_location: Point { x: 40, y: 25 },
                bounds,
            }),
    {
        MoveInfo { last_keypress: None, char_location: Point { x: 40, y: 25 }, bounds }
    }
}

/// The weapon that a key draws, if it is one of the four attack keys.
pub open spec fn weapon_drawn(key: GameKey) -> Option<Armament> {
    match key {
        GameKey::Printable('/') => Some(Armament::HeroicSword),
        GameKey::Printable('^') => Some(Armament::Boomerang),
        GameKey::Printable('*') => Some(Armament::DeadlyBomb),
        GameKey::Printable('%') => Some(Armament::DeliciousLettuce),
        _ => None,
    }
}

/// Every weapon can be drawn from the keyboard: for each there is a raw key
/// event whose translation draws it.
pub proof fn lemma_every_weapon_can_be_drawn(weapon: Armament)
    ensures
        exists|k: Key| weapon_drawn(#[trigger] translated_key(k)) == Some(weapon),
{
    let k = match weapon {
        Armament::HeroicSword => Key { code: KeyCode::Other, printable: '/', shift: false },
        Armament::Boomerang => Key { code: KeyCode::Number6, printable: '6', shift: true },
        Armament::DeadlyBomb => Key { code: KeyCode::Number8, printable: '8', shift: true },
        Armament::DeliciousLettuce => Key { code: KeyCode::Number5, printable: '5', shift: true },
    };
    assert(weapon_drawn(translated_key(k)) == Some(weapon));
}

/// The state that follows `current` once it gives way: an attack key asks
/// for the direction of an attack with its weapon, any other key leads
/// back to free movement. Without a key the state stays.
pub open spec fn next_state(current: CurrentState, key: Option<KeyboardInput>) -> CurrentState {
    match key {
        Some(ks) => match weapon_drawn(ks.key) {
            Some(weapon) => CurrentState::AttackInput(
                AttackInputGameState { should_update_state: false, weapon },
            ),
            None => CurrentState::Movement(MovementGameState),
        },
        None => current,
    }
}

/// One session of the game.
#[derive(Debug)]
pub struct Game {
    pub exit: bool,
    pub window_bounds: Bound,
    pub windows: Windows,
    pub game_state: CurrentState,
    pub maps: Maps,
    pub move_info: MoveInfo,
}

impl Game {
    /// Whether a tick can run on the maps within the bounds of the turn
    /// context.
    pub open spec fn wf(&self) -> bool {
        self.maps.ready(self.move_info.bounds)
    }

    /// A new session: a screen of 99 by 61 cells with the map in its upper
    /// left, the statistics to the right of the map, the input prompt and
    /// the messages below; empty maps; free movement.
    pub fn new() -> (game: Game)
        ensures
            game.wf(),
            !game.exit,
            game.window_bounds == Bound::at(0, 0, 99, 61),
            game.windows@ == (WindowsView {
                stats: TextWindow::empty_view(Bound::at(79, 0, 99, 49), 10),
                input: TextWindow::empty_view(Bound::at(0, 50, 99, 52), 2),
                messages: TextWindow::empty_view(Bound::at(0, 53, 99, 61), 9),
                map: TextWindow::empty_view(Bound::at(0, 0, 78, 49), 10),
            }),
            game.game_state == CurrentState::Movement(MovementGameState),
            game.maps.terrain.size == Bound::at(0, 0, 78, 49) && game.maps.terrain.is_empty(),
            game.maps.enemies.size == Bound::at(0, 0, 78, 49) && game.maps.enemies.is_empty(),
            game.maps.friends.size == Bound::at(0, 0, 78, 49) && game.maps.friends.is_empty(),
            game.maps.pcs.size == Bound::at(0, 0, 78, 49) && game.maps.pcs.is_empty(),
            game.move_info == (MoveInfo {
                last_keypress: None,
                char_location: Point { x: 40, y: 25 },
                bounds: Bound::at(0, 0, 78, 49),
            }),
    {
        let total_bounds = Bound::new(0, 0, 99, 61);
        let stats_bounds = Bound::new(79, 0, 99, 49);
        let input_bounds = Bound::new(0, 50, 99, 52);
        let message_bounds = Bound::new(0, 53, 99, 61);
        let map_bounds = Bound::new(0, 0, 78, 49);

        let sw = TextWindow::stats(stats_bounds);
        let iw = TextWindow::input(input_bounds);
        let mw = TextWindow::messages(message_bounds);
        let maw = TextWindow::map(map_bounds);
        let maps = Maps::new(map_bounds);

        let windows = Windows { input: iw, messages: mw, map: maw, stats: sw };

        let gs = CurrentState::Movement(MovementGameState::new());

        Game {
            exit: false,
            window_bounds: total_bounds,
            windows: windows,
            game_state: gs,
            maps: maps,
            move_info: MoveInfo::new(map_bounds),
        }
    }

    /// Draws one frame.
    pub fn render<R: RenderingComponent>(&self, renderer: &mut R)
        requires
            self.maps.wf(),
        ensures
            final(renderer).calls() == old(renderer).calls() + frame(self.windows@, self.maps),
    {
        self.game_state.render(renderer, &self.maps, &self.windows);
    }

    /// Whether one tick may turn the session `before` into `after`. A state
    /// that is ready gives way first: it is left, the last key selects the
    /// state that follows, and that state is entered. Then the state that
    /// the game is in runs its tick.
    pub open spec fn updated(before: Game, after: Game) -> bool {
        let changing = before.game_state.ready();
        let state = if changing {
            next_state(before.game_state, before.move_info.last_keypress)
        } else {
            before.game_state
        };
        let windows = if changing {
            state.entered(before.game_state.exited(before.windows@))
        } else {
            before.windows@
        };
        &&& state.updated(
            before.maps,
            TurnState { info: before.move_info, windows },
            after.game_state,
            after.maps,
            TurnState { info: after.move_info, windows: after.windows@ },
        )
        &&& after.exit == before.exit
        &&& after.window_bounds == before.window_bounds
    }

    /// Runs one tick.
    pub fn update(&mut self)
        requires
            old(self).wf(),
        ensures
            final(self).wf(),
            Game::updated(*old(self), *final(self)),
            final(self).move_info.bounds == old(self).move_info.bounds,
            final(self).move_info.last_keypress == old(self).move_info.last_keypress,
    {
        if self.game_state.should_update_state() {
            self.game_state.exit(&mut self.windows);
            self.update_state();
            self.game_state.enter(&mut self.windows);
        }
        self.game_state.update(&mut self.maps, &mut self.windows, &mut self.move_info);
    }

    fn update_state(&mut self)
        ensures
            final(self).game_state == next_state(
                old(self).game_state,
                old(self).move_info.last_keypress,
            ),
            final(self).exit == old(self).exit,
            final(self).window_bounds == old(self).window_bounds,
            final(self).windows == old(self).windows,
            final(self).maps == old(self).maps,
            final(self).move_info == old(self).move_info,
    {
        match self.get_last_keypress() {
            Some(ks) => {
                match ks.key {
                    GameKey::Printable('/') => {
                        let is = AttackInputGameState::new_with_weapon(Armament::HeroicSword);
                        self.game_state = CurrentState::AttackInput(is);
                    },
                    GameKey::Printable('^') => {
                        let is = AttackInputGameState::new_with_weapon(Armament::Boomerang);
                        self.game_state = CurrentState::AttackInput(is);
                    },
                    GameKey::Printable('*') => {
                        let is = AttackInputGameState::new_with_weapon(Armament::DeadlyBomb);
                        self.game_state = CurrentState::AttackInput(is);
                    },
                    GameKey::Printable('%') => {
                        let is = AttackInputGameState::new_with_weapon(
                            Armament::DeliciousLettuce,
                        );
                        self.game_state = CurrentState::AttackInput(is);
                    },
                    _ => {
                        let ms = CurrentState::Movement(MovementGameState::new());
                        self.game_state = ms;
                    },
                }
            },
            _ => {},
        }
    }

    /// The last key pressed, if any was.
    pub fn get_last_keypress(&self) -> (key: Option<KeyboardInput>)
        ensures
            key == self.move_info.last_keypress,
    {
        self.move_info.last_keypress
    }

    /// Takes `key` as the last key pressed.
    pub fn set_last_keypress(&mut self, key: KeyboardInput)
        ensures
            *final(self) == (Game {
                move_info: MoveInfo { last_keypress: Some(key), ..old(self).move_info },
                ..*old(self)
            }),
    {
        self.move_info.last_keypress = Some(key);
    }

    /// Where the player's character stands.
    pub fn get_character_point(&self) -> (point: Point)
        ensures
            point == self.move_info.char_location,
    {
        self.move_info.char_location
    }

    /// Takes `point` as the place of the player's character.
    pub fn set_character_point(&mut self, point: Point)
        ensures
            *final(self) == (Game {
                move_info: MoveInfo { char_location: point, ..old(self).move_info },
                ..*old(self)
            }),
    {
        self.move_info.char_location = point;
    }
}

} // verus!
