use roguelike::actor::Actor;
use roguelike::combat::Armament;
use roguelike::game::{Game, MoveInfo};
use roguelike::game_states::{AttackInputGameState, CurrentState, GameState, MovementGameState};
use roguelike::input::{
    GameKey, GameKeyCode, InputComponent, Key, KeyCode, KeyboardInput, TcodInputComponent,
};
use roguelike::map::Maps;
use roguelike::rendering::renderers::{Color, DrawCall, RecordingRenderer};
use roguelike::rendering::windows::{TextWindow, WindowComponent, Windows};
use roguelike::util::{Bound, Point};

fn printable(c: char) -> KeyboardInput {
    KeyboardInput { key: GameKey::Printable(c) }
}

fn special(code: GameKeyCode) -> KeyboardInput {
    KeyboardInput { key: GameKey::SpecialKey(code) }
}

fn attack_state(weapon: Armament, ready: bool) -> CurrentState {
    CurrentState::AttackInput(AttackInputGameState { should_update_state: ready, weapon })
}

fn movement_state() -> CurrentState {
    CurrentState::Movement(MovementGameState::new())
}

fn populated() -> Game {
    let mut game = Game::new();
    game.maps.friends.push_actor(Point::new(10, 10), Actor::dog(10, 10));
    game.maps.friends.push_actor(Point::new(40, 25), Actor::cat(40, 25));
    game.maps.enemies.push_actor(Point::new(20, 20), Actor::kobold(20, 20));
    let point = game.move_info.char_location;
    game.maps.pcs.push_actor(point, Actor::heroine(&game.move_info));
    game
}

#[test]
fn new_game_lays_out_the_screen() {
    let game = Game::new();
    assert!(!game.exit);
    assert_eq!(game.window_bounds, Bound::new(0, 0, 99, 61));
    assert_eq!(game.windows.stats, TextWindow::stats(Bound::new(79, 0, 99, 49)));
    assert_eq!(game.windows.input, TextWindow::input(Bound::new(0, 50, 99, 52)));
    assert_eq!(game.windows.messages, TextWindow::messages(Bound::new(0, 53, 99, 61)));
    assert_eq!(game.windows.map, TextWindow::map(Bound::new(0, 0, 78, 49)));
    assert_eq!(game.game_state, movement_state());
    assert_eq!(game.maps, Maps::new(Bound::new(0, 0, 78, 49)));
    assert_eq!(
        game.move_info,
        MoveInfo {
            last_keypress: None,
            char_location: Point::new(40, 25),
            bounds: Bound::new(0, 0, 78, 49)
        }
    );
    assert!(game.maps.is_ready(&game.move_info.bounds));
}

#[test]
fn turn_context_is_read_and_written_through_the_game() {
    let mut game = Game::new();
    assert_eq!(game.get_last_keypress(), None);
    assert_eq!(game.get_character_point(), Point::new(40, 25));
    game.set_last_keypress(special(GameKeyCode::Up));
    assert_eq!(game.get_last_keypress(), Some(special(GameKeyCode::Up)));
    game.set_character_point(Point::new(3, 4));
    assert_eq!(game.get_character_point(), Point::new(3, 4));
    assert_eq!(game.move_info.bounds, Bound::new(0, 0, 78, 49));
}

#[test]
fn attack_key_asks_for_a_direction_and_a_miss_leads_back_to_movement() {
    let mut game = populated();
    assert_eq!(game.game_state, movement_state());

    game.set_last_keypress(printable('/'));
    game.update();
    assert_eq!(game.game_state, attack_state(Armament::HeroicSword, false));
    assert_eq!(
        game.windows.input.get_messages(),
        vec![
            "Which direction do you want to attack with Heroic Sword? [Use the arrow keys to answer]"
                .to_string(),
            String::new(),
        ]
    );
    assert!(game.windows.messages.get_messages().is_empty());
    assert_eq!(game.get_character_point(), Point::new(40, 25));

    game.set_last_keypress(special(GameKeyCode::Up));
    game.update();
    assert_eq!(game.game_state, attack_state(Armament::HeroicSword, true));
    assert_eq!(
        game.windows.messages.get_messages(),
        vec!["No enemy in that direction!".to_string()]
    );
    assert_eq!(game.get_character_point(), Point::new(40, 25));

    game.set_last_keypress(special(GameKeyCode::Right));
    game.update();
    assert_eq!(game.game_state, movement_state());
    assert_eq!(game.windows.input.get_messages(), vec![String::new(), String::new()]);
    assert_eq!(game.get_character_point(), Point::new(41, 25));
}

#[test]
fn each_attack_key_draws_its_weapon() {
    let cases = [
        ('/', Armament::HeroicSword, "Heroic Sword"),
        ('^', Armament::Boomerang, "Boomerange"),
        ('*', Armament::DeadlyBomb, "Deadly Bomb"),
        ('%', Armament::DeliciousLettuce, "Delicious Lettuce"),
    ];
    for (key, weapon, name) in cases {
        let mut game = populated();
        game.set_last_keypress(printable(key));
        game.update();
        assert_eq!(game.game_state, attack_state(weapon, false));
        assert_eq!(
            game.windows.input.get_messages()[0],
            format!(
                "Which direction do you want to attack with {}? [Use the arrow keys to answer]",
                name
            )
        );
    }
}

#[test]
fn every_weapon_can_be_drawn_from_the_keyboard() {
    let cases = [
        (Key { code: KeyCode::Other, printable: '/', shift: false }, Armament::HeroicSword),
        (Key { code: KeyCode::Number6, printable: '6', shift: true }, Armament::Boomerang),
        (Key { code: KeyCode::Number8, printable: '8', shift: true }, Armament::DeadlyBomb),
        (Key { code: KeyCode::Number5, printable: '5', shift: true }, Armament::DeliciousLettuce),
    ];
    for (raw, weapon) in cases {
        let mut game = populated();
        game.set_last_keypress(TcodInputComponent::new().translate_input(raw));
        game.update();
        assert_eq!(game.game_state, attack_state(weapon, false));
    }
}

#[test]
fn attack_state_waits_for_an_arrow() {
    let mut game = populated();
    game.set_last_keypress(printable('/'));
    game.update();
    let entries = game.maps.enemies.list_entries();

    game.set_last_keypress(printable('x'));
    game.update();
    assert_eq!(game.game_state, attack_state(Armament::HeroicSword, false));
    assert!(game.windows.messages.get_messages().is_empty());
    assert_eq!(game.maps.enemies.list_entries(), entries);
    assert_eq!(game.windows.input.get_messages().len(), 2);
    assert_eq!(game.windows.input.get_messages()[1], "");
}

#[test]
fn attack_on_an_enemy_tells_of_the_damage() {
    let directions = [
        (GameKeyCode::Up, Point::new(40, 24), "up"),
        (GameKeyCode::Down, Point::new(40, 26), "down"),
        (GameKeyCode::Left, Point::new(39, 25), "left"),
        (GameKeyCode::Right, Point::new(41, 25), "right"),
    ];
    for (code, target, name) in directions {
        let mut game = Game::new();
        game.maps.pcs.push_actor(Point::new(40, 25), Actor::heroine(&game.move_info));
        game.maps.enemies.push_actor(target, Actor::kobold(target.x, target.y));
        game.set_last_keypress(printable('*'));
        game.update();
        game.set_last_keypress(special(code));
        game.update();
        assert_eq!(game.game_state, attack_state(Armament::DeadlyBomb, true));
        assert_eq!(
            game.windows.messages.get_messages(),
            vec![format!("You attack {} with your Deadly Bomb for 12 points of damage!", name)]
        );
        // Nothing becomes of the damage: the enemy is as it was.
        assert_eq!(game.maps.enemy_at(target), Some(&Actor::kobold(target.x, target.y)));
    }
}

#[test]
fn attack_past_the_edge_of_the_map_hits_nobody() {
    let mut game = Game::new();
    game.set_character_point(Point::new(0, 0));
    game.set_last_keypress(printable('^'));
    game.update();
    game.set_last_keypress(special(GameKeyCode::Left));
    game.update();
    assert_eq!(game.game_state, attack_state(Armament::Boomerang, true));
    assert_eq!(
        game.windows.messages.get_messages(),
        vec!["No enemy in that direction!".to_string()]
    );
    game.set_character_point(Point::new(77, 48));
    game.set_last_keypress(special(GameKeyCode::Down));
    game.game_state = attack_state(Armament::Boomerang, false);
    game.update();
    assert_eq!(game.windows.messages.get_messages().len(), 2);
    assert_eq!(game.windows.messages.get_messages()[0], "No enemy in that direction!");
}

#[test]
fn movement_moves_the_world_on_any_key_but_shift() {
    let mut game = populated();
    game.set_last_keypress(special(GameKeyCode::Shift));
    game.update();
    assert_eq!(game.game_state, movement_state());
    assert_eq!(game.get_character_point(), Point::new(40, 25));
    assert_eq!(
        game.maps.enemies.list_entries(),
        vec![(Point::new(20, 20), Actor::kobold(20, 20))]
    );

    game.set_last_keypress(special(GameKeyCode::Left));
    game.update();
    assert_eq!(game.game_state, movement_state());
    assert_eq!(game.get_character_point(), Point::new(39, 25));
    let kobold = Actor::kobold(21, 21);
    assert_eq!(game.maps.enemies.list_entries(), vec![(Point::new(21, 21), kobold)]);

    game.set_last_keypress(special(GameKeyCode::NoKey));
    game.update();
    assert_eq!(game.get_character_point(), Point::new(39, 25));
    let kobold = Actor::kobold(22, 22);
    assert_eq!(game.maps.enemies.list_entries(), vec![(Point::new(22, 22), kobold)]);
    assert_eq!(game.maps.friends.list_entries().len(), 2);
}

#[test]
fn nothing_happens_before_the_first_key() {
    let mut game = populated();
    let maps = Maps::new(Bound::new(0, 0, 78, 49));
    assert_ne!(game.maps, maps);
    let entries = game.maps.friends.list_entries();
    game.update();
    assert_eq!(game.game_state, movement_state());
    assert_eq!(game.maps.friends.list_entries(), entries);
    assert_eq!(game.get_character_point(), Point::new(40, 25));
}

#[test]
fn refused_move_is_told_in_the_message_window() {
    let mut game = Game::new();
    game.set_character_point(Point::new(0, 0));
    game.maps.pcs.push_actor(Point::new(0, 0), Actor::heroine(&game.move_info));
    game.set_last_keypress(special(GameKeyCode::Up));
    game.update();
    assert_eq!(
        game.windows.messages.get_messages(),
        vec!["You can't move that way!".to_string()]
    );
    assert_eq!(game.get_character_point(), Point::new(0, 0));
}

#[test]
fn states_say_when_they_give_way() {
    assert!(MovementGameState::new().should_update_state());
    assert!(!AttackInputGameState::new().should_update_state());
    assert!(!AttackInputGameState::new_with_weapon(Armament::DeadlyBomb).should_update_state());
    assert_eq!(AttackInputGameState::new().weapon, Armament::Boomerang);
    assert_eq!(
        AttackInputGameState::new_with_weapon(Armament::DeadlyBomb).weapon,
        Armament::DeadlyBomb
    );
    assert!(movement_state().should_update_state());
    assert!(attack_state(Armament::HeroicSword, true).should_update_state());
    assert!(!attack_state(Armament::HeroicSword, false).should_update_state());
}

#[test]
fn movement_state_leaves_the_windows_alone() {
    let mut windows = Windows {
        stats: TextWindow::stats(Bound::new(79, 0, 99, 49)),
        input: TextWindow::input(Bound::new(0, 50, 99, 52)),
        messages: TextWindow::messages(Bound::new(0, 53, 99, 61)),
        map: TextWindow::map(Bound::new(0, 0, 78, 49)),
    };
    windows.input.buffer_message("kept");
    let state = MovementGameState::new();
    state.enter(&mut windows);
    state.exit(&mut windows);
    assert_eq!(windows.input.get_messages(), vec!["kept".to_string()]);
}

#[test]
fn frame_draws_windows_then_layers() {
    let mut game = populated();
    game.windows.messages.buffer_message("hello");
    let mut renderer = RecordingRenderer::new();
    game.render(&mut renderer);
    let object = |x: i32, y: i32, symbol: char, foreground: Color| DrawCall::Object {
        position: Point::new(x, y),
        symbol,
        foreground,
        background: Color::Black,
    };
    assert_eq!(
        renderer.take_calls(),
        vec![
            DrawCall::NewFrame,
            DrawCall::Window(game.windows.stats.clone()),
            DrawCall::Window(game.windows.input.clone()),
            DrawCall::Window(game.windows.messages.clone()),
            DrawCall::Window(game.windows.map.clone()),
            object(10, 10, 'd', Color::White),
            object(40, 25, 'c', Color::White),
            object(20, 20, 'k', Color::Red),
            object(40, 25, '@', Color::Blue),
            DrawCall::EndFrame,
        ]
    );
}

#[test]
fn every_state_draws_the_same_frame() {
    let game = populated();
    let mut first = RecordingRenderer::new();
    let mut second = RecordingRenderer::new();
    movement_state().render(&mut first, &game.maps, &game.windows);
    AttackInputGameState::new().render(&mut second, &game.maps, &game.windows);
    assert_eq!(first.take_calls(), second.take_calls());
}
