use roguelike::actor::Actor;
use roguelike::game::MoveInfo;
use roguelike::input::{GameKey, GameKeyCode, KeyboardInput};
use roguelike::map::{MapLayer, Maps};
use roguelike::movement::{MovementStrategy, UserMovementComponent};
use roguelike::rendering::renderers::{Color, DrawCall, RecordingRenderer};
use roguelike::rendering::windows::{TextWindow, WindowComponent, Windows};
use roguelike::util::{Bound, Point};

fn windows() -> Windows {
    Windows {
        stats: TextWindow::stats(Bound::new(79, 0, 99, 49)),
        input: TextWindow::input(Bound::new(0, 50, 99, 52)),
        messages: TextWindow::messages(Bound::new(0, 53, 99, 61)),
        map: TextWindow::map(Bound::new(0, 0, 78, 49)),
    }
}

fn info(code: Option<GameKeyCode>, player: Point, bounds: Bound) -> MoveInfo {
    MoveInfo {
        last_keypress: code.map(|code| KeyboardInput { key: GameKey::SpecialKey(code) }),
        char_location: player,
        bounds,
    }
}

fn glyph(actor: &Actor, x: i32, y: i32) -> DrawCall {
    DrawCall::Object {
        position: Point::new(x, y),
        symbol: actor.display_char,
        foreground: actor.foreground,
        background: actor.background,
    }
}

#[test]
fn new_layer_has_an_empty_cell_for_each_column_and_row() {
    let layer = MapLayer::new(Bound::new(0, 0, 4, 3));
    assert_eq!(layer.size, Bound::new(0, 0, 4, 3));
    assert_eq!(layer.content.len(), 4);
    for column in layer.content.iter() {
        assert_eq!(column.len(), 3);
        for cell in column.iter() {
            assert!(cell.is_empty());
        }
    }
    assert!(layer.list_entries().is_empty());
}

#[test]
fn layer_without_extent_has_no_cells() {
    let layer = MapLayer::new(Bound::new(0, 0, -2, 5));
    assert!(layer.content.is_empty());
    assert!(!layer.has_cell(Point::new(0, 0)));
    let flat = MapLayer::new(Bound::new(0, 0, 2, 0));
    assert_eq!(flat.content.len(), 2);
    assert!(flat.content[0].is_empty());
    assert!(!flat.has_cell(Point::new(0, 0)));
}

#[test]
fn has_cell_ignores_the_lower_edge_of_the_size() {
    let layer = MapLayer::new(Bound::new(2, 2, 4, 4));
    assert!(layer.has_cell(Point::new(0, 0)));
    assert!(layer.has_cell(Point::new(3, 3)));
    assert!(!layer.has_cell(Point::new(4, 3)));
    assert!(!layer.has_cell(Point::new(3, 4)));
    assert!(!layer.has_cell(Point::new(-1, 0)));
}

#[test]
fn push_actor_puts_the_actor_on_its_cell() {
    let mut layer = MapLayer::new(Bound::new(0, 0, 5, 5));
    let dog = Actor::dog(2, 3);
    layer.push_actor(Point::new(2, 3), dog);
    assert_eq!(layer.actor_at(Point::new(2, 3)), Some(&dog));
    assert_eq!(layer.actor_at(Point::new(3, 2)), None);
    assert_eq!(layer.content[2][3], vec![dog]);
    assert_eq!(layer.list_entries(), vec![(Point::new(2, 3), dog)]);
}

#[test]
fn enemy_at_empty_cell_is_none() {
    let maps = Maps::new(Bound::new(0, 0, 10, 10));
    assert_eq!(maps.enemy_at(Point::new(3, 4)), None);
}

#[test]
fn enemy_at_returns_the_enemy_inserted_first() {
    let mut maps = Maps::new(Bound::new(0, 0, 10, 10));
    let first = Actor::kobold(3, 4);
    let second = Actor::new(3, 4, 'o', first.movement_component, false, Color::Red, Color::Black, 9);
    maps.enemies.push_actor(Point::new(3, 4), first);
    maps.enemies.push_actor(Point::new(3, 4), second);
    assert_eq!(maps.enemy_at(Point::new(3, 4)), Some(&first));
    assert_eq!(maps.enemies.content[3][4], vec![first, second]);
}

#[test]
fn enemy_at_looks_at_the_enemies_layer_only() {
    let mut maps = Maps::new(Bound::new(0, 0, 10, 10));
    maps.friends.push_actor(Point::new(3, 4), Actor::dog(3, 4));
    maps.pcs.push_actor(Point::new(3, 4), Actor::cat(3, 4));
    maps.terrain.push_actor(Point::new(3, 4), Actor::cat(3, 4));
    assert_eq!(maps.enemy_at(Point::new(3, 4)), None);
}

#[test]
fn entries_walk_columns_then_rows_then_arrivals() {
    let mut layer = MapLayer::new(Bound::new(0, 0, 3, 3));
    let a = Actor::dog(2, 0);
    let b = Actor::cat(0, 2);
    let c = Actor::kobold(0, 1);
    let d = Actor::dog(0, 2);
    layer.push_actor(Point::new(2, 0), a);
    layer.push_actor(Point::new(0, 2), b);
    layer.push_actor(Point::new(0, 1), c);
    layer.push_actor(Point::new(0, 2), d);
    assert_eq!(
        layer.list_entries(),
        vec![
            (Point::new(0, 1), c),
            (Point::new(0, 2), b),
            (Point::new(0, 2), d),
            (Point::new(2, 0), a),
        ]
    );
}

#[test]
fn update_without_movement_keeps_the_actor_on_its_cell() {
    let bounds = Bound::new(0, 0, 10, 10);
    let mut layer = MapLayer::new(bounds);
    let point = Point::new(4, 6);
    let still = Actor::new(
        4,
        6,
        '@',
        MovementStrategy::User(UserMovementComponent::new()),
        false,
        Color::Blue,
        Color::Black,
        20,
    );
    layer.push_actor(point, still);
    let mut context = info(None, Point::new(0, 0), bounds);
    let mut windows = windows();
    layer.update(&mut context, &mut windows);
    assert_eq!(layer.actor_at(point), Some(&still));
    assert_eq!(layer.list_entries(), vec![(point, still)]);
    layer.update(&mut context, &mut windows);
    assert_eq!(layer.list_entries(), vec![(point, still)]);
    assert_eq!(context, info(None, Point::new(0, 0), bounds));
}

#[test]
fn update_moves_actors_to_the_cells_of_their_new_positions() {
    let bounds = Bound::new(0, 0, 10, 10);
    let mut layer = MapLayer::new(bounds);
    let mut context = info(Some(GameKeyCode::Right), Point::new(4, 6), bounds);
    let heroine = Actor::heroine(&context);
    layer.push_actor(Point::new(4, 6), heroine);
    let mut windows = windows();
    layer.update(&mut context, &mut windows);
    let moved = Actor { position: Point::new(5, 6), ..heroine };
    assert_eq!(layer.actor_at(Point::new(4, 6)), None);
    assert_eq!(layer.actor_at(Point::new(5, 6)), Some(&moved));
    assert_eq!(layer.list_entries(), vec![(Point::new(5, 6), moved)]);
    assert_eq!(context.char_location, Point::new(5, 6));
    assert_eq!(context.bounds, bounds);
    assert!(windows.messages.get_messages().is_empty());
}

#[test]
fn update_leaves_no_stale_entries() {
    let bounds = Bound::new(0, 0, 10, 10);
    let mut layer = MapLayer::new(bounds);
    let mut context = info(Some(GameKeyCode::Down), Point::new(1, 1), bounds);
    for x in 0..3 {
        let walker = Actor::new(
            x,
            1,
            'w',
            MovementStrategy::User(UserMovementComponent::new()),
            false,
            Color::White,
            Color::Black,
            20,
        );
        layer.push_actor(Point::new(x, 1), walker);
    }
    let mut windows = windows();
    for tick in 1..=3 {
        layer.update(&mut context, &mut windows);
        let entries = layer.list_entries();
        assert_eq!(entries.len(), 3);
        for (x, (point, actor)) in entries.iter().enumerate() {
            assert_eq!(*point, Point::new(x as i32, 1 + tick));
            assert_eq!(actor.position, *point);
        }
    }
    assert_eq!(context.char_location, Point::new(1, 1));
}

#[test]
fn update_takes_an_actor_from_a_cell_that_is_not_its_position() {
    let bounds = Bound::new(0, 0, 10, 10);
    let mut layer = MapLayer::new(bounds);
    let kobold = Actor::kobold(7, 7);
    layer.push_actor(Point::new(1, 1), kobold);
    let mut context = info(None, Point::new(0, 7), bounds);
    let mut windows = windows();
    layer.update(&mut context, &mut windows);
    let moved = Actor { position: Point::new(6, 7), ..kobold };
    assert_eq!(layer.list_entries(), vec![(Point::new(6, 7), moved)]);
}

#[test]
fn update_tells_of_a_refused_player() {
    let bounds = Bound::new(0, 0, 10, 10);
    let mut layer = MapLayer::new(bounds);
    let mut context = info(Some(GameKeyCode::Up), Point::new(3, 0), bounds);
    let heroine = Actor::heroine(&context);
    layer.push_actor(Point::new(3, 0), heroine);
    let mut windows = windows();
    layer.update(&mut context, &mut windows);
    assert_eq!(layer.actor_at(Point::new(3, 0)), Some(&heroine));
    assert_eq!(windows.messages.get_messages(), vec!["You can't move that way!".to_string()]);
}

#[test]
fn chaser_sees_where_the_player_went_in_the_same_tick() {
    let bounds = Bound::new(0, 0, 10, 10);
    let mut maps = Maps::new(bounds);
    let mut context = info(Some(GameKeyCode::Up), Point::new(5, 5), bounds);
    let heroine = Actor::heroine(&context);
    let kobold = Actor::kobold(5, 3);
    maps.pcs.push_actor(Point::new(5, 5), heroine);
    maps.enemies.push_actor(Point::new(5, 3), kobold);
    let mut windows = windows();
    maps.update(&mut context, &mut windows);
    assert_eq!(context.char_location, Point::new(5, 4));
    assert_eq!(maps.pcs.list_entries(), vec![(Point::new(5, 4), Actor { position: Point::new(5, 4), ..heroine })]);
    // One step would land on the player's new cell, so the kobold stays.
    assert_eq!(maps.enemy_at(Point::new(5, 3)), Some(&kobold));
}

#[test]
fn maps_update_moves_every_layer_once() {
    let bounds = Bound::new(0, 0, 20, 20);
    let mut maps = Maps::new(bounds);
    let mut context = info(Some(GameKeyCode::Right), Point::new(10, 10), bounds);
    let heroine = Actor::heroine(&context);
    let kobold = Actor::kobold(2, 2);
    let dog = Actor::dog(15, 15);
    maps.pcs.push_actor(Point::new(10, 10), heroine);
    maps.enemies.push_actor(Point::new(2, 2), kobold);
    maps.friends.push_actor(Point::new(15, 15), dog);
    let mut windows = windows();
    maps.update(&mut context, &mut windows);
    assert_eq!(context.char_location, Point::new(11, 10));
    assert_eq!(
        maps.pcs.list_entries(),
        vec![(Point::new(11, 10), Actor { position: Point::new(11, 10), ..heroine })]
    );
    assert_eq!(
        maps.enemies.list_entries(),
        vec![(Point::new(3, 3), Actor { position: Point::new(3, 3), ..kobold })]
    );
    let friends = maps.friends.list_entries();
    assert_eq!(friends.len(), 1);
    let (cell, moved) = friends[0];
    assert_eq!(cell, moved.position);
    assert!((cell.x - 15).abs() <= 1 && (cell.y - 15).abs() <= 1);
    assert_eq!(moved, Actor { position: cell, ..dog });
    assert!(maps.terrain.list_entries().is_empty());
}

#[test]
fn layer_render_draws_each_occupant_on_its_cell() {
    let mut layer = MapLayer::new(Bound::new(0, 0, 5, 5));
    let dog = Actor::dog(3, 1);
    let cat = Actor::cat(1, 4);
    layer.push_actor(Point::new(3, 1), dog);
    layer.push_actor(Point::new(1, 4), cat);
    let mut renderer = RecordingRenderer::new();
    layer.render(&mut renderer);
    assert_eq!(renderer.take_calls(), vec![glyph(&cat, 1, 4), glyph(&dog, 3, 1)]);
}

#[test]
fn maps_render_draws_layers_from_terrain_up_to_player() {
    let mut maps = Maps::new(Bound::new(0, 0, 5, 5));
    let heroine = Actor::heroine(&info(None, Point::new(0, 0), Bound::new(0, 0, 5, 5)));
    let kobold = Actor::kobold(1, 1);
    let dog = Actor::dog(2, 2);
    let rock = Actor::cat(3, 3);
    maps.pcs.push_actor(Point::new(0, 0), heroine);
    maps.enemies.push_actor(Point::new(1, 1), kobold);
    maps.friends.push_actor(Point::new(2, 2), dog);
    maps.terrain.push_actor(Point::new(3, 3), rock);
    let mut renderer = RecordingRenderer::new();
    maps.render(&mut renderer);
    assert_eq!(
        renderer.take_calls(),
        vec![glyph(&rock, 3, 3), glyph(&dog, 2, 2), glyph(&kobold, 1, 1), glyph(&heroine, 0, 0)]
    );
}

#[test]
fn readiness_asks_for_cells_for_actors_and_bounds() {
    let size = Bound::new(0, 0, 10, 10);
    let mut layer = MapLayer::new(size);
    assert!(layer.is_ready(&size));
    assert!(layer.is_ready(&Bound::new(2, 2, 5, 5)));
    assert!(layer.is_ready(&Bound::new(50, 50, 40, 60)));
    assert!(!layer.is_ready(&Bound::new(0, 0, 11, 10)));
    assert!(!layer.is_ready(&Bound::new(-1, 0, 10, 10)));
    layer.push_actor(Point::new(1, 1), Actor::dog(1, 1));
    assert!(layer.is_ready(&size));
    layer.push_actor(Point::new(1, 1), Actor::dog(10, 1));
    assert!(!layer.is_ready(&size));

    let mut broken = MapLayer::new(size);
    broken.content[3].pop();
    assert!(!broken.is_ready(&size));

    let mut maps = Maps::new(size);
    assert!(maps.is_ready(&size));
    maps.friends.push_actor(Point::new(0, 0), Actor::cat(0, -1));
    assert!(!maps.is_ready(&size));
}
