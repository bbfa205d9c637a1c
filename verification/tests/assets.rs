use green_island::assets::{place_sprite, PxRect, Sprite, TileInfo};
use green_island::info::{GameMetrics, ScreenMetrics, Vec2i, Vec2u};
use green_island::world::{Animal, AnimalKind, Occupant, Plant, Tile};

fn i(x: i64, y: i64) -> Vec2i {
    Vec2i { x, y }
}

fn rect(x: i64, y: i64, w: i64, h: i64) -> PxRect {
    PxRect { x, y, w, h }
}

#[test]
fn the_sprite_sheet_of_the_design() {
    let info = TileInfo::new(&GameMetrics::new());
    assert_eq!(info.bead, i(80, 90));
    assert_eq!(info.bob, i(60, 81));
    assert_eq!(info.coyote, i(60, 90));
    assert_eq!(info.jack, i(70, 81));
    assert_eq!(info.javelina, i(50, 90));
    assert_eq!(info.nopal_big, rect(60, 63, 30, 18));
    assert_eq!(info.nopal_small, rect(40, 63, 10, 9));
    assert_eq!(info.ocotillo, rect(110, 54, 30, 27));
    assert_eq!(info.rattler, i(70, 90));
    assert_eq!(info.runner, i(80, 81));
    assert_eq!(info.saguaro, rect(10, 36, 30, 45));
    assert_eq!(info.turkey, i(50, 81));
}

#[test]
fn the_sprite_sheet_follows_the_tile_size() {
    let game = GameMetrics { tile_size_px: Vec2u { x: 16, y: 32 }, ..GameMetrics::new() };
    let info = TileInfo::new(&game);
    assert_eq!(info.bead, i(128, 320));
    assert_eq!(info.saguaro, rect(16, 128, 48, 160));
    assert_eq!(info.nopal_small, rect(64, 224, 16, 32));
    let huge = Vec2u { x: u32::MAX, y: u32::MAX };
    let game = GameMetrics { tile_size_px: huge, ..GameMetrics::new() };
    let info = TileInfo::new(&game);
    assert_eq!(info.ocotillo.x, 11 * 4_294_967_295);
    assert_eq!(info.coyote.y, 10 * 4_294_967_295);
}

#[test]
fn entries_by_kind() {
    let info = TileInfo::new(&GameMetrics::new());
    assert_eq!(info.animal_origin(AnimalKind::Bead), info.bead);
    assert_eq!(info.animal_origin(AnimalKind::Bob), info.bob);
    assert_eq!(info.animal_origin(AnimalKind::Coyote), info.coyote);
    assert_eq!(info.animal_origin(AnimalKind::Jack), info.jack);
    assert_eq!(info.animal_origin(AnimalKind::Javelina), info.javelina);
    assert_eq!(info.animal_origin(AnimalKind::Rattler), info.rattler);
    assert_eq!(info.animal_origin(AnimalKind::Runner), info.runner);
    assert_eq!(info.animal_origin(AnimalKind::Turkey), info.turkey);
    assert_eq!(info.plant_rect(Plant::NopalBig), info.nopal_big);
    assert_eq!(info.plant_rect(Plant::NopalSmall), info.nopal_small);
    assert_eq!(info.plant_rect(Plant::Ocotillo), info.ocotillo);
    assert_eq!(info.plant_rect(Plant::Saguaro), info.saguaro);
}

#[test]
fn the_source_of_what_stands_on_a_tile() {
    let game = GameMetrics::new();
    let info = TileInfo::new(&game);
    let animals = vec![
        Animal { kind: AnimalKind::Turkey, x: 0, y: 0 },
        Animal { kind: AnimalKind::Rattler, x: 1, y: 0 },
    ];
    assert_eq!(info.source(&game, Tile { occupant: None }, &animals), None);
    assert_eq!(
        info.source(&game, Tile { occupant: Some(Occupant::Plant(Plant::Saguaro)) }, &animals),
        Some(rect(10, 36, 30, 45))
    );
    assert_eq!(
        info.source(&game, Tile { occupant: Some(Occupant::Animal(0)) }, &animals),
        Some(rect(50, 81, 10, 9))
    );
    assert_eq!(
        info.source(&game, Tile { occupant: Some(Occupant::Animal(1)) }, &animals),
        Some(rect(70, 90, 10, 9))
    );
}

#[test]
fn a_sprite_of_one_tile_goes_where_its_tile_is() {
    let game = GameMetrics::new();
    let screen = ScreenMetrics::compute(&game, Vec2u { x: 840, y: 480 });
    let source = rect(50, 81, 10, 9);
    assert_eq!(
        place_sprite(&screen, &game, source, i(3, 2)),
        Sprite { source, dest: i(240, 168), dest_size: i(40, 36) }
    );
}

#[test]
fn a_large_sprite_is_centred_and_stands_on_its_bottom_row() {
    let game = GameMetrics::new();
    let screen = ScreenMetrics::compute(&game, Vec2u { x: 840, y: 480 });
    let info = TileInfo::new(&game);
    // The saguaro, 3 by 5 tiles: one tile to the left, four tiles up.
    assert_eq!(
        place_sprite(&screen, &game, info.saguaro, i(0, 1)),
        Sprite { source: info.saguaro, dest: i(80, -12), dest_size: i(120, 180) }
    );
    // The big nopal, 3 by 2 tiles.
    assert_eq!(
        place_sprite(&screen, &game, info.nopal_big, i(5, 5)),
        Sprite { source: info.nopal_big, dest: i(280, 240), dest_size: i(120, 72) }
    );
    // The ocotillo, 3 by 3 tiles.
    assert_eq!(
        place_sprite(&screen, &game, info.ocotillo, i(-10, -10)),
        Sprite { source: info.ocotillo, dest: i(-320, -336), dest_size: i(120, 108) }
    );
}

#[test]
fn anchors_count_whole_tiles_only() {
    let game = GameMetrics::new();
    let screen = ScreenMetrics::compute(&game, Vec2u { x: 150, y: 108 });
    // Two tiles wide: half a tile to centre, which counts as none. A tile
    // and a half tall: half a row over, which counts as none.
    let source = rect(0, 0, 20, 13);
    assert_eq!(
        place_sprite(&screen, &game, source, i(2, 3)),
        Sprite { source, dest: i(20, 45), dest_size: i(20, 13) }
    );
    // Narrower and shorter than a tile: the anchor is one tile the other way.
    let source = rect(0, 0, 9, 8);
    assert_eq!(
        place_sprite(&screen, &game, source, i(2, 3)),
        Sprite { source, dest: i(30, 54), dest_size: i(9, 8) }
    );
    // Four tiles wide counts one tile; five tiles wide counts two.
    let source = rect(0, 0, 40, 9);
    assert_eq!(place_sprite(&screen, &game, source, i(2, 3)).dest, i(10, 45));
    let source = rect(0, 0, 50, 9);
    assert_eq!(place_sprite(&screen, &game, source, i(2, 3)).dest, i(0, 45));
}
