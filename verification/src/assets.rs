//! The sprite sheet: where each plant and animal is found on it, and where
//! a sprite goes on the screen.

use crate::info::{div_floor, fits_i64, wide_product, GameMetrics, ScreenMetrics, Vec2i};
use crate::world::{Animal, AnimalKind, Occupant, Plant, Tile};
use vstd::prelude::*;

verus! {

/// A rectangle in pixels: its top left corner and its size.
#[derive(Copy, Clone, Debug, PartialEq, Eq, Structural)]
pub struct PxRect {
    pub x: i64,
    pub y: i64,
    pub w: i64,
    pub h: i64,
}

/// One sprite to draw: the rectangle to take from the sprite sheet, and
/// where and how large it appears in the window.
#[derive(Copy, Clone, Debug, PartialEq, Eq, Structural)]
pub struct Sprite {
    pub source: PxRect,
    pub dest: Vec2i,
    pub dest_size: Vec2i,
}

/// The tile of the sprite sheet, as `(column, row)`, that shows an animal
/// of the given kind.
pub open spec fn animal_cell(kind: AnimalKind) -> (int, int) {
    match kind {
        AnimalKind::Bead => (8, 10),
        AnimalKind::Bob => (6, 9),
        AnimalKind::Coyote => (6, 10),
        AnimalKind::Jack => (7, 9),
        AnimalKind::Javelina => (5, 10),
        AnimalKind::Rattler => (7, 10),
        AnimalKind::Runner => (8, 9),
        AnimalKind::Turkey => (5, 9),
    }
}

/// The tiles of the sprite sheet that show a plant, as `(column, row,
/// columns, rows)`.
pub open spec fn plant_cells(plant: Plant) -> (int, int, int, int) {
    match plant {
        Plant::NopalBig => (6, 7, 3, 2),
        Plant::NopalSmall => (4, 7, 1, 1),
        Plant::Ocotillo => (11, 6, 3, 3),
        Plant::Saguaro => (1, 4, 3, 5),
    }
}

/// The pixel of the sprite sheet at which the tile `cell` starts.
pub open spec fn cell_origin(game: GameMetrics, cell: (int, int)) -> Vec2i {
    Vec2i { x: (cell.0 * game.tile_size_px.x) as i64, y: (cell.1 * game.tile_size_px.y) as i64 }
}

/// The pixels of the sprite sheet that the tiles `cells` cover.
pub open spec fn cells_rect(game: GameMetrics, cells: (int, int, int, int)) -> PxRect {
    PxRect {
        x: (cells.0 * game.tile_size_px.x) as i64,
        y: (cells.1 * game.tile_size_px.y) as i64,
        w: (cells.2 * game.tile_size_px.x) as i64,
        h: (cells.3 * game.tile_size_px.y) as i64,
    }
}

/// Where each animal and plant is found on the sprite sheet, in pixels.
#[derive(Copy, Clone, Debug, PartialEq, Eq, Structural)]
pub struct TileInfo {
    pub bead: Vec2i,
    pub bob: Vec2i,
    pub coyote: Vec2i,
    pub jack: Vec2i,
    pub javelina: Vec2i,
    pub nopal_big: PxRect,
    pub nopal_small: PxRect,
    pub ocotillo: PxRect,
    pub rattler: Vec2i,
    pub runner: Vec2i,
    pub saguaro: PxRect,
    pub turkey: Vec2i,
}

impl TileInfo {
    /// The entry for an animal kind.
    pub open spec fn animal(&self, kind: AnimalKind) -> Vec2i {
        match kind {
            AnimalKind::Bead => self.bead,
            AnimalKind::Bob => self.bob,
            AnimalKind::Coyote => self.coyote,
            AnimalKind::Jack => self.jack,
            AnimalKind::Javelina => self.javelina,
            AnimalKind::Rattler => self.rattler,
            AnimalKind::Runner => self.runner,
            AnimalKind::Turkey => self.turkey,
        }
    }

    /// The entry for a plant.
    pub open spec fn plant(&self, plant: Plant) -> PxRect {
        match plant {
            Plant::NopalBig => self.nopal_big,
            Plant::NopalSmall => self.nopal_small,
            Plant::Ocotillo => self.ocotillo,
            Plant::Saguaro => self.saguaro,
        }
    }

    /// Whether this is the sprite sheet of `game`: every entry is the
    /// place of its tiles on the sheet, in tiles of the size of `game`.
    pub open spec fn is_sheet_of(&self, game: GameMetrics) -> bool {
        &&& forall|kind: AnimalKind| #[trigger]
            self.animal(kind) == cell_origin(game, animal_cell(kind))
        &&& forall|plant: Plant| #[trigger]
            self.plant(plant) == cells_rect(game, plant_cells(plant))
    }

    /// The rectangle of the sheet that shows what stands on `tile`, if
    /// anything does. An animal is one tile large and is looked up by its
    /// kind in `animals`.
    pub open spec fn spec_source(
        &self,
        game: GameMetrics,
        tile: Tile,
        animals: Seq<Animal>,
    ) -> Option<PxRect> {
        match tile.occupant {
            None => None,
            Some(Occupant::Plant(plant)) => Some(self.plant(plant)),
            Some(Occupant::Animal(index)) => {
                let origin = self.animal(animals[index as int].kind);
                Some(
                    PxRect {
                        x: origin.x,
                        y: origin.y,
                        w: game.tile_size_px.x as i64,
                        h: game.tile_size_px.y as i64,
                    },
                )
            },
        }
    }

    /// The sprite sheet of `game`.
    pub fn new(game: &GameMetrics) -> (info: TileInfo)
        ensures
            info.is_sheet_of(*game),
    {
        let tw: i64 = game.tile_size_px.x as i64;
        let th: i64 = game.tile_size_px.y as i64;
        let info = TileInfo {
            bead: Vec2i { x: 8 * tw, y: 10 * th },
            bob: Vec2i { x: 6 * tw, y: 9 * th },
            coyote: Vec2i { x: 6 * tw, y: 10 * th },
            jack: Vec2i { x: 7 * tw, y: 9 * th },
            javelina: Vec2i { x: 5 * tw, y: 10 * th },
            nopal_big: PxRect { x: 6 * tw, y: 7 * th, w: 3 * tw, h: 2 * th },
            nopal_small: PxRect { x: 4 * tw, y: 7 * th, w: tw, h: th },
            ocotillo: PxRect { x: 11 * tw, y: 6 * th, w: 3 * tw, h: 3 * th },
            rattler: Vec2i { x: 7 * tw, y: 10 * th },
            runner: Vec2i { x: 8 * tw, y: 9 * th },
            saguaro: PxRect { x: tw, y: 4 * th, w: 3 * tw, h: 5 * th },
            turkey: Vec2i { x: 5 * tw, y: 9 * th },
        };
        proof {
            let g = *game;
            assert(info.bead == cell_origin(g, (8, 10)));
            assert(info.bob == cell_origin(g, (6, 9)));
            assert(info.coyote == cell_origin(g, (6, 10)));
            assert(info.jack == cell_origin(g, (7, 9)));
            assert(info.javelina == cell_origin(g, (5, 10)));
            assert(info.rattler == cell_origin(g, (7, 10)));
            assert(info.runner == cell_origin(g, (8, 9)));
            assert(info.turkey == cell_origin(g, (5, 9)));
            assert(info.nopal_big == cells_rect(g, (6, 7, 3, 2)));
            assert(info.nopal_small == cells_rect(g, (4, 7, 1, 1)));
            assert(info.ocotillo == cells_rect(g, (11, 6, 3, 3)));
            assert(info.saguaro == cells_rect(g, (1, 4, 3, 5)));
            assert forall|kind: AnimalKind| #[trigger]
                info.animal(kind) == cell_origin(g, animal_cell(kind)) by {
                match kind {
                    AnimalKind::Bead => {},
                    AnimalKind::Bob => {},
                    AnimalKind::Coyote => {},
                    AnimalKind::Jack => {},
                    AnimalKind::Javelina => {},
                    AnimalKind::Rattler => {},
                    AnimalKind::Runner => {},
                    AnimalKind::Turkey => {},
                }
            }
            assert forall|plant: Plant| #[trigger]
                info.plant(plant) == cells_rect(g, plant_cells(plant)) by {
                match plant {
                    Plant::NopalBig => {},
                    Plant::NopalSmall => {},
                    Plant::Ocotillo => {},
                    Plant::Saguaro => {},
                }
            }
        }
        info
    }

    /// The entry for an animal kind.
    pub fn animal_origin(&self, kind: AnimalKind) -> (origin: Vec2i)
        ensures
            origin == self.animal(kind),
    {
        match kind {
            AnimalKind::Bead => self.bead,
            AnimalKind::Bob => self.bob,
            AnimalKind::Coyote => self.coyote,
            AnimalKind::Jack => self.jack,
            AnimalKind::Javelina => self.javelina,
            AnimalKind::Rattler => self.rattler,
            AnimalKind::Runner => self.runner,
            AnimalKind::Turkey => self.turkey,
        }
    }

    /// The entry for a plant.
    pub fn plant_rect(&self, plant: Plant) -> (rect: PxRect)
        ensures
            rect == self.plant(plant),
    {
        match plant {
            Plant::NopalBig => self.nopal_big,
            Plant::NopalSmall => self.nopal_small,
            Plant::Ocotillo => self.ocotillo,
            Plant::Saguaro => self.saguaro,
        }
    }

    /// The rectangle of the sheet that shows what stands on `tile`, if
    /// anything does.
    pub fn source(&self, game: &GameMetrics, tile: Tile, animals: &Vec<Animal>) -> (rect: Option<
        PxRect,
    >)
        requires
            tile.occupant matches Some(Occupant::Animal(index)) ==> index < animals@.len(),
        ensures
            rect == self.spec_source(*game, tile, animals@),
    {
        match tile.occupant {
            None => None,
            Some(Occupant::Plant(plant)) => Some(self.plant_rect(plant)),
            Some(Occupant::Animal(index)) => {
                let origin = self.animal_origin(animals[index].kind);
                Some(
                    PxRect {
                        x: origin.x,
                        y: origin.y,
                        w: game.tile_size_px.x as i64,
                        h: game.tile_size_px.y as i64,
                    },
                )
            },
        }
    }
}

/// How far the top left corner of a sprite lies from the top left corner of
/// the tile it stands on, in design pixels: a sprite wider than a tile is
/// centred on its tile, by whole tiles, and one taller than a tile stands
/// with its bottom row on its tile.
pub open spec fn anchor(game: GameMetrics, source: PxRect) -> (int, int) {
    (
        (source.w - game.tile_size_px.x) / (2 * game.tile_size_px.x) * game.tile_size_px.x,
        (source.h - game.tile_size_px.y) / (game.tile_size_px.y as int) * game.tile_size_px.y,
    )
}

/// Where the sprite `source` goes when it stands on tile `pos` of the view,
/// as `(x, y, width, height)` in window pixels: the tile's place, moved
/// back by the scaled anchor, at the scaled size of the sprite.
pub open spec fn sprite_place(
    screen: ScreenMetrics,
    game: GameMetrics,
    source: PxRect,
    pos: Vec2i,
) -> (int, int, int, int) {
    (
        screen.tile_origin(pos).0 - anchor(game, source).0 * screen.scale.x,
        screen.tile_origin(pos).1 - anchor(game, source).1 * screen.scale.y,
        screen.scale.x * source.w,
        screen.scale.y * source.h,
    )
}

/// The sprite that shows `source` standing on tile `pos` of the view.
pub open spec fn sprite_of(
    screen: ScreenMetrics,
    game: GameMetrics,
    source: PxRect,
    pos: Vec2i,
) -> Sprite {
    let place = sprite_place(screen, game, source, pos);
    Sprite {
        source,
        dest: Vec2i { x: place.0 as i64, y: place.1 as i64 },
        dest_size: Vec2i { x: place.2 as i64, y: place.3 as i64 },
    }
}

/// Whether the sprite `source` on tile `pos` can be placed: tiles are not
/// empty, and the place and what it is computed from can be held in 64
/// bits.
pub open spec fn placeable(
    screen: ScreenMetrics,
    game: GameMetrics,
    source: PxRect,
    pos: Vec2i,
) -> bool {
    &&& game.tile_size_px.x > 0
    &&& game.tile_size_px.y > 0
    &&& fits_i64(source.w - game.tile_size_px.x)
    &&& fits_i64(source.h - game.tile_size_px.y)
    &&& fits_i64(anchor(game, source).0)
    &&& fits_i64(anchor(game, source).1)
    &&& fits_i64(screen.tile_origin(pos).0)
    &&& fits_i64(screen.tile_origin(pos).1)
    &&& fits_i64(sprite_place(screen, game, source, pos).0)
    &&& fits_i64(sprite_place(screen, game, source, pos).1)
    &&& fits_i64(sprite_place(screen, game, source, pos).2)
    &&& fits_i64(sprite_place(screen, game, source, pos).3)
}

/// The sprite that shows `source` standing on tile `pos` of the view.
pub fn place_sprite(
    screen: &ScreenMetrics,
    game: &GameMetrics,
    source: PxRect,
    pos: Vec2i,
) -> (sprite: Sprite)
    requires
        placeable(*screen, *game, source, pos),
    ensures
        sprite == sprite_of(*screen, *game, source, pos),
        (
            sprite.dest.x as int,
            sprite.dest.y as int,
            sprite.dest_size.x as int,
            sprite.dest_size.y as int,
        ) == sprite_place(*screen, *game, source, pos),
{
    let tw: i64 = game.tile_size_px.x as i64;
    let th: i64 = game.tile_size_px.y as i64;
    let origin = screen.tile(pos);
    let across: i64 = div_floor(source.w - tw, 2 * tw);
    let down: i64 = div_floor(source.h - th, th);
    let anchor_x: i128 = wide_product(across, tw);
    let anchor_y: i128 = wide_product(down, th);
    let back_x: i128 = wide_product(anchor_x as i64, screen.scale.x);
    let back_y: i128 = wide_product(anchor_y as i64, screen.scale.y);
    let x: i128 = origin.x as i128 - back_x;
    let y: i128 = origin.y as i128 - back_y;
    let w: i128 = wide_product(screen.scale.x, source.w);
    let h: i128 = wide_product(screen.scale.y, source.h);
    Sprite {
        source,
        dest: Vec2i { x: x as i64, y: y as i64 },
        dest_size: Vec2i { x: w as i64, y: h as i64 },
    }
}

} // verus!
