//! The world: a grid of tiles, the plants that grow on them and the animals
//! that stand on them.

use crate::grid::{coordinates, lemma_cell_count, Grid};
use crate::random::random_u32;
use vstd::prelude::*;
use vstd::set_lib::{lemma_int_range, lemma_len_subset, lemma_map_size, lemma_set_disjoint_lens};
use vstd::set_lib::set_int_range;

verus! {

/// The plants that can grow on a tile.
#[derive(Copy, Clone, Debug, PartialEq, Eq, Structural)]
pub enum Plant {
    NopalBig,
    NopalSmall,
    Ocotillo,
    Saguaro,
}

/// The kinds of animals that live in the world.
#[derive(Copy, Clone, Debug, PartialEq, Eq, Structural)]
pub enum AnimalKind {
    Bead,
    Bob,
    Coyote,
    Jack,
    Javelina,
    Rattler,
    Runner,
    Turkey,
}

/// What stands on a tile: an animal, named by its index in the world's
/// list of animals, or a plant.
#[derive(Copy, Clone, Debug, PartialEq, Eq, Structural)]
pub enum Occupant {
    Animal(usize),
    Plant(Plant),
}

/// An animal and the cell it stands on.
#[derive(Copy, Clone, Debug, PartialEq, Eq, Structural)]
pub struct Animal {
    pub kind: AnimalKind,
    pub x: usize,
    pub y: usize,
}

/// One cell of the world: empty, or holding one occupant.
#[derive(Copy, Clone, Debug, PartialEq, Eq, Structural)]
pub struct Tile {
    pub occupant: Option<Occupant>,
}

/// A roll `r` stands for the fraction `r / 2^32` of the unit interval; this
/// says whether that fraction lies below `percent / 100`.
pub open spec fn roll_below(roll: u32, percent: int) -> bool {
    roll * 100 < percent * 0x1_0000_0000
}

/// The plant that a roll selects: none for the lowest 80% of the rolls, then
/// small nopal up to 87%, big nopal up to 94%, ocotillo up to 98%, and
/// saguaro above.
pub open spec fn plant_for_roll(roll: u32) -> Option<Plant> {
    if roll_below(roll, 80) {
        None
    } else if roll_below(roll, 87) {
        Some(Plant::NopalSmall)
    } else if roll_below(roll, 94) {
        Some(Plant::NopalBig)
    } else if roll_below(roll, 98) {
        Some(Plant::Ocotillo)
    } else {
        Some(Plant::Saguaro)
    }
}

/// The animal kinds in the order in which a roll selects them.
pub open spec fn animal_kinds() -> Seq<AnimalKind> {
    seq![
        AnimalKind::Bead,
        AnimalKind::Bob,
        AnimalKind::Coyote,
        AnimalKind::Jack,
        AnimalKind::Javelina,
        AnimalKind::Rattler,
        AnimalKind::Runner,
        AnimalKind::Turkey,
    ]
}

/// The animal kind that a roll selects: the kinds take turns, one per roll.
pub open spec fn animal_kind_for_roll(roll: u32) -> AnimalKind {
    animal_kinds()[roll as int % 8]
}

impl Plant {
    /// The plant, if any, that `roll` selects.
    pub fn from_roll(roll: u32) -> (plant: Option<Plant>)
        ensures
            plant == plant_for_roll(roll),
    {
        let scaled: u64 = (roll as u64) * 100;
        let unit: u64 = 0x1_0000_0000;
        if scaled < 80 * unit {
            None
        } else if scaled < 87 * unit {
            Some(Plant::NopalSmall)
        } else if scaled < 94 * unit {
            Some(Plant::NopalBig)
        } else if scaled < 98 * unit {
            Some(Plant::Ocotillo)
        } else {
            Some(Plant::Saguaro)
        }
    }

    /// A random plant, or none: four tiles in five stay bare.
    pub fn rand() -> (plant: Option<Plant>)
        ensures
            exists|roll: u32| plant == plant_for_roll(roll),
    {
        let roll = random_u32();
        Plant::from_roll(roll)
    }
}

impl AnimalKind {
    /// The animal kind that `roll` selects.
    pub fn from_roll(roll: u32) -> (kind: AnimalKind)
        ensures
            kind == animal_kind_for_roll(roll),
    {
        let turn: u32 = roll % 8;
        if turn == 0 {
            AnimalKind::Bead
        } else if turn == 1 {
            AnimalKind::Bob
        } else if turn == 2 {
            AnimalKind::Coyote
        } else if turn == 3 {
            AnimalKind::Jack
        } else if turn == 4 {
            AnimalKind::Javelina
        } else if turn == 5 {
            AnimalKind::Rattler
        } else if turn == 6 {
            AnimalKind::Runner
        } else {
            AnimalKind::Turkey
        }
    }

    /// A random animal kind.
    pub fn rand() -> (kind: AnimalKind)
        ensures
            exists|roll: u32| kind == animal_kind_for_roll(roll),
    {
        let roll = random_u32();
        AnimalKind::from_roll(roll)
    }
}

impl Tile {
    /// The tile on which `plant` grows, or the empty tile for `None`.
    pub open spec fn spec_with_plant(plant: Option<Plant>) -> Tile {
        match plant {
            Some(p) => Tile { occupant: Some(Occupant::Plant(p)) },
            None => Tile { occupant: None },
        }
    }

    /// Whether no animal stands on this tile.
    pub open spec fn no_animal(self) -> bool {
        !(self.occupant matches Some(Occupant::Animal(_)))
    }

    /// The tile on which `plant` grows, or the empty tile for `None`.
    pub fn with_plant(plant: Option<Plant>) -> (tile: Tile)
        ensures
            tile == Tile::spec_with_plant(plant),
    {
        match plant {
            Some(p) => Tile { occupant: Some(Occupant::Plant(p)) },
            None => Tile { occupant: None },
        }
    }

    /// A tile with a random plant, or empty.
    pub fn rand() -> (tile: Tile)
        ensures
            exists|roll: u32| tile == Tile::spec_with_plant(plant_for_roll(roll)),
            tile.no_animal(),
    {
        let plant = Plant::rand();
        Tile::with_plant(plant)
    }
}

impl Default for Tile {
    /// The empty tile.
    fn default() -> (tile: Tile)
        ensures
            tile == (Tile { occupant: None }),
    {
        Tile { occupant: None }
    }
}

/// The cell that a pair of rolls selects in a grid of `size_x` by `size_y`
/// cells: each roll is reduced modulo the size along its axis.
pub open spec fn cell_for_rolls(size_x: usize, size_y: usize, x_roll: u32, y_roll: u32) -> (
    int,
    int,
) {
    (x_roll as int % size_x as int, y_roll as int % size_y as int)
}

/// The world: the grid of tiles and the animals that stand on it.
///
/// A tile names the animal on it by index, and an animal records its cell;
/// `wf` says that the two agree.
pub struct World {
    pub animals: Vec<Animal>,
    pub grid: Grid<Tile>,
}

impl World {
    /// The list of animals and the grid agree: every animal stands on a
    /// cell of the grid that names it, and every tile that names an animal
    /// names the one that stands there.
    pub open spec fn wf(&self) -> bool {
        &&& self.animals@.len() <= usize::MAX
        &&& forall|i: int|
            0 <= i < self.animals@.len() ==> {
                let a = #[trigger] self.animals@[i];
                &&& self.grid.in_bounds(a.x as int, a.y as int)
                &&& self.grid@[(a.x as int, a.y as int)].occupant == Some(
                    Occupant::Animal(i as usize),
                )
            }
        &&& forall|p: (int, int)|
            self.grid@.dom().contains(p) ==> match (#[trigger] self.grid@[p]).occupant {
                Some(Occupant::Animal(i)) => i < self.animals@.len() && self.animals@[i as int].x
                    == p.0 && self.animals@[i as int].y == p.1,
                _ => true,
            }
    }

    /// Whether cell `(x, y)` is free: inside the grid and without occupant.
    pub open spec fn free(&self, x: int, y: int) -> bool {
        self.grid.in_bounds(x, y) && self.grid@[(x, y)].occupant is None
    }

    /// Whether this world came from `earlier` by placing animals only: the
    /// grid kept its size, the animals of `earlier` are the first of this
    /// world, each further animal stands on a cell that was free in
    /// `earlier`, and every other tile is as it was.
    pub open spec fn extends(&self, earlier: World) -> bool {
        &&& self.grid.spec_size_x() == earlier.grid.spec_size_x()
        &&& self.grid.spec_size_y() == earlier.grid.spec_size_y()
        &&& earlier.animals@.len() <= self.animals@.len()
        &&& forall|i: int|
            0 <= i < earlier.animals@.len() ==> #[trigger] self.animals@[i] == earlier.animals@[i]
        &&& forall|i: int|
            earlier.animals@.len() <= i < self.animals@.len() ==> earlier.free(
                (#[trigger] self.animals@[i]).x as int,
                self.animals@[i].y as int,
            )
        &&& forall|p: (int, int)|
            self.grid@.dom().contains(p) ==> {
                ||| #[trigger] self.grid@[p] == earlier.grid@[p]
                ||| earlier.free(p.0, p.1) && match self.grid@[p].occupant {
                    Some(Occupant::Animal(i)) => earlier.animals@.len() <= i,
                    _ => false,
                }
            }
    }

    /// Whether an occupant stands on cell `(x, y)`.
    pub fn occupied(&self, x: usize, y: usize) -> (b: bool)
        requires
            self.grid.in_bounds(x as int, y as int),
        ensures
            b == !self.free(x as int, y as int),
    {
        self.grid.at(x, y).occupant.is_some()
    }

    /// The cell that a pair of rolls selects.
    pub fn target_cell(&self, x_roll: u32, y_roll: u32) -> (cell: (usize, usize))
        requires
            self.grid.spec_size_x() > 0,
            self.grid.spec_size_y() > 0,
        ensures
            (cell.0 as int, cell.1 as int) == cell_for_rolls(
                self.grid.spec_size_x(),
                self.grid.spec_size_y(),
                x_roll,
                y_roll,
            ),
            self.grid.in_bounds(cell.0 as int, cell.1 as int),
    {
        let x: usize = x_roll as usize % self.grid.size_x();
        let y: usize = y_roll as usize % self.grid.size_y();
        (x, y)
    }

    /// Puts an animal of the given kind on cell `(x, y)` if that cell is
    /// free, and says whether it did. The animal gets the next index; the
    /// tile names it. An occupied cell, or one outside the grid, leaves
    /// the world as it was.
    pub fn place_animal(&mut self, kind: AnimalKind, x: usize, y: usize) -> (placed: bool)
        requires
            old(self).wf(),
        ensures
            final(self).wf(),
            final(self).extends(*old(self)),
            placed == old(self).free(x as int, y as int),
            placed ==> final(self).animals@ == old(self).animals@.push(Animal { kind, x, y })
                && final(self).grid@ == old(self).grid@.insert(
                (x as int, y as int),
                Tile { occupant: Some(Occupant::Animal(old(self).animals@.len() as usize)) },
            ),
            !placed ==> final(self).animals@ == old(self).animals@
                && final(self).grid@ == old(self).grid@,
    {
        if !self.grid.contains(x, y) {
            return false;
        }
        if self.occupied(x, y) {
            return false;
        }
        let index: usize = self.animals.len();
        self.grid.set_at(x, y, Tile { occupant: Some(Occupant::Animal(index)) });
        self.animals.push(Animal { kind, x, y });
        proof {
            assert(self.animals@.len() == self.animals.len());
            assert forall|p: (int, int)| self.grid@.dom().contains(p) implies match (
            #[trigger] self.grid@[p]).occupant {
                Some(Occupant::Animal(i)) => i < self.animals@.len() && self.animals@[i as int].x
                    == p.0 && self.animals@[i as int].y == p.1,
                _ => true,
            } by {
                if p != (x as int, y as int) {
                    assert(old(self).grid@.dom().contains(p));
                    assert(self.grid@[p] == old(self).grid@[p]);
                }
            }
            assert forall|p: (int, int)| self.grid@.dom().contains(p) implies {
                ||| #[trigger] self.grid@[p] == old(self).grid@[p]
                ||| old(self).free(p.0, p.1) && match self.grid@[p].occupant {
                    Some(Occupant::Animal(i)) => old(self).animals@.len() <= i,
                    _ => false,
                }
            } by {
                if p != (x as int, y as int) {
                    assert(old(self).grid@.dom().contains(p));
                }
            }
        }
        true
    }

    /// A world of `size_x` by `size_y` tiles without animals, each tile
    /// bare or with a random plant.
    pub fn with_plants(size_x: usize, size_y: usize) -> (world: World)
        requires
            size_x * size_y <= usize::MAX,
        ensures
            world.wf(),
            world.animals@.len() == 0,
            world.grid.spec_size_x() == size_x,
            world.grid.spec_size_y() == size_y,
            forall|p: (int, int)|
                world.grid@.dom().contains(p) ==> (#[trigger] world.grid@[p]).no_animal(),
    {
        let mut grid: Grid<Tile> = Grid::new_sized(size_x, size_y);
        let mut x: usize = 0;
        while x < size_x
            invariant
                x <= size_x,
                grid.spec_size_x() == size_x,
                grid.spec_size_y() == size_y,
                forall|p: (int, int)|
                    grid@.dom().contains(p) ==> (#[trigger] grid@[p]).no_animal(),
            decreases size_x - x,
        {
            let mut y: usize = 0;
            while y < size_y
                invariant
                    x < size_x,
                    y <= size_y,
                    grid.spec_size_x() == size_x,
                    grid.spec_size_y() == size_y,
                    forall|p: (int, int)|
                        grid@.dom().contains(p) ==> (#[trigger] grid@[p]).no_animal(),
                decreases size_y - y,
            {
                grid.set_at(x, y, Tile::rand());
                y = y + 1;
            }
            x = x + 1;
        }
        World { animals: Vec::new(), grid }
    }

    /// Places random animals on random free cells until the world holds
    /// `target` animals or `max_attempts` cells have been tried, and
    /// returns the number of cells tried. Each try draws a cell; a free
    /// cell gets an animal of a random kind, an occupied one is passed
    /// over.
    pub fn populate(&mut self, target: usize, max_attempts: u64) -> (attempts: u64)
        requires
            old(self).wf(),
            old(self).grid.spec_size_x() > 0,
            old(self).grid.spec_size_y() > 0,
        ensures
            final(self).wf(),
            final(self).extends(*old(self)),
            attempts <= max_attempts,
            final(self).animals@.len() - old(self).animals@.len() <= attempts,
            final(self).animals@.len() >= target || attempts == max_attempts,
            final(self).animals@.len() <= target
                || final(self).animals@.len() == old(self).animals@.len(),
            old(self).animals@.len() >= target ==> attempts == 0,
    {
        let mut attempts: u64 = 0;
        while self.animals.len() < target && attempts < max_attempts
            invariant
                self.wf(),
                self.extends(*old(self)),
                self.grid.spec_size_x() > 0,
                self.grid.spec_size_y() > 0,
                attempts <= max_attempts,
                self.animals@.len() - old(self).animals@.len() <= attempts,
                self.animals@.len() <= target || self.animals@.len() == old(self).animals@.len(),
                old(self).animals@.len() >= target ==> attempts == 0,
            decreases max_attempts - attempts,
        {
            let ghost before = *self;
            let x_roll = random_u32();
            let y_roll = random_u32();
            let cell = self.target_cell(x_roll, y_roll);
            if !self.occupied(cell.0, cell.1) {
                let kind = AnimalKind::rand();
                self.place_animal(kind, cell.0, cell.1);
                proof {
                    lemma_extends_transitive(*old(self), before, *self);
                }
            }
            attempts = attempts + 1;
        }
        attempts
    }

    /// Places animals of random kinds on the free cells in order, column
    /// after column and each column from its first cell, until the world
    /// holds `target` animals or no cell is free. Nothing is left to
    /// chance but the kinds: the sweep ends after one pass over the grid.
    pub fn fill(&mut self, target: usize)
        requires
            old(self).wf(),
        ensures
            final(self).wf(),
            final(self).extends(*old(self)),
            final(self).animals@.len() >= target || forall|p: (int, int)|
                !final(self).free(p.0, p.1),
            final(self).animals@.len() <= target
                || final(self).animals@.len() == old(self).animals@.len(),
            old(self).animals@.len() >= target ==> final(self).animals@ == old(self).animals@
                && final(self).grid@ == old(self).grid@,
    {
        let size_x: usize = self.grid.size_x();
        let size_y: usize = self.grid.size_y();
        let mut x: usize = 0;
        while x < size_x && self.animals.len() < target
            invariant
                self.wf(),
                self.extends(*old(self)),
                self.grid.spec_size_x() == size_x,
                self.grid.spec_size_y() == size_y,
                x <= size_x,
                self.animals@.len() >= target || forall|p: (int, int)|
                    p.0 < x ==> !self.free(p.0, p.1),
                self.animals@.len() <= target || self.animals@.len() == old(self).animals@.len(),
                old(self).animals@.len() >= target ==> self.animals@ == old(self).animals@
                    && self.grid@ == old(self).grid@,
            decreases size_x - x,
        {
            let mut y: usize = 0;
            while y < size_y && self.animals.len() < target
                invariant
                    self.wf(),
                    self.extends(*old(self)),
                    self.grid.spec_size_x() == size_x,
                    self.grid.spec_size_y() == size_y,
                    x < size_x,
                    y <= size_y,
                    self.animals@.len() >= target || forall|p: (int, int)|
                        p.0 < x || (p.0 == x && p.1 < y) ==> !self.free(p.0, p.1),
                    self.animals@.len() <= target
                        || self.animals@.len() == old(self).animals@.len(),
                    self.animals@.len() < target ==> old(self).animals@.len() < target,
                decreases size_y - y,
            {
                if !self.occupied(x, y) {
                    let ghost before = *self;
                    let kind = AnimalKind::rand();
                    self.place_animal(kind, x, y);
                    proof {
                        lemma_extends_transitive(*old(self), before, *self);
                        assert forall|p: (int, int)|
                            p.0 < x || (p.0 == x && p.1 <= y) implies !self.free(p.0, p.1) by {
                            if p != (x as int, y as int) && self.grid.in_bounds(p.0, p.1) {
                                assert(before.grid@.dom().contains(p));
                                assert(self.grid@[p] == before.grid@[p]);
                                assert(!before.free(p.0, p.1));
                            }
                        }
                    }
                }
                y = y + 1;
            }
            x = x + 1;
        }
    }

    /// Places animals until the world holds `target` of them or no cell is
    /// free: first on random cells, as `populate` does it with at most
    /// `max_attempts` tries, then, if animals are still missing, on the
    /// free cells in order, as `fill` does it. A world that has room for
    /// the target ends with exactly `target` animals.
    pub fn place_animals(&mut self, target: usize, max_attempts: u64)
        requires
            old(self).wf(),
            old(self).grid.spec_size_x() > 0,
            old(self).grid.spec_size_y() > 0,
        ensures
            final(self).wf(),
            final(self).extends(*old(self)),
            final(self).animals@.len() >= target || forall|p: (int, int)|
                !final(self).free(p.0, p.1),
            final(self).animals@.len() <= target
                || final(self).animals@.len() == old(self).animals@.len(),
            old(self).animals@.len() >= target ==> final(self).animals@ == old(self).animals@
                && final(self).grid@ == old(self).grid@,
            old(self).animals@.len() <= target && target - old(self).animals@.len() <= free_cells(
                *old(self),
            ).len() ==> final(self).animals@.len() == target,
    {
        self.populate(target, max_attempts);
        let ghost tried = *self;
        self.fill(target);
        proof {
            lemma_extends_transitive(*old(self), tried, *self);
            if old(self).animals@.len() >= target {
                lemma_unchanged_without_animals(*old(self), tried);
            }
            if old(self).animals@.len() <= target && target - old(self).animals@.len()
                <= free_cells(*old(self)).len() {
                lemma_target_reached(*old(self), *self, target as int);
            }
        }
    }

    /// The world of the game: 1500 by 1100 tiles with random plants and
    /// 10,000 animals on cells that the plants left free, or an animal on
    /// every cell that the plants left free if those are fewer. The
    /// animals are placed as `place_animals` does it, with 2^64 - 1 tries
    /// at random cells before the rest is placed in order.
    pub fn new() -> (world: World)
        ensures
            world.wf(),
            world.grid.spec_size_x() == 1500,
            world.grid.spec_size_y() == 1100,
            world.animals@.len() <= 10_000,
            world.animals@.len() == 10_000 || forall|p: (int, int)| !world.free(p.0, p.1),
    {
        let mut world = World::with_plants(1500, 1100);
        world.place_animals(10_000, u64::MAX);
        world
    }
}

impl Default for World {
    /// The world of the game, as `World::new` makes it.
    fn default() -> (world: World)
        ensures
            world.wf(),
            world.grid.spec_size_x() == 1500,
            world.grid.spec_size_y() == 1100,
            world.animals@.len() <= 10_000,
            world.animals@.len() == 10_000 || forall|p: (int, int)| !world.free(p.0, p.1),
    {
        World::new()
    }
}

/// The share of each outcome among the 2^32 rolls: the first 80% of them,
/// rounded up to a whole roll, give no plant; then follow the small nopal
/// up to 87%, the big nopal up to 94%, the ocotillo up to 98%, and the
/// saguaro.
pub proof fn lemma_plant_shares(roll: u32)
    ensures
        plant_for_roll(roll) is None <==> roll < 3_435_973_837,
        plant_for_roll(roll) == Some(Plant::NopalSmall) <==> 3_435_973_837 <= roll < 3_736_621_548,
        plant_for_roll(roll) == Some(Plant::NopalBig) <==> 3_736_621_548 <= roll < 4_037_269_259,
        plant_for_roll(roll) == Some(Plant::Ocotillo) <==> 4_037_269_259 <= roll < 4_209_067_951,
        plant_for_roll(roll) == Some(Plant::Saguaro) <==> 4_209_067_951 <= roll,
{
}

/// Placing animals in two rounds is placing animals: if `middle` came from
/// `first` by placing animals only, and `last` from `middle`, then `last`
/// came from `first` so.
pub proof fn lemma_extends_transitive(first: World, middle: World, last: World)
    requires
        middle.extends(first),
        last.extends(middle),
    ensures
        last.extends(first),
{
    assert forall|i: int| first.animals@.len() <= i < last.animals@.len() implies first.free(
        (#[trigger] last.animals@[i]).x as int,
        last.animals@[i].y as int,
    ) by {
        let a = last.animals@[i];
        let p = (a.x as int, a.y as int);
        if i < middle.animals@.len() {
            assert(last.animals@[i] == middle.animals@[i]);
        } else {
            assert(middle.free(p.0, p.1));
            assert(middle.grid@.dom().contains(p));
            assert(middle.grid@[p] == first.grid@[p] || first.free(p.0, p.1));
        }
    }
    assert forall|p: (int, int)| last.grid@.dom().contains(p) implies {
        ||| #[trigger] last.grid@[p] == first.grid@[p]
        ||| first.free(p.0, p.1) && match last.grid@[p].occupant {
            Some(Occupant::Animal(i)) => first.animals@.len() <= i,
            _ => false,
        }
    } by {
        assert(middle.grid@.dom().contains(p));
        assert(middle.grid@[p] == first.grid@[p] || first.free(p.0, p.1));
    }
}

/// The free cells of a world.
pub open spec fn free_cells(world: World) -> Set<(int, int)> {
    Set::new(|p: (int, int)| world.free(p.0, p.1))
}

/// A world has finitely many free cells, no more than its grid has cells.
pub proof fn lemma_free_cells_finite(world: World)
    ensures
        free_cells(world).finite(),
        free_cells(world).len() <= world.grid.spec_size_x() * world.grid.spec_size_y(),
{
    let size_x = world.grid.spec_size_x() as int;
    let size_y = world.grid.spec_size_y() as int;
    lemma_cell_count(size_x, size_y);
    assert(free_cells(world).subset_of(coordinates(size_x, size_y)));
    lemma_len_subset(free_cells(world), coordinates(size_x, size_y));
}

/// No two animals of a consistent world stand on the same cell.
pub proof fn lemma_animals_on_distinct_cells(world: World, i: int, j: int)
    requires
        world.wf(),
        0 <= i < world.animals@.len(),
        0 <= j < world.animals@.len(),
        i != j,
    ensures
        world.animals@[i].x != world.animals@[j].x || world.animals@[i].y != world.animals@[j].y,
{
    let a = world.animals@[i];
    let b = world.animals@[j];
    if a.x == b.x && a.y == b.y {
        let cell = (a.x as int, a.y as int);
        assert(world.grid@[cell].occupant == Some(Occupant::Animal(i as usize)));
        assert(world.grid@[cell].occupant == Some(Occupant::Animal(j as usize)));
    }
}

/// Every animal placed takes one free cell: a world that came from
/// `earlier` by placing animals has as many free cells fewer as it has
/// animals more.
pub proof fn lemma_placed_take_free_cells(earlier: World, later: World)
    requires
        earlier.wf(),
        later.wf(),
        later.extends(earlier),
    ensures
        free_cells(earlier).finite(),
        free_cells(later).finite(),
        free_cells(later).len() + (later.animals@.len() - earlier.animals@.len()) == free_cells(
            earlier,
        ).len(),
{
    let first = earlier.animals@.len() as int;
    let count = later.animals@.len() as int;
    let indices = set_int_range(first, count);
    let cell_of = |i: int| (later.animals@[i].x as int, later.animals@[i].y as int);
    let taken = Set::new(|p: (int, int)| earlier.free(p.0, p.1) && !later.free(p.0, p.1));
    lemma_int_range(first, count);
    lemma_free_cells_finite(earlier);
    lemma_free_cells_finite(later);
    assert forall|i: int, j: int|
        indices.contains(i) && indices.contains(j) && #[trigger] cell_of(i) == #[trigger] cell_of(
            j,
        ) implies i == j by {
        if i != j {
            lemma_animals_on_distinct_cells(later, i, j);
        }
    }
    assert forall|p: (int, int)| taken.contains(p) implies indices.map(cell_of).contains(p) by {
        assert(later.grid@.dom().contains(p));
        match later.grid@[p].occupant {
            Some(Occupant::Animal(i)) => {
                assert(indices.contains(i as int) && cell_of(i as int) == p);
            },
            _ => {},
        }
    }
    assert forall|p: (int, int)| indices.map(cell_of).contains(p) implies taken.contains(p) by {
        let i = choose|i: int| indices.contains(i) && p == cell_of(i);
        assert(earlier.free(later.animals@[i].x as int, later.animals@[i].y as int));
    }
    assert(indices.map(cell_of) =~= taken);
    lemma_map_size(indices, taken, cell_of);
    assert forall|p: (int, int)| free_cells(later).contains(p) implies free_cells(
        earlier,
    ).contains(p) by {
        assert(later.grid@.dom().contains(p));
    }
    assert(free_cells(later) + taken =~= free_cells(earlier));
    assert(free_cells(later).disjoint(taken));
    lemma_set_disjoint_lens(free_cells(later), taken);
}

/// Room for the target: if a world had at least as many free cells as
/// animals were still to place to reach `target`, then, however animals
/// were placed since, a free cell remains for as long as the target is
/// not reached. So no try is hopeless before the world holds `target`
/// animals.
pub proof fn lemma_room_remains(earlier: World, later: World, target: int)
    requires
        earlier.wf(),
        later.wf(),
        later.extends(earlier),
        target - earlier.animals@.len() <= free_cells(earlier).len(),
        later.animals@.len() < target,
    ensures
        exists|p: (int, int)| later.free(p.0, p.1),
{
    lemma_placed_take_free_cells(earlier, later);
    let free = free_cells(later);
    assert(free.len() > 0);
    if free =~= Set::<(int, int)>::empty() {
        assert(free.len() == 0);
    }
    let p = choose|p: (int, int)| free.contains(p);
    assert(free.contains(p));
    assert(later.free(p.0, p.1));
}

/// A world that came from `earlier` by placing animals and holds no more
/// animals than `earlier` is `earlier`: its animals and its tiles are the
/// same.
pub proof fn lemma_unchanged_without_animals(earlier: World, later: World)
    requires
        earlier.wf(),
        later.wf(),
        later.extends(earlier),
        later.animals@.len() == earlier.animals@.len(),
    ensures
        later.animals@ == earlier.animals@,
        later.grid@ == earlier.grid@,
{
    assert(later.animals@ =~= earlier.animals@);
    assert forall|p: (int, int)| later.grid@.dom().contains(p) implies later.grid@[p]
        == earlier.grid@[p] by {
        match later.grid@[p].occupant {
            Some(Occupant::Animal(i)) => {},
            _ => {},
        }
    }
    assert(later.grid@ =~= earlier.grid@);
}

/// The target is reached where there is room for it: if a world had at
/// least as many free cells as animals were to place to reach `target`,
/// and animals were placed until the target was met or no cell was free,
/// then the target was met.
pub proof fn lemma_target_reached(earlier: World, later: World, target: int)
    requires
        earlier.wf(),
        later.wf(),
        later.extends(earlier),
        target - earlier.animals@.len() <= free_cells(earlier).len(),
        later.animals@.len() >= target || forall|p: (int, int)| !later.free(p.0, p.1),
    ensures
        later.animals@.len() >= target,
{
    if later.animals@.len() < target {
        lemma_room_remains(earlier, later, target);
        let p = choose|p: (int, int)| later.free(p.0, p.1);
        assert(later.free(p.0, p.1));
    }
}

} // verus!
