//! A fixed-size dense grid addressed by `(x, y)`.
//!
//! Cells are stored in one flat vector, column after column: the cell
//! `(x, y)` lives at offset `x * size_y + y`.

use vstd::arithmetic::div_mod::{lemma_div_pos_is_pos, lemma_fundamental_div_mod, lemma_mod_bound};
use vstd::prelude::*;
use vstd::set_lib::{lemma_int_range, lemma_map_size, set_int_range};

verus! {

/// Why a grid access was refused.
#[derive(Debug, Clone, Copy, PartialEq, Eq, Structural)]
pub enum GridError {
    /// The coordinates name no cell of the grid.
    IndexOutOfRange,
}

/// The offset of cell `(x, y)` in a grid whose columns hold `size_y` cells.
pub open spec fn linear_index(size_y: int, x: int, y: int) -> int {
    x * size_y + y
}

/// Whether `(x, y)` names a cell of a `size_x` by `size_y` grid.
pub open spec fn within(size_x: int, size_y: int, x: int, y: int) -> bool {
    0 <= x < size_x && 0 <= y < size_y
}

/// The coordinates of the cells of a grid of `size_x` by `size_y` cells.
pub open spec fn coordinates(size_x: int, size_y: int) -> Set<(int, int)> {
    Set::new(|p: (int, int)| within(size_x, size_y, p.0, p.1))
}

/// Whether every cell of `cells` holds a value that `T::default()` may return.
pub open spec fn all_default<T: Default>(cells: Map<(int, int), T>) -> bool {
    forall|p: (int, int)|
        cells.dom().contains(p) ==> call_ensures(T::default, (), #[trigger] cells[p])
}

/// Every cell of a grid has an offset below the number of cells.
pub proof fn lemma_linear_index_in_range(size_x: int, size_y: int, x: int, y: int)
    requires
        within(size_x, size_y, x, y),
    ensures
        0 <= linear_index(size_y, x, y) < size_x * size_y,
{
    assert(0 <= x * size_y) by (nonlinear_arith)
        requires
            0 <= x,
            0 <= size_y,
    ;
    assert(x * size_y + size_y <= size_x * size_y) by (nonlinear_arith)
        requires
            x + 1 <= size_x,
            0 <= size_y,
    ;
}

/// Distinct cells of a grid have distinct offsets: the flat storage never
/// makes two cells share a slot.
pub proof fn lemma_linear_index_injective(
    size_x: int,
    size_y: int,
    x1: int,
    y1: int,
    x2: int,
    y2: int,
)
    requires
        within(size_x, size_y, x1, y1),
        within(size_x, size_y, x2, y2),
        linear_index(size_y, x1, y1) == linear_index(size_y, x2, y2),
    ensures
        x1 == x2,
        y1 == y2,
{
    if x1 < x2 {
        assert(x1 * size_y + size_y <= x2 * size_y) by (nonlinear_arith)
            requires
                x1 + 1 <= x2,
                0 <= size_y,
        ;
    } else if x2 < x1 {
        assert(x2 * size_y + size_y <= x1 * size_y) by (nonlinear_arith)
            requires
                x2 + 1 <= x1,
                0 <= size_y,
        ;
    }
}

/// Every offset below the number of cells belongs to a cell of the grid:
/// together with injectivity, cells and offsets correspond one to one.
pub proof fn lemma_linear_index_onto(size_x: int, size_y: int, offset: int)
    requires
        0 <= offset < size_x * size_y,
        0 <= size_x,
        0 <= size_y,
    ensures
        within(size_x, size_y, offset / size_y, offset % size_y),
        linear_index(size_y, offset / size_y, offset % size_y) == offset,
{
    assert(size_y > 0) by (nonlinear_arith)
        requires
            0 <= offset < size_x * size_y,
            0 <= size_x,
            0 <= size_y,
    ;
    lemma_fundamental_div_mod(offset, size_y);
    lemma_mod_bound(offset, size_y);
    lemma_div_pos_is_pos(offset, size_y);
    let q = offset / size_y;
    assert(q * size_y == size_y * q) by (nonlinear_arith);
    if q >= size_x {
        assert(q * size_y >= size_x * size_y) by (nonlinear_arith)
            requires
                q >= size_x,
                size_y > 0,
        ;
    }
}

/// A dense two-dimensional array of `size_x` columns of `size_y` cells.
///
/// The grid is created with a fixed size and never resized; cells are read
/// and written in place.
pub struct Grid<T> {
    size_x: usize,
    size_y: usize,
    values: Vec<T>,
}

impl<T> Grid<T> {
    /// The flat storage holds exactly one slot per cell.
    #[verifier::type_invariant]
    spec fn inv(&self) -> bool {
        &&& self.size_x * self.size_y <= usize::MAX
        &&& self.values@.len() == self.size_x * self.size_y
    }

    /// Number of columns.
    pub closed spec fn spec_size_x(&self) -> usize {
        self.size_x
    }

    /// Number of cells in each column.
    pub closed spec fn spec_size_y(&self) -> usize {
        self.size_y
    }

    /// The cells in storage order.
    pub closed spec fn cells(&self) -> Seq<T> {
        self.values@
    }

    /// Whether `(x, y)` names a cell of this grid.
    pub open spec fn in_bounds(&self, x: int, y: int) -> bool {
        within(self.spec_size_x() as int, self.spec_size_y() as int, x, y)
    }

    /// The content of cell `(x, y)`.
    pub open spec fn cell(&self, x: int, y: int) -> T {
        self.cells()[linear_index(self.spec_size_y() as int, x, y)]
    }

    /// Replacing the slot of cell `(x, y)` in the storage changes that cell
    /// of the grid and no other.
    proof fn lemma_update_is_insert(before: Self, after: Self, x: int, y: int, value: T)
        requires
            before.inv(),
            before.in_bounds(x, y),
            after.size_x == before.size_x,
            after.size_y == before.size_y,
            after.values@ == before.values@.update(
                linear_index(before.size_y as int, x, y),
                value,
            ),
        ensures
            after@ == before@.insert((x, y), value),
    {
        let sx = before.size_x as int;
        let sy = before.size_y as int;
        lemma_linear_index_in_range(sx, sy, x, y);
        assert forall|p: (int, int)| before.in_bounds(p.0, p.1) && p != (x, y) implies after.cell(
            p.0,
            p.1,
        ) == before.cell(p.0, p.1) by {
            lemma_linear_index_in_range(sx, sy, p.0, p.1);
            if linear_index(sy, p.0, p.1) == linear_index(sy, x, y) {
                lemma_linear_index_injective(sx, sy, p.0, p.1, x, y);
            }
        }
        assert(after@ =~= before@.insert((x, y), value));
    }

    /// Number of columns.
    #[verifier::when_used_as_spec(spec_size_x)]
    pub fn size_x(&self) -> (n: usize)
        ensures
            n == self.spec_size_x(),
    {
        self.size_x
    }

    /// Number of cells in each column.
    #[verifier::when_used_as_spec(spec_size_y)]
    pub fn size_y(&self) -> (n: usize)
        ensures
            n == self.spec_size_y(),
    {
        self.size_y
    }

    /// Both dimensions, columns first.
    pub fn size(&self) -> (dims: (usize, usize))
        ensures
            dims.0 == self.spec_size_x(),
            dims.1 == self.spec_size_y(),
    {
        (self.size_x, self.size_y)
    }

    /// Whether `(x, y)` names a cell of this grid.
    pub fn contains(&self, x: usize, y: usize) -> (b: bool)
        ensures
            b == self.in_bounds(x as int, y as int),
    {
        x < self.size_x && y < self.size_y
    }
}

impl<T> View for Grid<T> {
    type V = Map<(int, int), T>;

    /// The grid as a map from the coordinates of its cells to their contents.
    open spec fn view(&self) -> Map<(int, int), T> {
        Map::new(|p: (int, int)| self.in_bounds(p.0, p.1), |p: (int, int)| self.cell(p.0, p.1))
    }
}

impl<T: Copy + Default> Grid<T> {
    /// Creates a grid of `size_x` by `size_y` cells, each holding a default
    /// value of `T`.
    pub fn new_sized(size_x: usize, size_y: usize) -> (grid: Self)
        requires
            size_x * size_y <= usize::MAX,
        ensures
            grid.spec_size_x() == size_x,
            grid.spec_size_y() == size_y,
            all_default(grid@),
    {
        let count: usize = size_x * size_y;
        let fill: T = T::default();
        let mut values: Vec<T> = Vec::new();
        let mut i: usize = 0;
        while i < count
            invariant
                i <= count,
                values@.len() == i,
                call_ensures(T::default, (), fill),
                forall|k: int| 0 <= k < i ==> values@[k] == fill,
            decreases count - i,
        {
            values.push(fill);
            i = i + 1;
        }
        let grid = Grid { size_x, size_y, values };
        proof {
            assert forall|p: (int, int)| grid@.dom().contains(p) implies call_ensures(
                T::default,
                (),
                #[trigger] grid@[p],
            ) by {
                lemma_linear_index_in_range(size_x as int, size_y as int, p.0, p.1);
            }
        }
        grid
    }

    /// A copy of cell `(x, y)`.
    pub fn at(&self, x: usize, y: usize) -> (value: T)
        requires
            self.in_bounds(x as int, y as int),
        ensures
            value == self@[(x as int, y as int)],
    {
        proof {
            use_type_invariant(self);
            lemma_linear_index_in_range(
                self.size_x as int,
                self.size_y as int,
                x as int,
                y as int,
            );
        }
        self.values[x * self.size_y + y]
    }

    /// A mutable reference to cell `(x, y)`: what is written through it
    /// becomes the content of that cell, and no other cell changes.
    pub fn mut_at(&mut self, x: usize, y: usize) -> (slot: &mut T)
        requires
            old(self).in_bounds(x as int, y as int),
        ensures
            *slot == old(self)@[(x as int, y as int)],
            final(self).spec_size_x() == old(self).spec_size_x(),
            final(self).spec_size_y() == old(self).spec_size_y(),
            final(self)@ == old(self)@.insert((x as int, y as int), *final(slot)),
    {
        proof {
            use_type_invariant(&*self);
            lemma_linear_index_in_range(
                self.size_x as int,
                self.size_y as int,
                x as int,
                y as int,
            );
        }
        let i: usize = x * self.size_y + y;
        proof {
            let before = *self;
            assert forall|after: Self, value: T|
                after.size_x == before.size_x && after.size_y == before.size_y && after.values@
                    == #[trigger] before.values@.update(i as int, value) implies #[trigger] after@
                == before@.insert((x as int, y as int), value) by {
                Self::lemma_update_is_insert(before, after, x as int, y as int, value);
            }
        }
        &mut self.values[i]
    }

    /// Overwrites cell `(x, y)` and leaves every other cell as it was.
    pub fn set_at(&mut self, x: usize, y: usize, value: T)
        requires
            old(self).in_bounds(x as int, y as int),
        ensures
            final(self).spec_size_x() == old(self).spec_size_x(),
            final(self).spec_size_y() == old(self).spec_size_y(),
            final(self)@ == old(self)@.insert((x as int, y as int), value),
    {
        proof {
            use_type_invariant(&*self);
            lemma_linear_index_in_range(
                self.size_x as int,
                self.size_y as int,
                x as int,
                y as int,
            );
        }
        let i: usize = x * self.size_y + y;
        self.values[i] = value;
        proof {
            Self::lemma_update_is_insert(*old(self), *self, x as int, y as int, value);
        }
    }

    /// A copy of cell `(x, y)`, or `IndexOutOfRange` where the grid has no
    /// such cell.
    pub fn try_at(&self, x: usize, y: usize) -> (result: Result<T, GridError>)
        ensures
            self.in_bounds(x as int, y as int) ==> result == Ok::<T, GridError>(
                self@[(x as int, y as int)],
            ),
            !self.in_bounds(x as int, y as int) ==> result == Err::<T, GridError>(
                GridError::IndexOutOfRange,
            ),
    {
        if self.contains(x, y) {
            Ok(self.at(x, y))
        } else {
            Err(GridError::IndexOutOfRange)
        }
    }

    /// Overwrites cell `(x, y)`, or reports `IndexOutOfRange` and changes
    /// nothing where the grid has no such cell.
    pub fn try_set_at(&mut self, x: usize, y: usize, value: T) -> (result: Result<(), GridError>)
        ensures
            final(self).spec_size_x() == old(self).spec_size_x(),
            final(self).spec_size_y() == old(self).spec_size_y(),
            old(self).in_bounds(x as int, y as int) ==> result == Ok::<(), GridError>(())
                && final(self)@ == old(self)@.insert((x as int, y as int), value),
            !old(self).in_bounds(x as int, y as int) ==> result == Err::<(), GridError>(
                GridError::IndexOutOfRange,
            ) && final(self)@ == old(self)@,
    {
        if self.contains(x, y) {
            self.set_at(x, y, value);
            Ok(())
        } else {
            Err(GridError::IndexOutOfRange)
        }
    }
}

/// A grid of `size_x` by `size_y` cells has exactly `size_x * size_y`
/// cells, one for each offset in the storage.
pub proof fn lemma_cell_count(size_x: int, size_y: int)
    requires
        0 <= size_x,
        0 <= size_y,
    ensures
        coordinates(size_x, size_y).finite(),
        coordinates(size_x, size_y).len() == size_x * size_y,
{
    let count = size_x * size_y;
    assert(0 <= count) by (nonlinear_arith)
        requires
            count == size_x * size_y,
            0 <= size_x,
            0 <= size_y,
    ;
    let offsets = set_int_range(0, count);
    lemma_int_range(0, count);
    let cell_of = |offset: int| (offset / size_y, offset % size_y);
    assert forall|a: int, b: int|
        offsets.contains(a) && offsets.contains(b) && #[trigger] cell_of(a) == #[trigger] cell_of(
            b,
        ) implies a == b by {
        lemma_linear_index_onto(size_x, size_y, a);
        lemma_linear_index_onto(size_x, size_y, b);
    }
    assert forall|p: (int, int)| coordinates(size_x, size_y).contains(p) implies offsets.map(
        cell_of,
    ).contains(p) by {
        let offset = linear_index(size_y, p.0, p.1);
        lemma_linear_index_in_range(size_x, size_y, p.0, p.1);
        lemma_linear_index_onto(size_x, size_y, offset);
        lemma_linear_index_injective(
            size_x,
            size_y,
            offset / size_y,
            offset % size_y,
            p.0,
            p.1,
        );
        assert(offsets.contains(offset) && cell_of(offset) == p);
    }
    assert forall|p: (int, int)| offsets.map(cell_of).contains(p) implies coordinates(
        size_x,
        size_y,
    ).contains(p) by {
        let offset = choose|offset: int| offsets.contains(offset) && p == cell_of(offset);
        lemma_linear_index_onto(size_x, size_y, offset);
    }
    assert(offsets.map(cell_of) =~= coordinates(size_x, size_y));
    lemma_map_size(offsets, coordinates(size_x, size_y), cell_of);
}

/// Write then read: once `value` is written to cell `(x, y)`, that cell
/// reads as `value` and every other cell reads as it did before.
pub proof fn lemma_write_then_read<T>(before: Grid<T>, after: Grid<T>, x: int, y: int, value: T)
    requires
        before.in_bounds(x, y),
        after@ == before@.insert((x, y), value),
    ensures
        after@[(x, y)] == value,
        forall|p: (int, int)| p != (x, y) && before@.dom().contains(p) ==> after@[p] == before@[p],
        after@.dom() == before@.dom(),
{
    assert(before@.dom().contains((x, y)));
    assert(after@.dom() =~= before@.dom());
}

/// A cell that was never written holds a default value: a write to cell
/// `(x, y)` of a grid keeps every other cell that held a default value at
/// a default value.
pub proof fn lemma_unwritten_stays_default<T: Default>(
    before: Grid<T>,
    after: Grid<T>,
    x: int,
    y: int,
    value: T,
)
    requires
        all_default(before@),
        before.in_bounds(x, y),
        after@ == before@.insert((x, y), value),
    ensures
        forall|p: (int, int)|
            p != (x, y) && after@.dom().contains(p) ==> call_ensures(
                T::default,
                (),
                #[trigger] after@[p],
            ),
{
    lemma_write_then_read(before, after, x, y, value);
    assert forall|p: (int, int)| p != (x, y) && after@.dom().contains(p) implies call_ensures(
        T::default,
        (),
        #[trigger] after@[p],
    ) by {
        assert(before@.dom().contains(p));
        assert(after@[p] == before@[p]);
    }
}

} // verus!
