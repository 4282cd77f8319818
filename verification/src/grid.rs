//! A generic 2-dimensional grid, stored flat in memory.

use vstd::prelude::*;
use vstd::arithmetic::div_mod::lemma_fundamental_div_mod;
use vstd::arithmetic::div_mod::lemma_mod_division_less_than_divisor;
use std::slice::Iter;
use vstd::std_specs::iter::IteratorSpec;

verus! {

/// A generic 2-dimensional grid with a flat representation in memory.
///
/// Cell `(x, y)` lives at flat index `x * height + y`, so one column is
/// contiguous in memory. Dimensions are bounded by `i32::MAX` so that the
/// signed accessors cannot overflow.
pub struct Grid<T: Clone> {
    pub width: usize,
    pub height: usize,
    pub data: Vec<T>,
}

/// Cells at `x1 * h + y1` and `x2 * h + y2` are laid out in column-major
/// order: a lexicographically smaller coordinate has a smaller flat index,
/// and every coordinate stays below `w * h`.
proof fn lemma_flat_order(w: int, h: int, x1: int, y1: int, x2: int, y2: int)
    by (nonlinear_arith)
    requires
        0 <= x1,
        0 <= y1 < h,
        0 <= y2 < h,
        x2 < w,
        x1 < x2 || (x1 == x2 && y1 < y2),
    ensures
        x1 * h + y1 < x2 * h + y2,
        x2 * h + y2 < w * h,
{
}

/// A single coordinate's flat index is within the grid's storage.
proof fn lemma_flat_in_range(w: int, h: int, x: int, y: int)
    by (nonlinear_arith)
    requires
        0 <= x < w,
        0 <= y < h,
    ensures
        0 <= x * h + y < w * h,
{
}

impl<T: Clone> Grid<T> {
    /// The grid's storage matches its dimensions, which fit the signed
    /// accessors.
    pub open spec fn wf(self) -> bool {
        &&& self.data@.len() == self.width * self.height
        &&& self.width <= i32::MAX
        &&& self.height <= i32::MAX
    }

    /// The flat memory index of cell `(x, y)`.
    pub open spec fn flat_index(self, x: int, y: int) -> int {
        x * self.height + y
    }

    /// Creates a grid of the given dimensions with every cell set to a
    /// clone of `default`.
    pub fn new(width: usize, height: usize, default: T) -> (grid: Grid<T>)
        requires
            width <= i32::MAX,
            height <= i32::MAX,
            width * height <= usize::MAX,
        ensures
            grid.wf(),
            grid.width == width,
            grid.height == height,
            forall|i: int| 0 <= i < grid.data@.len() ==> cloned(default, #[trigger] grid.data@[i]),
    {
        let mut grid = Grid { width, height, data: Vec::new() };
        grid.data.resize(width * height, default);
        grid
    }

    /// Width (x dimension) of the grid in cells.
    pub fn width(&self) -> (w: i32)
        requires
            self.wf(),
        ensures
            w == self.width,
    {
        self.width as i32
    }

    /// Height (y dimension) of the grid in cells.
    pub fn height(&self) -> (h: i32)
        requires
            self.wf(),
        ensures
            h == self.height,
    {
        self.height as i32
    }

    /// Returns an immutable reference to the cell at x, y.
    pub fn get(&self, x: usize, y: usize) -> (cell: &T)
        requires
            self.wf(),
            x < self.width,
            y < self.height,
        ensures
            *cell == self.data@[self.flat_index(x as int, y as int)],
    {
        let i = self.index(x, y);
        &self.data[i]
    }

    /// Returns a mutable reference to the cell at x, y.
    pub fn get_mut(&mut self, x: usize, y: usize) -> (cell: &mut T)
        requires
            old(self).wf(),
            x < old(self).width,
            y < old(self).height,
        ensures
            *cell == old(self).data@[old(self).flat_index(x as int, y as int)],
            final(self).data@ == old(self).data@.update(
                old(self).flat_index(x as int, y as int),
                *final(cell),
            ),
            final(self).width == old(self).width,
            final(self).height == old(self).height,
            final(self).wf(),
    {
        let i = self.index(x, y);
        &mut self.data[i]
    }

    /// Returns an immutable reference to the cell at index (i.e. index in flat memory).
    pub fn get_index(&self, i: usize) -> (cell: &T)
        requires
            i < self.data@.len(),
        ensures
            *cell == self.data@[i as int],
    {
        &self.data[i]
    }

    /// Returns a mutable reference to the cell at index (i.e. index in flat memory).
    pub fn get_index_mut(&mut self, i: usize) -> (cell: &mut T)
        requires
            i < old(self).data@.len(),
        ensures
            *cell == old(self).data@[i as int],
            final(self).data@ == old(self).data@.update(i as int, *final(cell)),
            final(self).width == old(self).width,
            final(self).height == old(self).height,
    {
        &mut self.data[i]
    }

    /// Sets the cell at x, y.
    pub fn set(&mut self, x: usize, y: usize, value: T)
        requires
            old(self).wf(),
            x < old(self).width,
            y < old(self).height,
        ensures
            final(self).data@ == old(self).data@.update(
                old(self).flat_index(x as int, y as int),
                value,
            ),
            final(self).width == old(self).width,
            final(self).height == old(self).height,
            final(self).wf(),
    {
        let i = self.index(x, y);
        self.data.set(i, value);
    }

    /// Sets the cell at index (i.e. index in flat memory).
    pub fn set_index(&mut self, i: usize, value: T)
        requires
            i < old(self).data@.len(),
        ensures
            final(self).data@ == old(self).data@.update(i as int, value),
            final(self).width == old(self).width,
            final(self).height == old(self).height,
    {
        self.data.set(i, value);
    }

    /// Returns if the grid contains coordinate (x, y).
    ///
    /// Both coordinates are held against the grid's width, as the flat
    /// layout's first dimension.
    pub fn contains(&self, x: i32, y: i32) -> (inside: bool)
        requires
            self.wf(),
        ensures
            inside == (0 <= x && 0 <= y && x < self.width && y < self.width),
    {
        x >= 0 && y >= 0 && x < self.width as i32 && y < self.width as i32
    }

    /// Calculates memory index from x, y coordinates.
    pub fn index(&self, x: usize, y: usize) -> (i: usize)
        requires
            self.wf(),
            x < self.width,
            y < self.height,
        ensures
            i == self.flat_index(x as int, y as int),
            i < self.data@.len(),
    {
        proof {
            lemma_flat_in_range(self.width as int, self.height as int, x as int, y as int);
            assert(self.data@.len() == vstd::std_specs::vec::spec_vec_len(&self.data));
        }
        x * self.height + y
    }

    /// Calculates x, y coordinates from memory index.
    pub fn coord(&self, index: usize) -> (xy: (i32, i32))
        requires
            self.wf(),
            self.height > 0,
            index < self.data@.len(),
        ensures
            xy.0 == index as int / self.height as int,
            xy.1 == index as int % self.height as int,
    {
        proof {
            let w = self.width as int;
            let h = self.height as int;
            let i = index as int;
            lemma_fundamental_div_mod(i, h);
            lemma_mod_division_less_than_divisor(i, h);
            assert(i / h < w) by (nonlinear_arith)
                requires i == h * (i / h) + i % h, 0 <= i % h < h, i < w * h, h > 0, 0 <= i / h;
        }
        ((index / self.height) as i32, (index % self.height) as i32)
    }

    /// Fills the grid using a closure with coordinates as arguments.
    pub fn fill_xy<F: Fn(usize, usize) -> T>(&mut self, f: F)
        requires
            old(self).wf(),
            forall|x: usize, y: usize|
                x < old(self).width && y < old(self).height ==> #[trigger] call_requires(f, (x, y)),
        ensures
            final(self).wf(),
            final(self).width == old(self).width,
            final(self).height == old(self).height,
            forall|x: usize, y: usize|
                x < final(self).width && y < final(self).height ==> #[trigger] call_ensures(
                    f,
                    (x, y),
                    final(self).data@[final(self).flat_index(x as int, y as int)],
                ),
    {
        let w = self.width;
        let h = self.height;
        let mut x: usize = 0;
        while x < w
            invariant
                self.wf(),
                self.width == w,
                self.height == h,
                x <= w,
                forall|xx: usize, yy: usize|
                    xx < w && yy < h ==> #[trigger] call_requires(f, (xx, yy)),
                forall|xx: usize, yy: usize|
                    xx < x && yy < h ==> #[trigger] call_ensures(
                        f,
                        (xx, yy),
                        self.data@[xx * h + yy],
                    ),
            decreases w - x,
        {
            let mut y: usize = 0;
            while y < h
                invariant
                    self.wf(),
                    self.width == w,
                    self.height == h,
                    x < w,
                    y <= h,
                    forall|xx: usize, yy: usize|
                        xx < w && yy < h ==> #[trigger] call_requires(f, (xx, yy)),
                    forall|xx: usize, yy: usize|
                        xx < x && yy < h ==> #[trigger] call_ensures(
                            f,
                            (xx, yy),
                            self.data@[xx * h + yy],
                        ),
                    forall|yy: usize|
                        yy < y ==> #[trigger] call_ensures(f, (x, yy), self.data@[x * h + yy]),
                decreases h - y,
            {
                let i = self.index(x, y);
                let value = f(x, y);
                self.data.set(i, value);
                proof {
                    assert forall|xx: usize, yy: usize|
                        xx < x && yy < h implies #[trigger] call_ensures(
                            f,
                            (xx, yy),
                            self.data@[xx * h + yy],
                        ) by {
                        lemma_flat_order(w as int, h as int, xx as int, yy as int, x as int, y as int);
                    }
                }
                y = y + 1;
            }
            x = x + 1;
        }
    }

    /// Fills the grid using a closure without arguments.
    pub fn fill<F: Fn() -> T>(&mut self, f: F)
        requires
            old(self).wf(),
            call_requires(f, ()),
        ensures
            final(self).wf(),
            final(self).width == old(self).width,
            final(self).height == old(self).height,
            forall|i: int|
                0 <= i < final(self).data@.len() ==> call_ensures(
                    f,
                    (),
                    #[trigger] final(self).data@[i],
                ),
    {
        let w = self.width;
        let h = self.height;
        let mut x: usize = 0;
        while x < w
            invariant
                self.wf(),
                self.width == w,
                self.height == h,
                x <= w,
                call_requires(f, ()),
                forall|xx: usize, yy: usize|
                    xx < x && yy < h ==> call_ensures(f, (), #[trigger] self.data@[xx * h + yy]),
            decreases w - x,
        {
            let mut y: usize = 0;
            while y < h
                invariant
                    self.wf(),
                    self.width == w,
                    self.height == h,
                    x < w,
                    y <= h,
                    call_requires(f, ()),
                    forall|xx: usize, yy: usize|
                        xx < x && yy < h ==> call_ensures(f, (), #[trigger] self.data@[xx * h + yy]),
                    forall|yy: usize|
                        yy < y ==> call_ensures(f, (), #[trigger] self.data@[x * h + yy]),
                decreases h - y,
            {
                let i = self.index(x, y);
                let value = f();
                self.data.set(i, value);
                proof {
                    assert forall|xx: usize, yy: usize|
                        xx < x && yy < h implies call_ensures(
                            f,
                            (),
                            #[trigger] self.data@[xx * h + yy],
                        ) by {
                        lemma_flat_order(w as int, h as int, xx as int, yy as int, x as int, y as int);
                    }
                }
                y = y + 1;
            }
            x = x + 1;
        }
        proof {
            assert forall|i: int| 0 <= i < self.data@.len() implies call_ensures(
                f,
                (),
                #[trigger] self.data@[i],
            ) by {
                let h_i = h as int;
                let xx = i / h_i;
                let yy = i % h_i;
                lemma_fundamental_div_mod(i, h_i);
                lemma_mod_division_less_than_divisor(i, h_i);
                assert(xx < w) by (nonlinear_arith)
                    requires i == h_i * xx + yy, 0 <= yy < h_i, i < w * h_i, h_i > 0, 0 <= xx;
                assert(i == xx * h_i + yy) by (nonlinear_arith)
                    requires i == h_i * xx + yy;
                assert(call_ensures(f, (), self.data@[xx * h_i + yy]));
            }
        }
    }

    /// Returns an Iterator over all grid cells in memory order.
    pub fn iter(&self) -> (it: Iter<'_, T>)
        ensures
            it.remaining() == self.data@.as_ref(),
    {
        self.data.as_slice().iter()
    }

    /// Mutable access to all grid cells, in memory order. A caller that
    /// changes the number of cells leaves the grid without its
    /// well-formedness, which the positional accessors ask for.
    pub fn iter_mut(&mut self) -> (cells: &mut Vec<T>)
        ensures
            *cells == old(self).data,
            final(self).data == *final(cells),
            final(self).width == old(self).width,
            final(self).height == old(self).height,
    {
        &mut self.data
    }
}

} // verus!
