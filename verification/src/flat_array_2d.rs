//! Two-dimensional flat array: coordinate/offset mapping and the dense
//! container built on it.
//!
//! The 2D offset formula is `width * x + y`, so the second coordinate is the
//! one that varies fastest along the buffer. This differs from the 3D mapper
//! on purpose: both formulas are part of the containers' contracts.

use vstd::arithmetic::div_mod::{
    lemma_fundamental_div_mod, lemma_fundamental_div_mod_converse, lemma_mod_pos_bound,
    lemma_multiply_divide_lt,
};
use vstd::arithmetic::mul::lemma_mul_is_commutative;
use vstd::prelude::*;

verus! {

/// The linear offset of the cell `(x, y)` in a buffer of the given width.
pub open spec fn index_of_2d(width: int, x: int, y: int) -> int {
    width * x + y
}

/// The coordinate pair stored at a linear offset, for the given width:
/// `x` is the quotient and `y` the remainder of the offset by the width.
pub open spec fn coords_of_2d(width: int, i: int) -> (int, int) {
    (i / width, i % width)
}

/// Law: mapping a coordinate pair to its offset and back returns the same
/// pair, for every positive width, every `x >= 0`, and every `y` below the
/// width. The bound on `y` is essential: `y` is the remainder axis.
pub proof fn lemma_round_trip_2d(width: int, x: int, y: int)
    requires
        width > 0,
        x >= 0,
        0 <= y < width,
    ensures
        coords_of_2d(width, index_of_2d(width, x, y)) == (x, y),
{
    lemma_mul_is_commutative(width, x);
    lemma_fundamental_div_mod_converse(width * x + y, width, x, y);
}

/// Law: mapping an offset to its coordinate pair and back returns the same
/// offset, for every positive width and every offset `i >= 0`.
pub proof fn lemma_offset_round_trip_2d(width: int, i: int)
    requires
        width > 0,
        i >= 0,
    ensures
        index_of_2d(width, i / width, i % width) == i,
{
    lemma_fundamental_div_mod(i, width);
}

/// Get the array index for the given position. This is the inverse operation
/// to `get_2d_from_1d`.
pub fn get_1d_from_2d(width: usize, x: usize, y: usize) -> (i: usize)
    requires
        width > 0,
        width * x + y <= usize::MAX,
    ensures
        i == index_of_2d(width as int, x as int, y as int),
{
    width * x + y
}

/// Get the position from an index. This is the inverse operation to
/// `get_1d_from_2d`.
pub fn get_2d_from_1d(width: usize, i: usize) -> (r: (usize, usize))
    requires
        width > 0,
    ensures
        (r.0 as int, r.1 as int) == coords_of_2d(width as int, i as int),
{
    (i / width, i % width)
}

/// A two-dimensional integer coordinate. A cell of a grid is identified by a
/// pair of non-negative components; the type itself enforces no bound, and
/// validity is range-relative to a container's current extents.
#[derive(Clone, Copy, Debug, PartialEq, Eq, Structural)]
pub struct IVec2 {
    pub x: i32,
    pub y: i32,
}

/// Returns the array index for the given vector. This is a wrapper around
/// `get_1d_from_2d`.
pub fn get_1d_from_2d_ivec2(width: usize, v: IVec2) -> (i: usize)
    requires
        width > 0,
        v.x >= 0,
        v.y >= 0,
        width * v.x + v.y <= usize::MAX,
    ensures
        i == index_of_2d(width as int, v.x as int, v.y as int),
{
    get_1d_from_2d(width, v.x as usize, v.y as usize)
}

/// Return the position for an array index. This is a wrapper around
/// `get_2d_from_1d`.
pub fn get_2d_from_1d_ivec2(width: usize, i: usize) -> (v: IVec2)
    requires
        width > 0,
        i as int / width as int <= i32::MAX,
        i as int % width as int <= i32::MAX,
    ensures
        (v.x as int, v.y as int) == coords_of_2d(width as int, i as int),
{
    let (x, y) = get_2d_from_1d(width, i);
    IVec2 { x: x as i32, y: y as i32 }
}

/// A dense two-dimensional array that keeps its cells in one contiguous
/// buffer, addressed through `index_of_2d`. The buffer length always equals
/// `width * height`, and both extents stay positive; see [`Array2d::wf`].
pub struct Array2d<T: Default> {
    width: usize,
    height: usize,
    array: Vec<T>,
}

impl<T: Default> Array2d<T> {
    /// The current x-axis extent.
    pub closed spec fn width(&self) -> int {
        self.width as int
    }

    /// The current y-axis extent.
    pub closed spec fn height(&self) -> int {
        self.height as int
    }

    /// The cells of the grid, in raw-offset order.
    pub closed spec fn contents(&self) -> Seq<T> {
        self.array@
    }

    /// The number of cells: the product of the extents.
    pub open spec fn spec_len(&self) -> int {
        self.width() * self.height()
    }

    /// Well-formedness: both extents are positive and the buffer holds
    /// exactly one cell per coordinate. Every constructor establishes this
    /// and every method preserves it.
    pub open spec fn wf(&self) -> bool {
        &&& self.width() > 0
        &&& self.height() > 0
        &&& self.contents().len() == self.spec_len()
    }

    /// Whether the coordinate addresses a cell of this grid: both components
    /// are non-negative and the mapped offset lies inside the buffer.
    pub open spec fn in_bounds(&self, v: IVec2) -> bool {
        &&& v.x >= 0
        &&& v.y >= 0
        &&& index_of_2d(self.width(), v.x as int, v.y as int) < self.spec_len()
    }

    /// The cell stored at the coordinate's offset.
    pub open spec fn spec_get(&self, v: IVec2) -> T {
        self.contents()[index_of_2d(self.width(), v.x as int, v.y as int)]
    }

    /// Constructs a new array of the given positive extents, every cell
    /// filled with the element type's default value.
    pub fn new(width: usize, height: usize) -> (r: Self)
        requires
            width > 0,
            height > 0,
            width * height <= usize::MAX,
        ensures
            r.wf(),
            r.width() == width,
            r.height() == height,
            forall|k: int|
                0 <= k < r.contents().len() ==> call_ensures(
                    T::default,
                    (),
                    #[trigger] r.contents()[k],
                ),
    {
        let n: usize = width * height;
        let mut array: Vec<T> = Vec::new();
        while array.len() < n
            invariant
                array@.len() <= n,
                forall|k: int|
                    0 <= k < array@.len() ==> call_ensures(T::default, (), #[trigger] array@[k]),
            decreases n - array.len(),
        {
            array.push(T::default());
        }
        Array2d { width, height, array }
    }

    /// Returns the number of cells this array holds.
    pub fn len(&self) -> (n: usize)
        requires
            self.wf(),
        ensures
            n == self.spec_len(),
    {
        self.array.len()
    }

    /// Always returns false: the extents are positive from construction on,
    /// so the array is never empty. This is a deliberate fixed return, not a
    /// true emptiness check.
    pub fn is_empty(&self) -> (r: bool)
        ensures
            r == false,
    {
        false
    }

    /// Get the value for the given position.
    pub fn get(&self, v: IVec2) -> (r: &T)
        requires
            self.wf(),
            self.in_bounds(v),
        ensures
            *r == self.spec_get(v),
    {
        // Learning the buffer length shows that every in-bounds offset,
        // and so the mapped index below, fits in usize.
        let _n: usize = self.array.len();
        let i: usize = get_1d_from_2d_ivec2(self.width, v);
        &self.array[i]
    }

    /// Get a mutable reference for the given position.
    pub fn get_mut(&mut self, v: IVec2) -> (r: &mut T)
        requires
            old(self).wf(),
            old(self).in_bounds(v),
        ensures
            *r == old(self).spec_get(v),
            final(self).contents() == old(self).contents().update(
                index_of_2d(old(self).width(), v.x as int, v.y as int),
                *final(r),
            ),
            final(self).width() == old(self).width(),
            final(self).height() == old(self).height(),
            final(self).wf(),
    {
        // Learning the buffer length shows that every in-bounds offset,
        // and so the mapped index below, fits in usize.
        let _n: usize = self.array.len();
        let i: usize = get_1d_from_2d_ivec2(self.width, v);
        &mut self.array[i]
    }

    /// Update the value for the given position; the previous value of that
    /// cell is replaced and every other cell is untouched.
    pub fn set(&mut self, v: IVec2, value: T)
        requires
            old(self).wf(),
            old(self).in_bounds(v),
        ensures
            final(self).wf(),
            final(self).width() == old(self).width(),
            final(self).height() == old(self).height(),
            final(self).contents() == old(self).contents().update(
                index_of_2d(old(self).width(), v.x as int, v.y as int),
                value,
            ),
    {
        // Learning the buffer length shows that every in-bounds offset,
        // and so the mapped index below, fits in usize.
        let _n: usize = self.array.len();
        let i: usize = get_1d_from_2d_ivec2(self.width, v);
        self.array[i] = value;
    }

    /// Resize this array to the given positive extents. Cells keep their
    /// values at unchanged raw offsets — no coordinate-preserving remap is
    /// performed — and, when the array grows, the newly added offsets are
    /// filled with the element type's default value.
    pub fn resize(&mut self, width: usize, height: usize)
        requires
            width > 0,
            height > 0,
            width * height <= usize::MAX,
        ensures
            final(self).wf(),
            final(self).width() == width,
            final(self).height() == height,
            forall|k: int|
                0 <= k < old(self).contents().len() && k < final(self).contents().len()
                    ==> final(self).contents()[k] == old(self).contents()[k],
            forall|k: int|
                old(self).contents().len() <= k < final(self).contents().len()
                    ==> call_ensures(T::default, (), #[trigger] final(self).contents()[k]),
    {
        self.height = height;
        self.width = width;
        let n: usize = width * height;
        if self.array.len() > n {
            self.array.truncate(n);
        }
        while self.array.len() < n
            invariant
                self.array@.len() <= n,
                self.array@.len() >= old(self).contents().len() || self.array@.len() >= n,
                self.width == width,
                self.height == height,
                forall|k: int|
                    0 <= k < old(self).contents().len() && k < self.array@.len()
                        ==> self.array@[k] == old(self).contents()[k],
                forall|k: int|
                    old(self).contents().len() <= k < self.array@.len()
                        ==> call_ensures(T::default, (), #[trigger] self.array@[k]),
            decreases n - self.array.len(),
        {
            self.array.push(T::default());
        }
    }

    /// Get the value at a raw linear offset: the zero-overhead access path,
    /// with no coordinate computation.
    pub fn index(&self, index: usize) -> (r: &T)
        requires
            self.wf(),
            index < self.spec_len(),
        ensures
            *r == self.contents()[index as int],
    {
        &self.array[index]
    }

    /// Get a mutable reference to the value at a raw linear offset.
    pub fn index_mut(&mut self, index: usize) -> (r: &mut T)
        requires
            old(self).wf(),
            index < old(self).spec_len(),
        ensures
            *r == old(self).contents()[index as int],
            final(self).contents() == old(self).contents().update(index as int, *final(r)),
            final(self).width() == old(self).width(),
            final(self).height() == old(self).height(),
            final(self).wf(),
    {
        &mut self.array[index]
    }

    /// Creates a new immutable iterator over the cells, in increasing
    /// raw-offset order. The i32 bounds on the extents make every visited
    /// coordinate representable.
    pub fn iter(&self) -> (it: Array2dIter<'_, T>)
        requires
            self.wf(),
            self.width() <= i32::MAX,
            self.height() <= i32::MAX,
        ensures
            it.wf(),
            it.items() == self.contents(),
            it.width() == self.width(),
            it.limit() == self.spec_len(),
            it.cursor() == 0,
    {
        proof {
            assert(self.width() * self.height() <= self.width() * (i32::MAX as int))
                by (nonlinear_arith)
                requires
                    self.width() >= 0,
                    self.height() <= i32::MAX,
            ;
        }
        Array2dIter { items: &self.array, cursor: 0, max: self.array.len(), width: self.width }
    }

    /// Creates a new mutable iterator. It carries no borrow of its own: each
    /// call of [`Array2dMutIter::next`] re-borrows the grid it is handed and
    /// yields exclusive access to one cell, so no two live references can
    /// alias.
    pub fn iter_mut(&self) -> (it: Array2dMutIter)
        requires
            self.wf(),
            self.width() <= i32::MAX,
            self.height() <= i32::MAX,
        ensures
            it.wf(),
            it.for_grid(self),
            it.cursor() == 0,
    {
        proof {
            assert(self.width() * self.height() <= self.width() * (i32::MAX as int))
                by (nonlinear_arith)
                requires
                    self.width() >= 0,
                    self.height() <= i32::MAX,
            ;
        }
        Array2dMutIter { cursor: 0, max: self.array.len(), width: self.width }
    }
}

/// An immutable iterator over a 2D grid: it walks the raw offsets `0..limit`
/// in increasing order and derives each coordinate from its offset by the
/// inverse mapping.
pub struct Array2dIter<'a, T: Default> {
    items: &'a Vec<T>,
    cursor: usize,
    max: usize,
    width: usize,
}

impl<'a, T: Default> Array2dIter<'a, T> {
    /// The cells being iterated, in raw-offset order.
    pub closed spec fn items(&self) -> Seq<T> {
        self.items@
    }

    /// The offset the next call will yield.
    pub closed spec fn cursor(&self) -> int {
        self.cursor as int
    }

    /// The offset at which iteration stops.
    pub closed spec fn limit(&self) -> int {
        self.max as int
    }

    /// The width used to derive coordinates from offsets.
    pub closed spec fn width(&self) -> int {
        self.width as int
    }

    /// Well-formedness: the limit covers exactly the cells, the cursor never
    /// passes it, and the width keeps every derived coordinate within i32.
    pub open spec fn wf(&self) -> bool {
        &&& self.width() > 0
        &&& self.width() <= i32::MAX
        &&& self.limit() == self.items().len()
        &&& self.cursor() <= self.limit()
        &&& self.limit() <= self.width() * (i32::MAX as int)
    }

    /// Yields the next (coordinate, value) pair, or `None` once every cell
    /// has been visited. The coordinate of each yielded pair is the inverse
    /// mapping of its raw offset, and offsets increase by one per call.
    pub fn next(&mut self) -> (r: Option<(IVec2, &'a T)>)
        requires
            old(self).wf(),
        ensures
            final(self).wf(),
            final(self).items() == old(self).items(),
            final(self).width() == old(self).width(),
            final(self).limit() == old(self).limit(),
            old(self).cursor() >= old(self).limit() ==> r is None && final(self).cursor()
                == old(self).cursor(),
            old(self).cursor() < old(self).limit() ==> final(self).cursor() == old(self).cursor()
                + 1 && (r matches Some(p) && (p.0.x as int, p.0.y as int) == coords_of_2d(
                old(self).width(),
                old(self).cursor(),
            ) && *p.1 == old(self).items()[old(self).cursor()]),
    {
        let tmp: usize = self.cursor;
        if tmp >= self.max {
            return None;
        }

        self.cursor = tmp + 1;
        proof {
            lemma_multiply_divide_lt(tmp as int, self.width as int, i32::MAX as int);
            lemma_mod_pos_bound(tmp as int, self.width as int);
        }
        let v = get_2d_from_1d_ivec2(self.width, tmp);

        Some((v, &self.items[tmp]))
    }
}

/// A mutable iterator over a 2D grid: a cursor over the raw offsets
/// `0..limit`, in increasing order, with coordinates derived by the inverse
/// mapping. It holds no reference itself; `next` re-borrows the grid for the
/// single cell it yields.
pub struct Array2dMutIter {
    cursor: usize,
    max: usize,
    width: usize,
}

impl Array2dMutIter {
    /// The offset the next call will yield.
    pub closed spec fn cursor(&self) -> int {
        self.cursor as int
    }

    /// The offset at which iteration stops.
    pub closed spec fn limit(&self) -> int {
        self.max as int
    }

    /// The width used to derive coordinates from offsets.
    pub closed spec fn width(&self) -> int {
        self.width as int
    }

    /// Well-formedness: the cursor never passes the limit, and the width
    /// keeps every derived coordinate within i32.
    pub open spec fn wf(&self) -> bool {
        &&& self.width() > 0
        &&& self.width() <= i32::MAX
        &&& self.cursor() <= self.limit()
        &&& self.limit() <= self.width() * (i32::MAX as int)
    }

    /// Whether this iterator walks exactly the cells of the given grid.
    pub open spec fn for_grid<T: Default>(&self, grid: &Array2d<T>) -> bool {
        &&& self.width() == grid.width()
        &&& self.limit() == grid.spec_len()
    }

    /// Yields the next (coordinate, cell) pair of the given grid, with
    /// exclusive access to that one cell, or `None` once every cell has been
    /// visited. Every cell is visited exactly once, in increasing raw-offset
    /// order, and each coordinate is computed from its offset alone.
    pub fn next<'a, T: Default>(&mut self, grid: &'a mut Array2d<T>) -> (r: Option<
        (IVec2, &'a mut T),
    >)
        requires
            old(self).wf(),
            old(grid).wf(),
            old(self).for_grid(old(grid)),
        ensures
            final(self).wf(),
            final(self).width() == old(self).width(),
            final(self).limit() == old(self).limit(),
            final(grid).wf(),
            final(grid).width() == old(grid).width(),
            final(grid).height() == old(grid).height(),
            old(self).cursor() >= old(self).limit() ==> r is None && final(self).cursor() == old(
                self,
            ).cursor() && final(grid).contents() == old(grid).contents(),
            old(self).cursor() < old(self).limit() ==> final(self).cursor() == old(self).cursor()
                + 1 && (r matches Some(p) && (p.0.x as int, p.0.y as int) == coords_of_2d(
                old(self).width(),
                old(self).cursor(),
            ) && *p.1 == old(grid).contents()[old(self).cursor()] && final(grid).contents() == old(
                grid,
            ).contents().update(old(self).cursor(), *final(p.1))),
    {
        let tmp: usize = self.cursor;
        if tmp >= self.max {
            return None;
        }

        self.cursor = tmp + 1;
        proof {
            lemma_multiply_divide_lt(tmp as int, self.width as int, i32::MAX as int);
            lemma_mod_pos_bound(tmp as int, self.width as int);
        }
        let v = get_2d_from_1d_ivec2(self.width, tmp);

        Some((v, grid.index_mut(tmp)))
    }
}

/// Law: writing a cell and reading the same coordinate back yields the
/// written value. The hypotheses are exactly what [`Array2d::set`] ensures
/// of the grid it leaves behind.
pub proof fn lemma_set_get_2d<T: Default>(before: Array2d<T>, after: Array2d<T>, v: IVec2, value: T)
    requires
        before.wf(),
        before.in_bounds(v),
        after.width() == before.width(),
        after.contents() == before.contents().update(
            index_of_2d(before.width(), v.x as int, v.y as int),
            value,
        ),
    ensures
        after.spec_get(v) == value,
{
}

} // verus!
