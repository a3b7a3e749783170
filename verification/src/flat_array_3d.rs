//! Three-dimensional flat array: coordinate/offset mapping and the dense
//! container built on it.
//!
//! The 3D offset formula is `z * max_x * max_y + y * max_x + x`, so the first
//! coordinate is the one that varies fastest along the buffer — the opposite
//! of the 2D mapper. Both formulas are kept exactly as stated.

use vstd::arithmetic::div_mod::{
    lemma_fundamental_div_mod, lemma_fundamental_div_mod_converse, lemma_mod_pos_bound,
    lemma_multiply_divide_lt,
};
use vstd::arithmetic::mul::lemma_mul_is_commutative;
use vstd::prelude::*;

verus! {

/// The linear offset of the cell `(x, y, z)` in a buffer whose x axis has
/// extent `max_x` and whose y axis has extent `max_y`.
pub open spec fn index_of_3d(max_x: int, max_y: int, x: int, y: int, z: int) -> int {
    z * max_x * max_y + y * max_x + x
}

/// The coordinate triple stored at a linear offset: `z` is the quotient by
/// one z-slab (`max_x * max_y`), and the remainder splits by `max_x` into
/// `y` (quotient) and `x` (remainder).
pub open spec fn coords_of_3d(max_x: int, max_y: int, i: int) -> (int, int, int) {
    let z = i / (max_x * max_y);
    let rest = i - z * (max_x * max_y);
    (rest % max_x, rest / max_x, z)
}

/// Law: mapping a coordinate triple to its offset and back returns the same
/// triple, for every positive pair of extents, every `x` below `max_x`,
/// every `y` below `max_y`, and every `z >= 0`. The bounds on `x` and `y`
/// are essential: both are recovered as remainders.
pub proof fn lemma_round_trip_3d(max_x: int, max_y: int, x: int, y: int, z: int)
    requires
        max_x > 0,
        max_y > 0,
        0 <= x < max_x,
        0 <= y < max_y,
        z >= 0,
    ensures
        coords_of_3d(max_x, max_y, index_of_3d(max_x, max_y, x, y, z)) == (x, y, z),
{
    let slab = max_x * max_y;
    let rest = y * max_x + x;
    let i = index_of_3d(max_x, max_y, x, y, z);
    assert(0 <= y * max_x + x < max_x * max_y) by (nonlinear_arith)
        requires
            0 <= x < max_x,
            0 <= y < max_y,
    ;
    assert(z * max_x * max_y == z * (max_x * max_y)) by (nonlinear_arith);
    lemma_fundamental_div_mod_converse(i, slab, z, rest);
    lemma_fundamental_div_mod_converse(rest, max_x, y, x);
}

/// Law: mapping an offset to its coordinate triple and back returns the
/// same offset, for every positive pair of extents and every offset
/// `i >= 0`.
pub proof fn lemma_offset_round_trip_3d(max_x: int, max_y: int, i: int)
    requires
        max_x > 0,
        max_y > 0,
        i >= 0,
    ensures
        ({
            let (x, y, z) = coords_of_3d(max_x, max_y, i);
            index_of_3d(max_x, max_y, x, y, z) == i
        }),
{
    let slab = max_x * max_y;
    assert(max_x * max_y > 0) by (nonlinear_arith)
        requires
            max_x > 0,
            max_y > 0,
    ;
    let z = i / slab;
    let rest = i - z * slab;
    lemma_fundamental_div_mod(i, slab);
    lemma_mul_is_commutative(slab, z);
    lemma_fundamental_div_mod(rest, max_x);
    lemma_mul_is_commutative(max_x, rest / max_x);
    assert(z * max_x * max_y == z * (max_x * max_y)) by (nonlinear_arith);
}

/// Get the array index from a 3D point. This is the inverse operation to
/// `get_3d_from_1d`.
pub fn get_1d_from_3d(max_x: usize, max_y: usize, x: usize, y: usize, z: usize) -> (i: usize)
    requires
        max_x > 0,
        max_y > 0,
        z * max_x * max_y + y * max_x + x <= usize::MAX,
    ensures
        i == index_of_3d(max_x as int, max_y as int, x as int, y as int, z as int),
{
    proof {
        assert(z * max_x <= z * max_x * max_y && 0 <= z * max_x * max_y && 0 <= y * max_x)
            by (nonlinear_arith)
            requires
                max_x >= 1,
                max_y >= 1,
                y >= 0,
                z >= 0,
        ;
    }
    (z * max_x * max_y) + (y * max_x) + x
}

/// Get the position from the array index. This is the inverse operation to
/// `get_1d_from_3d`.
pub fn get_3d_from_1d(max_x: usize, max_y: usize, idx: usize) -> (r: (usize, usize, usize))
    requires
        max_x > 0,
        max_y > 0,
        max_x * max_y <= usize::MAX,
    ensures
        (r.0 as int, r.1 as int, r.2 as int) == coords_of_3d(max_x as int, max_y as int, idx as int),
{
    proof {
        assert(max_x * max_y > 0) by (nonlinear_arith)
            requires
                max_x > 0,
                max_y > 0,
        ;
    }
    let slab: usize = max_x * max_y;
    let z: usize = idx / slab;
    proof {
        lemma_fundamental_div_mod(idx as int, slab as int);
        lemma_mod_pos_bound(idx as int, slab as int);
        lemma_mul_is_commutative(slab as int, z as int);
    }
    let idx2: usize = idx - z * slab;
    let y: usize = idx2 / max_x;
    let x: usize = idx2 % max_x;

    (x, y, z)
}

/// A three-dimensional integer coordinate. A cell of a grid is identified by
/// a triple of non-negative components; the type itself enforces no bound,
/// and validity is range-relative to a container's current extents.
#[derive(Clone, Copy, Debug, PartialEq, Eq, Structural)]
pub struct IVec3 {
    pub x: i32,
    pub y: i32,
    pub z: i32,
}

/// Get the array index from a vector. This is a wrapper around
/// `get_1d_from_3d`.
pub fn get_1d_from_3d_ivec3(max_x: usize, max_y: usize, v: IVec3) -> (i: usize)
    requires
        max_x > 0,
        max_y > 0,
        v.x >= 0,
        v.y >= 0,
        v.z >= 0,
        index_of_3d(max_x as int, max_y as int, v.x as int, v.y as int, v.z as int) <= usize::MAX,
    ensures
        i == index_of_3d(max_x as int, max_y as int, v.x as int, v.y as int, v.z as int),
{
    let x = v.x as usize;
    let y = v.y as usize;
    let z = v.z as usize;

    get_1d_from_3d(max_x, max_y, x, y, z)
}

/// Get the position for an array index. This is a wrapper around
/// `get_3d_from_1d`.
pub fn get_3d_from_1d_ivec3(max_x: usize, max_y: usize, idx: usize) -> (v: IVec3)
    requires
        max_x > 0,
        max_y > 0,
        max_x * max_y <= usize::MAX,
        ({
            let (x, y, z) = coords_of_3d(max_x as int, max_y as int, idx as int);
            x <= i32::MAX && y <= i32::MAX && z <= i32::MAX
        }),
    ensures
        (v.x as int, v.y as int, v.z as int) == coords_of_3d(
            max_x as int,
            max_y as int,
            idx as int,
        ),
{
    let (x, y, z) = get_3d_from_1d(max_x, max_y, idx);
    IVec3 { x: x as i32, y: y as i32, z: z as i32 }
}

/// A dense three-dimensional array that keeps its cells in one contiguous
/// buffer, addressed through `index_of_3d` with `max_x = width` and
/// `max_y = height`. The buffer length always equals
/// `width * height * depth`, and all three extents stay positive; see
/// [`Array3d::wf`].
pub struct Array3d<T: Default> {
    width: usize,
    height: usize,
    depth: usize,
    array: Vec<T>,
}

impl<T: Default> Array3d<T> {
    /// The current x-axis extent.
    pub closed spec fn width(&self) -> int {
        self.width as int
    }

    /// The current y-axis extent.
    pub closed spec fn height(&self) -> int {
        self.height as int
    }

    /// The current z-axis extent.
    pub closed spec fn depth(&self) -> int {
        self.depth as int
    }

    /// The cells of the grid, in raw-offset order.
    pub closed spec fn contents(&self) -> Seq<T> {
        self.array@
    }

    /// The number of cells: the product of the extents.
    pub open spec fn spec_len(&self) -> int {
        self.width() * self.height() * self.depth()
    }

    /// Well-formedness: all three extents are positive and the buffer holds
    /// exactly one cell per coordinate. Every constructor establishes this
    /// and every method preserves it.
    pub open spec fn wf(&self) -> bool {
        &&& self.width() > 0
        &&& self.height() > 0
        &&& self.depth() > 0
        &&& self.contents().len() == self.spec_len()
    }

    /// Whether the coordinate addresses a cell of this grid: all components
    /// are non-negative and the mapped offset lies inside the buffer.
    pub open spec fn in_bounds(&self, v: IVec3) -> bool {
        &&& v.x >= 0
        &&& v.y >= 0
        &&& v.z >= 0
        &&& index_of_3d(self.width(), self.height(), v.x as int, v.y as int, v.z as int)
            < self.spec_len()
    }

    /// The cell stored at the coordinate's offset.
    pub open spec fn spec_get(&self, v: IVec3) -> T {
        self.contents()[index_of_3d(self.width(), self.height(), v.x as int, v.y as int, v.z as int)]
    }

    /// Constructs a new array of the given positive extents, every cell
    /// filled with the element type's default value.
    pub fn new(width: usize, height: usize, depth: usize) -> (r: Self)
        requires
            width > 0,
            height > 0,
            depth > 0,
            width * height * depth <= usize::MAX,
        ensures
            r.wf(),
            r.width() == width,
            r.height() == height,
            r.depth() == depth,
            forall|k: int|
                0 <= k < r.contents().len() ==> call_ensures(
                    T::default,
                    (),
                    #[trigger] r.contents()[k],
                ),
    {
        proof {
            assert(width * height <= width * height * depth) by (nonlinear_arith)
                requires
                    width >= 0,
                    height >= 0,
                    depth >= 1,
            ;
        }
        let n: usize = width * height * depth;
        let mut array: Vec<T> = Vec::new();
        while array.len() < n
            invariant
                array@.len() <= n,
                forall|k: int|
                    0 <= k < array@.len() ==> call_ensures(T::default, (), #[trigger] array@[k]),
            decreases n - array.len(),
        {
            array.push(T::default());
        }
        Array3d { width, height, depth, array }
    }

    /// Resize this array to the given positive extents. Cells keep their
    /// values at unchanged raw offsets — no coordinate-preserving remap is
    /// performed — and, when the array grows, the newly added offsets are
    /// filled with the element type's default value.
    pub fn resize(&mut self, width: usize, height: usize, depth: usize)
        requires
            width > 0,
            height > 0,
            depth > 0,
            width * height * depth <= usize::MAX,
        ensures
            final(self).wf(),
            final(self).width() == width,
            final(self).height() == height,
            final(self).depth() == depth,
            forall|k: int|
                0 <= k < old(self).contents().len() && k < final(self).contents().len()
                    ==> final(self).contents()[k] == old(self).contents()[k],
            forall|k: int|
                old(self).contents().len() <= k < final(self).contents().len()
                    ==> call_ensures(T::default, (), #[trigger] final(self).contents()[k]),
    {
        proof {
            assert(width * height <= width * height * depth) by (nonlinear_arith)
                requires
                    width >= 0,
                    height >= 0,
                    depth >= 1,
            ;
        }
        self.height = height;
        self.width = width;
        self.depth = depth;
        let n: usize = width * height * depth;
        if self.array.len() > n {
            self.array.truncate(n);
        }
        while self.array.len() < n
            invariant
                self.array@.len() <= n,
                self.array@.len() >= old(self).contents().len() || self.array@.len() >= n,
                self.width == width,
                self.height == height,
                self.depth == depth,
                forall|k: int|
                    0 <= k < old(self).contents().len() && k < self.array@.len()
                        ==> self.array@[k] == old(self).contents()[k],
                forall|k: int|
                    old(self).contents().len() <= k < self.array@.len()
                        ==> call_ensures(T::default, (), #[trigger] self.array@[k]),
            decreases n - self.array.len(),
        {
            self.array.push(T::default());
        }
    }

    /// Returns the number of cells this array holds.
    pub fn len(&self) -> (n: usize)
        requires
            self.wf(),
        ensures
            n == self.spec_len(),
    {
        self.array.len()
    }

    /// Always returns false: the extents are positive from construction on,
    /// so the array is never empty. This is a deliberate fixed return, not a
    /// true emptiness check.
    pub fn is_empty(&self) -> (r: bool)
        ensures
            r == false,
    {
        false
    }

    /// Get the value for the given position.
    pub fn get(&self, v: IVec3) -> (r: &T)
        requires
            self.wf(),
            self.in_bounds(v),
        ensures
            *r == self.spec_get(v),
    {
        // Learning the buffer length shows that every in-bounds offset,
        // and so the mapped index below, fits in usize.
        let _n: usize = self.array.len();
        let i: usize = get_1d_from_3d_ivec3(self.width, self.height, v);
        &self.array[i]
    }

    /// Get a mutable reference for the given position.
    pub fn get_mut(&mut self, v: IVec3) -> (r: &mut T)
        requires
            old(self).wf(),
            old(self).in_bounds(v),
        ensures
            *r == old(self).spec_get(v),
            final(self).contents() == old(self).contents().update(
                index_of_3d(
                    old(self).width(),
                    old(self).height(),
                    v.x as int,
                    v.y as int,
                    v.z as int,
                ),
                *final(r),
            ),
            final(self).width() == old(self).width(),
            final(self).height() == old(self).height(),
            final(self).depth() == old(self).depth(),
            final(self).wf(),
    {
        // Learning the buffer length shows that every in-bounds offset,
        // and so the mapped index below, fits in usize.
        let _n: usize = self.array.len();
        let i: usize = get_1d_from_3d_ivec3(self.width, self.height, v);
        &mut self.array[i]
    }

    /// Update the value for the given position; the previous value of that
    /// cell is replaced and every other cell is untouched.
    pub fn set(&mut self, v: IVec3, value: T)
        requires
            old(self).wf(),
            old(self).in_bounds(v),
        ensures
            final(self).wf(),
            final(self).width() == old(self).width(),
            final(self).height() == old(self).height(),
            final(self).depth() == old(self).depth(),
            final(self).contents() == old(self).contents().update(
                index_of_3d(
                    old(self).width(),
                    old(self).height(),
                    v.x as int,
                    v.y as int,
                    v.z as int,
                ),
                value,
            ),
    {
        // Learning the buffer length shows that every in-bounds offset,
        // and so the mapped index below, fits in usize.
        let _n: usize = self.array.len();
        let i: usize = get_1d_from_3d_ivec3(self.width, self.height, v);
        self.array[i] = value;
    }

    /// Get the value at a raw linear offset: the zero-overhead access path,
    /// with no coordinate computation.
    pub fn index(&self, index: usize) -> (r: &T)
        requires
            self.wf(),
            index < self.spec_len(),
        ensures
            *r == self.contents()[index as int],
    {
        &self.array[index]
    }

    /// Get a mutable reference to the value at a raw linear offset.
    pub fn index_mut(&mut self, index: usize) -> (r: &mut T)
        requires
            old(self).wf(),
            index < old(self).spec_len(),
        ensures
            *r == old(self).contents()[index as int],
            final(self).contents() == old(self).contents().update(index as int, *final(r)),
            final(self).width() == old(self).width(),
            final(self).height() == old(self).height(),
            final(self).depth() == old(self).depth(),
            final(self).wf(),
    {
        &mut self.array[index]
    }

    /// Creates a new immutable iterator over the cells, in increasing
    /// raw-offset order. The i32 bounds on the extents make every visited
    /// coordinate representable.
    pub fn iter(&self) -> (it: Array3dIter<'_, T>)
        requires
            self.wf(),
            self.width() <= i32::MAX,
            self.height() <= i32::MAX,
            self.depth() <= i32::MAX,
        ensures
            it.wf(),
            it.items() == self.contents(),
            it.width() == self.width(),
            it.height() == self.height(),
            it.limit() == self.spec_len(),
            it.cursor() == 0,
    {
        proof {
            assert(self.width() * self.height() <= self.width() * self.height() * self.depth()
                && self.width() * self.height() * self.depth() <= self.width() * self.height() * (
            i32::MAX as int)) by (nonlinear_arith)
                requires
                    self.width() > 0,
                    self.height() > 0,
                    1 <= self.depth() <= i32::MAX,
            ;
        }
        Array3dIter {
            items: &self.array,
            cursor: 0,
            max: self.array.len(),
            width: self.width,
            height: self.height,
        }
    }

    /// Creates a new mutable iterator. It carries no borrow of its own: each
    /// call of [`Array3dMutIter::next`] re-borrows the grid it is handed and
    /// yields exclusive access to one cell, so no two live references can
    /// alias.
    pub fn iter_mut(&self) -> (it: Array3dMutIter)
        requires
            self.wf(),
            self.width() <= i32::MAX,
            self.height() <= i32::MAX,
            self.depth() <= i32::MAX,
        ensures
            it.wf(),
            it.for_grid(self),
            it.cursor() == 0,
    {
        proof {
            assert(self.width() * self.height() <= self.width() * self.height() * self.depth()
                && self.width() * self.height() * self.depth() <= self.width() * self.height() * (
            i32::MAX as int)) by (nonlinear_arith)
                requires
                    self.width() > 0,
                    self.height() > 0,
                    1 <= self.depth() <= i32::MAX,
            ;
        }
        Array3dMutIter {
            cursor: 0,
            max: self.array.len(),
            width: self.width,
            height: self.height,
        }
    }
}

/// An immutable iterator over a 3D grid: it walks the raw offsets `0..limit`
/// in increasing order and derives each coordinate from its offset by the
/// inverse mapping.
pub struct Array3dIter<'a, T: Default> {
    items: &'a Vec<T>,
    cursor: usize,
    max: usize,
    width: usize,
    height: usize,
}

impl<'a, T: Default> Array3dIter<'a, T> {
    /// The cells being iterated, in raw-offset order.
    pub closed spec fn items(&self) -> Seq<T> {
        self.items@
    }

    /// The offset the next call will yield.
    pub closed spec fn cursor(&self) -> int {
        self.cursor as int
    }

    /// The offset at which iteration stops.
    pub closed spec fn limit(&self) -> int {
        self.max as int
    }

    /// The x-axis extent used to derive coordinates from offsets.
    pub closed spec fn width(&self) -> int {
        self.width as int
    }

    /// The y-axis extent used to derive coordinates from offsets.
    pub closed spec fn height(&self) -> int {
        self.height as int
    }

    /// Well-formedness: the limit covers exactly the cells, the cursor never
    /// passes it, and the extents keep every derived coordinate within i32.
    pub open spec fn wf(&self) -> bool {
        &&& self.width() > 0
        &&& self.width() <= i32::MAX
        &&& self.height() > 0
        &&& self.height() <= i32::MAX
        &&& self.width() * self.height() <= usize::MAX
        &&& self.limit() == self.items().len()
        &&& self.cursor() <= self.limit()
        &&& self.limit() <= self.width() * self.height() * (i32::MAX as int)
    }

    /// Yields the next (coordinate, value) pair, or `None` once every cell
    /// has been visited. The coordinate of each yielded pair is the inverse
    /// mapping of its raw offset, and offsets increase by one per call.
    pub fn next(&mut self) -> (r: Option<(IVec3, &'a T)>)
        requires
            old(self).wf(),
        ensures
            final(self).wf(),
            final(self).items() == old(self).items(),
            final(self).width() == old(self).width(),
            final(self).height() == old(self).height(),
            final(self).limit() == old(self).limit(),
            old(self).cursor() >= old(self).limit() ==> r is None && final(self).cursor()
                == old(self).cursor(),
            old(self).cursor() < old(self).limit() ==> final(self).cursor() == old(self).cursor()
                + 1 && (r matches Some(p) && (p.0.x as int, p.0.y as int, p.0.z as int)
                == coords_of_3d(old(self).width(), old(self).height(), old(self).cursor()) && *p.1
                == old(self).items()[old(self).cursor()]),
    {
        let tmp: usize = self.cursor;
        if tmp >= self.max {
            return None;
        }

        self.cursor = tmp + 1;
        proof {
            lemma_coords_of_3d_bounds(
                self.width as int,
                self.height as int,
                i32::MAX as int,
                tmp as int,
            );
        }
        let v = get_3d_from_1d_ivec3(self.width, self.height, tmp);

        Some((v, &self.items[tmp]))
    }
}

/// A mutable iterator over a 3D grid: a cursor over the raw offsets
/// `0..limit`, in increasing order, with coordinates derived by the inverse
/// mapping. It holds no reference itself; `next` re-borrows the grid for the
/// single cell it yields.
pub struct Array3dMutIter {
    cursor: usize,
    max: usize,
    width: usize,
    height: usize,
}

impl Array3dMutIter {
    /// The offset the next call will yield.
    pub closed spec fn cursor(&self) -> int {
        self.cursor as int
    }

    /// The offset at which iteration stops.
    pub closed spec fn limit(&self) -> int {
        self.max as int
    }

    /// The x-axis extent used to derive coordinates from offsets.
    pub closed spec fn width(&self) -> int {
        self.width as int
    }

    /// The y-axis extent used to derive coordinates from offsets.
    pub closed spec fn height(&self) -> int {
        self.height as int
    }

    /// Well-formedness: the cursor never passes the limit, and the extents
    /// keep every derived coordinate within i32.
    pub open spec fn wf(&self) -> bool {
        &&& self.width() > 0
        &&& self.width() <= i32::MAX
        &&& self.height() > 0
        &&& self.height() <= i32::MAX
        &&& self.width() * self.height() <= usize::MAX
        &&& self.cursor() <= self.limit()
        &&& self.limit() <= self.width() * self.height() * (i32::MAX as int)
    }

    /// Whether this iterator walks exactly the cells of the given grid.
    pub open spec fn for_grid<T: Default>(&self, grid: &Array3d<T>) -> bool {
        &&& self.width() == grid.width()
        &&& self.height() == grid.height()
        &&& self.limit() == grid.spec_len()
    }

    /// Yields the next (coordinate, cell) pair of the given grid, with
    /// exclusive access to that one cell, or `None` once every cell has been
    /// visited. Every cell is visited exactly once, in increasing raw-offset
    /// order, and each coordinate is computed from its offset alone.
    pub fn next<'a, T: Default>(&mut self, grid: &'a mut Array3d<T>) -> (r: Option<
        (IVec3, &'a mut T),
    >)
        requires
            old(self).wf(),
            old(grid).wf(),
            old(self).for_grid(old(grid)),
        ensures
            final(self).wf(),
            final(self).width() == old(self).width(),
            final(self).height() == old(self).height(),
            final(self).limit() == old(self).limit(),
            final(grid).wf(),
            final(grid).width() == old(grid).width(),
            final(grid).height() == old(grid).height(),
            final(grid).depth() == old(grid).depth(),
            old(self).cursor() >= old(self).limit() ==> r is None && final(self).cursor() == old(
                self,
            ).cursor() && final(grid).contents() == old(grid).contents(),
            old(self).cursor() < old(self).limit() ==> final(self).cursor() == old(self).cursor()
                + 1 && (r matches Some(p) && (p.0.x as int, p.0.y as int, p.0.z as int)
                == coords_of_3d(old(self).width(), old(self).height(), old(self).cursor()) && *p.1
                == old(grid).contents()[old(self).cursor()] && final(grid).contents() == old(
                grid,
            ).contents().update(old(self).cursor(), *final(p.1))),
    {
        let tmp: usize = self.cursor;
        if tmp >= self.max {
            return None;
        }

        self.cursor = tmp + 1;
        proof {
            lemma_coords_of_3d_bounds(
                self.width as int,
                self.height as int,
                i32::MAX as int,
                tmp as int,
            );
        }
        let v = get_3d_from_1d_ivec3(self.width, self.height, tmp);

        Some((v, grid.index_mut(tmp)))
    }
}

/// Every coordinate derived from an offset below `max_x * max_y * bound`
/// stays below the extents on the x and y axes and below `bound` on the z
/// axis.
proof fn lemma_coords_of_3d_bounds(max_x: int, max_y: int, bound: int, i: int)
    requires
        max_x > 0,
        max_y > 0,
        bound > 0,
        0 <= i < max_x * max_y * bound,
    ensures
        ({
            let (x, y, z) = coords_of_3d(max_x, max_y, i);
            0 <= x < max_x && 0 <= y < max_y && 0 <= z < bound
        }),
{
    let slab = max_x * max_y;
    assert(max_x * max_y > 0) by (nonlinear_arith)
        requires
            max_x > 0,
            max_y > 0,
    ;
    let z = i / slab;
    lemma_fundamental_div_mod(i, slab);
    lemma_mul_is_commutative(slab, z);
    lemma_mod_pos_bound(i, slab);
    let rest = i - z * slab;
    assert(max_x * max_y * bound == (max_x * max_y) * bound) by (nonlinear_arith);
    lemma_multiply_divide_lt(i, slab, bound);
    lemma_mod_pos_bound(rest, max_x);
    lemma_multiply_divide_lt(rest, max_x, max_y);
}

/// Law: writing a cell and reading the same coordinate back yields the
/// written value. The hypotheses are exactly what [`Array3d::set`] ensures
/// of the grid it leaves behind.
pub proof fn lemma_set_get_3d<T: Default>(before: Array3d<T>, after: Array3d<T>, v: IVec3, value: T)
    requires
        before.wf(),
        before.in_bounds(v),
        after.width() == before.width(),
        after.height() == before.height(),
        after.contents() == before.contents().update(
            index_of_3d(before.width(), before.height(), v.x as int, v.y as int, v.z as int),
            value,
        ),
    ensures
        after.spec_get(v) == value,
{
}

} // verus!
