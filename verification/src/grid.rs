//! Grids of cells addressed as `[column][row]`, as maps and inventories use
//! them. A grid never changes its dimensions: a cell is replaced, never
//! added or removed, and every access is checked against the bounds.

use vstd::prelude::*;

verus! {

/// Whether `(c, r)` addresses a cell of the grid.
pub open spec fn slot_in_grid<T>(grid: Seq<Seq<T>>, c: int, r: int) -> bool {
    0 <= c < grid.len() && 0 <= r < grid[c].len()
}

/// What cell `(c, r)` holds; nothing where the grid has no such cell.
pub open spec fn slot_at<T>(grid: Seq<Seq<Option<T>>>, c: int, r: int) -> Option<T> {
    if slot_in_grid(grid, c, r) {
        grid[c][r]
    } else {
        None
    }
}

/// The grid with cell `(c, r)` replaced; unchanged where it has no such
/// cell.
pub open spec fn with_slot<T>(grid: Seq<Seq<T>>, c: int, r: int, value: T) -> Seq<Seq<T>> {
    if slot_in_grid(grid, c, r) {
        grid.update(c, grid[c].update(r, value))
    } else {
        grid
    }
}

/// Two grids have the same number of columns, and column by column the same
/// number of rows.
pub open spec fn same_shape<T, U>(a: Seq<Seq<T>>, b: Seq<Seq<U>>) -> bool {
    &&& a.len() == b.len()
    &&& forall|c: int| 0 <= c < a.len() ==> (#[trigger] a[c]).len() == b[c].len()
}

/// Replacing a cell keeps the shape of the grid, and changes no other cell.
pub proof fn lemma_with_slot<T>(grid: Seq<Seq<T>>, c: int, r: int, value: T)
    ensures
        same_shape(with_slot(grid, c, r, value), grid),
        slot_in_grid(grid, c, r) ==> with_slot(grid, c, r, value)[c][r] == value,
        forall|c2: int, r2: int|
            slot_in_grid(grid, c2, r2) && (c2 != c || r2 != r) ==> (#[trigger] with_slot(
                grid,
                c,
                r,
                value,
            )[c2][r2]) == grid[c2][r2],
{
}

/// `(c, r)` is the cell satisfying `wanted` that is found first when the
/// grid is scanned column by column, and each column from its first row on.
pub open spec fn is_first_slot<T>(
    grid: Seq<Seq<T>>,
    wanted: spec_fn(T) -> bool,
    c: int,
    r: int,
) -> bool {
    &&& slot_in_grid(grid, c, r)
    &&& wanted(grid[c][r])
    &&& forall|c2: int, r2: int|
        0 <= c2 < c && 0 <= r2 < grid[c2].len() ==> !wanted(#[trigger] grid[c2][r2])
    &&& forall|r2: int| 0 <= r2 < r ==> !wanted(#[trigger] grid[c][r2])
}

/// No cell of the grid satisfies `wanted`.
pub open spec fn no_slot<T>(grid: Seq<Seq<T>>, wanted: spec_fn(T) -> bool) -> bool {
    forall|c: int, r: int| slot_in_grid(grid, c, r) ==> !wanted(#[trigger] grid[c][r])
}

/// The first cell in scan order that satisfies `wanted`, if any cell does.
pub open spec fn first_slot<T>(grid: Seq<Seq<T>>, wanted: spec_fn(T) -> bool) -> Option<
    (int, int),
> {
    if exists|c: int, r: int| is_first_slot(grid, wanted, c, r) {
        Some(choose|p: (int, int)| is_first_slot(grid, wanted, p.0, p.1))
    } else {
        None
    }
}

/// At most one cell is the first to satisfy `wanted`.
pub proof fn lemma_first_slot_unique<T>(
    grid: Seq<Seq<T>>,
    wanted: spec_fn(T) -> bool,
    c1: int,
    r1: int,
    c2: int,
    r2: int,
)
    requires
        is_first_slot(grid, wanted, c1, r1),
        is_first_slot(grid, wanted, c2, r2),
    ensures
        c1 == c2,
        r1 == r2,
{
    if c1 < c2 {
        assert(!wanted(grid[c1][r1]));
    } else if c2 < c1 {
        assert(!wanted(grid[c2][r2]));
    } else if r1 < r2 {
        assert(!wanted(grid[c2][r1]));
    } else if r2 < r1 {
        assert(!wanted(grid[c1][r2]));
    }
}

/// Once a cell is known to be the first to satisfy `wanted`, `first_slot`
/// names it.
pub proof fn lemma_first_slot_is<T>(grid: Seq<Seq<T>>, wanted: spec_fn(T) -> bool, c: int, r: int)
    requires
        is_first_slot(grid, wanted, c, r),
    ensures
        first_slot(grid, wanted) == Some((c, r)),
{
    let p = choose|p: (int, int)| is_first_slot(grid, wanted, p.0, p.1);
    assert(is_first_slot(grid, wanted, (c, r).0, (c, r).1));
    lemma_first_slot_unique(grid, wanted, c, r, p.0, p.1);
}

/// What `first_slot` names is the first cell to satisfy `wanted`.
pub proof fn lemma_first_slot_some<T>(
    grid: Seq<Seq<T>>,
    wanted: spec_fn(T) -> bool,
    c: int,
    r: int,
)
    requires
        first_slot(grid, wanted) == Some((c, r)),
    ensures
        is_first_slot(grid, wanted, c, r),
{
    let p = choose|p: (int, int)| is_first_slot(grid, wanted, p.0, p.1);
    let (c0, r0) = choose|c0: int, r0: int| is_first_slot(grid, wanted, c0, r0);
    assert(is_first_slot(grid, wanted, (c0, r0).0, (c0, r0).1));
}

/// `first_slot` finds nothing exactly when no cell satisfies `wanted`.
pub proof fn lemma_first_slot_none<T>(grid: Seq<Seq<T>>, wanted: spec_fn(T) -> bool)
    ensures
        no_slot(grid, wanted) <==> first_slot(grid, wanted) is None,
{
    if no_slot(grid, wanted) {
        if exists|c: int, r: int| is_first_slot(grid, wanted, c, r) {
            let (c, r) = choose|c: int, r: int| is_first_slot(grid, wanted, c, r);
            assert(!wanted(grid[c][r]));
        }
    } else {
        let (c, r) = choose|c: int, r: int|
            slot_in_grid(grid, c, r) && wanted(#[trigger] grid[c][r]);
        lemma_some_slot_has_first(grid, wanted, c, r);
    }
}

/// Where some cell satisfies `wanted`, some cell is the first to do so.
proof fn lemma_some_slot_has_first<T>(
    grid: Seq<Seq<T>>,
    wanted: spec_fn(T) -> bool,
    c: int,
    r: int,
)
    requires
        slot_in_grid(grid, c, r),
        wanted(grid[c][r]),
    ensures
        exists|c0: int, r0: int| is_first_slot(grid, wanted, c0, r0),
    decreases c, r,
{
    if exists|r2: int| 0 <= r2 < r && wanted(grid[c][r2]) {
        let r2 = choose|r2: int| 0 <= r2 < r && wanted(grid[c][r2]);
        lemma_some_slot_has_first(grid, wanted, c, r2);
    } else if exists|c2: int, r2: int|
        0 <= c2 < c && 0 <= r2 < grid[c2].len() && wanted(grid[c2][r2]) {
        let (c2, r2) = choose|c2: int, r2: int|
            0 <= c2 < c && 0 <= r2 < grid[c2].len() && wanted(grid[c2][r2]);
        lemma_some_slot_has_first(grid, wanted, c2, r2);
    } else {
        assert(is_first_slot(grid, wanted, c, r));
    }
}

/// A grid of `width` columns and `height` rows in which every cell is
/// empty.
pub open spec fn empty_grid<T>(width: int, height: int) -> Seq<Seq<Option<T>>> {
    Seq::new(width as nat, |c: int| Seq::new(height as nat, |r: int| None))
}

/// Whether a grid of that width and height can be built and addressed.
pub open spec fn grid_size_ok(width: int, height: int) -> bool {
    0 <= width <= usize::MAX && 0 <= height <= usize::MAX
}

/// Whether `size` fits the index type of the machine.
pub fn fits_index(size: i64) -> (fits: bool)
    ensures
        fits == (0 <= size <= usize::MAX),
{
    size >= 0 && size as u64 <= usize::MAX as u64
}

/// A column of `height` empty cells.
pub fn empty_column<T>(height: usize) -> (column: Vec<Option<T>>)
    ensures
        column@.len() == height,
        forall|r: int| 0 <= r < height ==> (#[trigger] column@[r]) is None,
{
    let mut column: Vec<Option<T>> = Vec::new();
    let mut r: usize = 0;
    while r < height
        invariant
            r <= height,
            column@.len() == r,
            forall|j: int| 0 <= j < r ==> (#[trigger] column@[j]) is None,
        decreases height - r,
    {
        column.push(None);
        r += 1;
    }
    column
}

} // verus!
