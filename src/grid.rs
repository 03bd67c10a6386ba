use vstd::prelude::*;
use vstd::arithmetic::div_mod::lemma_multiply_divide_lt;

verus! {

/// How many instances stand in each row, and how many rows there are.
pub const NUM_INSTANCES_PER_ROW: u32 = 10;

/// The place of one instance on the floor grid, centred on the origin, in
/// half grid spacings: the instance stands at
/// `(spacing * x2 / 2, 0, spacing * z2 / 2)`.
#[derive(Clone, Copy, Debug, PartialEq, Eq, Structural)]
pub struct GridCell {
    pub x2: i64,
    pub z2: i64,
}

/// The cell of the `i`-th instance of a square grid with `per_row`
/// instances a row: rows run along z, and within a row x grows.
pub open spec fn cell_at(i: int, per_row: int) -> GridCell {
    GridCell { x2: (2 * (i % per_row) - per_row) as i64, z2: (2 * (i / per_row) - per_row) as i64 }
}

/// The cells of a square grid of `per_row * per_row` instances, row by row.
pub fn instance_grid(per_row: u32) -> (cells: Vec<GridCell>)
    requires
        per_row as int * per_row as int <= usize::MAX,
    ensures
        cells@.len() == per_row as int * per_row as int,
        forall|i: int| 0 <= i < cells@.len() ==> cells@[i] == cell_at(i, per_row as int),
{
    let mut cells: Vec<GridCell> = Vec::new();
    let n: usize = per_row as usize;
    let total: usize = n * n;
    let mut i: usize = 0;
    while i < total
        invariant
            n == per_row,
            total == n * n,
            i <= total,
            cells@.len() == i,
            forall|k: int| 0 <= k < i ==> cells@[k] == cell_at(k, per_row as int),
        decreases total - i,
    {
        assert(n > 0) by (nonlinear_arith)
            requires
                i < total,
                total == n * n,
        ;
        let x: usize = i % n;
        let z: usize = i / n;
        proof {
            lemma_multiply_divide_lt(i as int, n as int, n as int);
        }
        let cell = GridCell { x2: 2 * (x as i64) - (n as i64), z2: 2 * (z as i64) - (n as i64) };
        cells.push(cell);
        i = i + 1;
    }
    cells
}

} // verus!
