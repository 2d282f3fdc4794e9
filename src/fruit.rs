//! Where a new fruit may be placed, and how one is drawn at random.
use rand::Rng;
use vstd::prelude::*;
use crate::grid::{cell_at, in_grid, Position, GRID_CELLS, GRID_WIDTH};

verus! {

/// The free cells among the first `n` cells in row-major order, in that order.
pub open spec fn free_prefix(occupied: Seq<Position>, n: nat) -> Seq<Position>
    decreases n,
{
    if n == 0 {
        Seq::empty()
    } else {
        let before = free_prefix(occupied, (n - 1) as nat);
        let c = cell_at(n - 1);
        if occupied.contains(c) {
            before
        } else {
            before.push(c)
        }
    }
}

/// Every cell of the playing field that `occupied` does not hold, in row-major order.
pub open spec fn free_cells_of(occupied: Seq<Position>) -> Seq<Position> {
    free_prefix(occupied, GRID_CELLS as nat)
}

/// A cell lies on the playing field exactly when it has a row-major index.
pub proof fn lemma_cell_index(p: Position)
    ensures
        in_grid(p) <==> (exists|i: int| 0 <= i < GRID_CELLS && #[trigger] cell_at(i) == p),
{
    if in_grid(p) {
        let i = p.y * GRID_WIDTH + p.x;
        assert(i % 20 == p.x && i / 20 == p.y) by (nonlinear_arith)
            requires
                i == p.y * 20 + p.x,
                0 <= p.x < 20,
                0 <= p.y < 20,
        ;
        assert(i < 400) by (nonlinear_arith)
            requires
                i == p.y * 20 + p.x,
                0 <= p.x < 20,
                0 <= p.y < 20,
        ;
        assert(cell_at(i) == p);
    }
    if exists|i: int| 0 <= i < GRID_CELLS && #[trigger] cell_at(i) == p {
        let i = choose|i: int| 0 <= i < GRID_CELLS && #[trigger] cell_at(i) == p;
        assert(0 <= i % 20 < 20 && 0 <= i / 20 < 20) by (nonlinear_arith)
            requires
                0 <= i < 400,
        ;
    }
}

/// The free cells of a prefix are exactly the unoccupied cells with a smaller index.
pub proof fn lemma_free_prefix(occupied: Seq<Position>, n: nat, p: Position)
    ensures
        free_prefix(occupied, n).contains(p) <==> (!occupied.contains(p) && exists|i: int|
            0 <= i < n && #[trigger] cell_at(i) == p),
    decreases n,
{
    if n > 0 {
        lemma_free_prefix(occupied, (n - 1) as nat, p);
        let before = free_prefix(occupied, (n - 1) as nat);
        let c = cell_at(n - 1);
        if !occupied.contains(c) {
            assert(before.push(c).contains(p) <==> (before.contains(p) || p == c)) by {
                if p == c {
                    assert(before.push(c)[before.len() as int] == c);
                }
                if before.push(c).contains(p) {
                    let k = choose|k: int| 0 <= k < before.len() + 1 && before.push(c)[k] == p;
                    if k < before.len() {
                        assert(before[k] == p);
                    }
                }
                if before.contains(p) {
                    let k = choose|k: int| 0 <= k < before.len() && before[k] == p;
                    assert(before.push(c)[k] == p);
                }
            }
        }
        if exists|i: int| 0 <= i < n && #[trigger] cell_at(i) == p {
            let i = choose|i: int| 0 <= i < n && #[trigger] cell_at(i) == p;
            if i < n - 1 {
                assert(exists|j: int| 0 <= j < n - 1 && #[trigger] cell_at(j) == p);
            }
        }
    }
}

/// A cell is free exactly when it lies on the playing field and is not occupied.
pub proof fn lemma_free_cells(occupied: Seq<Position>, p: Position)
    ensures
        free_cells_of(occupied).contains(p) <==> (in_grid(p) && !occupied.contains(p)),
{
    lemma_free_prefix(occupied, GRID_CELLS as nat, p);
    lemma_cell_index(p);
}

/// Whether `cells` holds `p`.
pub fn holds_cell(cells: &Vec<Position>, p: Position) -> (r: bool)
    ensures
        r == cells@.contains(p),
{
    let mut i: usize = 0;
    while i < cells.len()
        invariant
            i <= cells.len(),
            forall|k: int| 0 <= k < i ==> cells@[k] != p,
        decreases cells.len() - i,
    {
        if cells[i] == p {
            return true;
        }
        i = i + 1;
    }
    false
}

/// The cells of the playing field that `occupied` does not hold, in row-major order.
pub fn free_cells(occupied: &Vec<Position>) -> (r: Vec<Position>)
    ensures
        r@ == free_cells_of(occupied@),
{
    let mut r: Vec<Position> = Vec::new();
    let mut i: usize = 0;
    while i < GRID_CELLS
        invariant
            i <= GRID_CELLS,
            r@ == free_prefix(occupied@, i as nat),
        decreases GRID_CELLS - i,
    {
        let c = Position { x: (i % 20) as i32, y: (i / 20) as i32 };
        assert(c == cell_at(i as int));
        if !holds_cell(occupied, c) {
            r.push(c);
        }
        i = i + 1;
    }
    r
}

/// The `pick`-th free cell, in row-major order, if there is one.
pub fn free_cell_at(occupied: &Vec<Position>, pick: usize) -> (r: Option<Position>)
    ensures
        pick < free_cells_of(occupied@).len() ==> r == Some(free_cells_of(occupied@)[pick as int]),
        pick >= free_cells_of(occupied@).len() ==> r is None,
{
    let free = free_cells(occupied);
    if pick < free.len() {
        Some(free[pick])
    } else {
        None
    }
}

/// Relies on `rand::thread_rng` and `Rng::gen_range`: a value drawn from
/// `0..n`, which the latter panics on when empty.
#[verifier::external_body]
fn random_below(n: usize) -> (r: usize)
    requires
        n > 0,
    ensures
        r < n,
{
    rand::thread_rng().gen_range(0..n)
}

/// A cell drawn uniformly at random among the free cells, or `None` when
/// `occupied` covers the whole playing field.
pub fn random_free_cell(occupied: &Vec<Position>) -> (r: Option<Position>)
    ensures
        (r is None) <==> free_cells_of(occupied@).len() == 0,
        r matches Some(p) ==> free_cells_of(occupied@).contains(p) && in_grid(p)
            && !occupied@.contains(p),
{
    let free = free_cells(occupied);
    if free.len() == 0 {
        None
    } else {
        let pick = random_below(free.len());
        let r = free_cell_at(occupied, pick);
        proof {
            let p = free@[pick as int];
            assert(free_cells_of(occupied@).contains(p));
            lemma_free_cells(occupied@, p);
        }
        r
    }
}

} // verus!
