//! The confusion matrix of the CIFAR-10 evaluation: row = true class,
//! column = predicted class, stored row after row.

use vstd::prelude::*;
use crate::cifar_data::NUM_CLASSES;

verus! {

/// Cells of the matrix: `NUM_CLASSES` rows of `NUM_CLASSES` columns.
pub const MATRIX_CELLS: usize = 100;

/// The cell that the pair (true class `t`, prediction `p`) falls in.
pub open spec fn cell_of(t: i32, p: i32) -> int {
    t * NUM_CLASSES + p
}

/// The pair at position `i` falls inside the matrix.
pub open spec fn pair_in_range(predictions: Seq<i32>, targets: Seq<i32>, i: int) -> bool {
    0 <= targets[i] && 0 <= predictions[i] && cell_of(targets[i], predictions[i]) < MATRIX_CELLS
}

/// How many of the first `m` pairs fall in `cell`.
pub open spec fn pair_count(predictions: Seq<i32>, targets: Seq<i32>, m: int, cell: int) -> nat
    decreases m,
{
    if m <= 0 {
        0
    } else {
        pair_count(predictions, targets, m - 1, cell) + if cell_of(targets[m - 1], predictions[m - 1])
            == cell {
            1nat
        } else {
            0nat
        }
    }
}

/// The number of pairs that the evaluation looks at: prediction and truth
/// are taken side by side up to the shorter of the two.
pub open spec fn paired_len(predictions: Seq<i32>, targets: Seq<i32>) -> int {
    if predictions.len() <= targets.len() {
        predictions.len() as int
    } else {
        targets.len() as int
    }
}

/// The sum of all cells.
pub open spec fn total(cells: Seq<u32>) -> int
    decreases cells.len(),
{
    if cells.len() == 0 {
        0
    } else {
        total(cells.drop_last()) + cells.last()
    }
}

proof fn lemma_pair_count_monotone(predictions: Seq<i32>, targets: Seq<i32>, a: int, b: int, cell: int)
    requires
        0 <= a <= b,
    ensures
        pair_count(predictions, targets, a, cell) <= pair_count(predictions, targets, b, cell),
    decreases b - a,
{
    if a < b {
        lemma_pair_count_monotone(predictions, targets, a, b - 1, cell);
    }
}

proof fn lemma_total_update(cells: Seq<u32>, c: int, v: u32)
    requires
        0 <= c < cells.len(),
    ensures
        total(cells.update(c, v)) == total(cells) - cells[c] + v,
    decreases cells.len(),
{
    let u = cells.update(c, v);
    if c == cells.len() - 1 {
        assert(u.drop_last() =~= cells.drop_last());
    } else {
        lemma_total_update(cells.drop_last(), c, v);
        assert(u.drop_last() =~= cells.drop_last().update(c, v));
    }
}

proof fn lemma_total_zeros(cells: Seq<u32>)
    requires
        forall|k: int| 0 <= k < cells.len() ==> cells[k] == 0,
    ensures
        total(cells) == 0,
    decreases cells.len(),
{
    if cells.len() > 0 {
        lemma_total_zeros(cells.drop_last());
    }
}

/// An empty matrix: every cell at zero.
pub fn new_confusion_matrix() -> (m: Vec<u32>)
    ensures
        m@.len() == MATRIX_CELLS,
        forall|k: int| 0 <= k < MATRIX_CELLS ==> m@[k] == 0,
        total(m@) == 0,
{
    let mut m: Vec<u32> = Vec::new();
    let mut k: usize = 0;
    while k < MATRIX_CELLS
        invariant
            0 <= k <= MATRIX_CELLS,
            m@.len() == k,
            forall|j: int| 0 <= j < k ==> m@[j] == 0,
        decreases MATRIX_CELLS - k,
    {
        m.push(0);
        k = k + 1;
    }
    proof {
        lemma_total_zeros(m@);
    }
    m
}

/// Why a batch could not be counted.
#[derive(Clone, Copy, Debug, PartialEq, Eq, Structural)]
pub enum ConfusionError {
    /// A pair falls outside the matrix, or a cell would pass `u32::MAX`.
    Unrecordable,
}

/// Every pair looked at falls inside the matrix, and no cell would pass
/// `u32::MAX` once they are counted.
pub open spec fn countable(cells: Seq<u32>, predictions: Seq<i32>, targets: Seq<i32>) -> bool {
    &&& forall|i: int|
        0 <= i < paired_len(predictions, targets) ==> #[trigger] pair_in_range(predictions, targets, i)
    &&& forall|c: int|
        0 <= c < MATRIX_CELLS ==> cells[c] + #[trigger] pair_count(
            predictions,
            targets,
            paired_len(predictions, targets),
            c,
        ) <= u32::MAX
}

/// Counts each pair (prediction, truth) of a batch into its cell, up to the
/// shorter of the two lists. When a pair falls outside the matrix or a cell
/// would pass `u32::MAX`, it fails (and the matrix may hold part of the
/// batch).
pub fn accumulate_confusion(matrix: &mut Vec<u32>, predictions: &Vec<i32>, targets: &Vec<i32>) -> (r: Result<(), ConfusionError>)
    requires
        old(matrix)@.len() == MATRIX_CELLS,
    ensures
        final(matrix)@.len() == MATRIX_CELLS,
        r is Ok <==> countable(old(matrix)@, predictions@, targets@),
        r is Ok ==> forall|c: int|
            0 <= c < MATRIX_CELLS ==> #[trigger] final(matrix)@[c] == old(matrix)@[c] + pair_count(
                predictions@,
                targets@,
                paired_len(predictions@, targets@),
                c,
            ),
        r is Ok ==> total(final(matrix)@) == total(old(matrix)@) + paired_len(predictions@, targets@),
{
    let m: usize = if predictions.len() <= targets.len() {
        predictions.len()
    } else {
        targets.len()
    };
    let ghost p = predictions@;
    let ghost t = targets@;
    let ghost start = matrix@;
    let mut i: usize = 0;
    while i < m
        invariant
            p == predictions@,
            t == targets@,
            m == paired_len(p, t),
            m <= p.len(),
            m <= t.len(),
            0 <= i <= m,
            matrix@.len() == MATRIX_CELLS,
            start.len() == MATRIX_CELLS,
            start == old(matrix)@,
            forall|j: int| 0 <= j < i ==> #[trigger] pair_in_range(p, t, j),
            forall|c: int|
                0 <= c < MATRIX_CELLS ==> #[trigger] matrix@[c] == start[c] + pair_count(
                    p,
                    t,
                    i as int,
                    c,
                ),
            total(matrix@) == total(start) + i,
        decreases m - i,
    {
        let target = targets[i];
        let pred = predictions[i];
        if target < 0 || pred < 0 || (target as i64) * 10 + (pred as i64) >= 100 {
            assert(!pair_in_range(p, t, i as int));
            return Err(ConfusionError::Unrecordable);
        }
        assert(pair_in_range(p, t, i as int));
        let cell: usize = (target as usize) * NUM_CLASSES + (pred as usize);
        let before = matrix[cell];
        proof {
            lemma_pair_count_monotone(p, t, i + 1, m as int, cell as int);
            assert(pair_count(p, t, i + 1, cell as int) == pair_count(p, t, i as int, cell as int) + 1);
        }
        if before == u32::MAX {
            assert(!(start[cell as int] + pair_count(p, t, paired_len(p, t), cell as int) <= u32::MAX));
            return Err(ConfusionError::Unrecordable);
        }
        let ghost prev = matrix@;
        matrix.set(cell, before + 1);
        proof {
            lemma_total_update(prev, cell as int, (before + 1) as u32);
            assert forall|c: int| 0 <= c < MATRIX_CELLS implies #[trigger] matrix@[c] == start[c]
                + pair_count(p, t, i + 1, c) by {
                if c != cell {
                    assert(prev[c] == matrix@[c]);
                }
            }
        }
        i = i + 1;
    }
    proof {
        assert forall|c: int| 0 <= c < MATRIX_CELLS implies start[c] + #[trigger] pair_count(
            p,
            t,
            m as int,
            c,
        ) <= u32::MAX by {
            assert(matrix@[c] == start[c] + pair_count(p, t, m as int, c));
        }
    }
    Ok(())
}

} // verus!
