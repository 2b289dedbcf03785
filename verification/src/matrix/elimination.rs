//! Gaussian elimination on square matrices: row-echelon form with partial
//! pivoting, rank, and inversion by Gauss-Jordan reduction of the matrix
//! beside an identity.
//!
//! The algorithms are written once, over [`Grid`], and the three matrix types
//! implement that trait. A matrix is modelled by the sequence of its rows,
//! each the sequence of its entries. The specification functions of this
//! module say, on that model, what each step does; the executable functions
//! are proved to compute exactly that.
//!
//! The scalars are floating-point numbers in spirit, so nothing here is stated
//! "up to rounding": the contracts name the very operations that are applied,
//! in order. A pivot is *negligible* when its absolute value is below the
//! tolerance of the scalar type.

use vstd::prelude::*;
use crate::float::Float;

verus! {

/// Entry-wise access to a square matrix of a fixed dimension.
pub trait Grid<F: Float>: Sized {
    /// The number of rows, which is the number of columns.
    spec fn dim_spec() -> nat;

    /// Returns the number of rows.
    fn dim() -> (n: usize)
        ensures
            n == Self::dim_spec(),
    ;

    /// The rows of the matrix, from top to bottom.
    spec fn cells(self) -> Seq<Seq<F>>;

    /// The rows of a matrix are as many as its dimension, and as long.
    proof fn lemma_square(self)
        ensures
            is_square(self.cells(), Self::dim_spec()),
    ;

    /// Returns the entry in row `i` and column `j`, both counted from zero.
    fn entry(&self, i: usize, j: usize) -> (r: F)
        requires
            i < Self::dim_spec(),
            j < Self::dim_spec(),
        ensures
            r == self.cells()[i as int][j as int],
    ;

    /// Replaces the entry in row `i` and column `j`, both counted from zero,
    /// and leaves every other entry as it is.
    fn set_entry(&mut self, i: usize, j: usize, value: F)
        requires
            i < Self::dim_spec(),
            j < Self::dim_spec(),
        ensures
            final(self).cells() == old(self).cells().update(
                i as int,
                old(self).cells()[i as int].update(j as int, value),
            ),
    ;
}

/// Whether `g` has `n` rows of `n` entries each.
pub open spec fn is_square<F>(g: Seq<Seq<F>>, n: nat) -> bool {
    &&& g.len() == n
    &&& forall|i: int| 0 <= i < n ==> (#[trigger] g[i]).len() == n
}

/// The identity of dimension `n`: `1` on the diagonal, `0` elsewhere.
pub open spec fn identity_grid<F: Float>(n: nat) -> Seq<Seq<F>> {
    Seq::new(
        n,
        |i: int|
            Seq::new(
                n,
                |j: int|
                    if i == j {
                        F::one_spec()
                    } else {
                        F::zero_spec()
                    },
            ),
    )
}

/// The matrix with rows `i` and `j` exchanged.
pub open spec fn swapped_rows<F>(g: Seq<Seq<F>>, i: int, j: int) -> Seq<Seq<F>> {
    g.update(i, g[j]).update(j, g[i])
}

/// The pivot search in column `k`, continued from row `i` with `best` the
/// candidate so far. A row replaces the candidate unless its entry is
/// strictly smaller in absolute value, so of several entries of the largest
/// absolute value the lowest row is chosen.
pub open spec fn pivot_scan<F: Float>(g: Seq<Seq<F>>, k: int, i: int, best: int) -> int
    decreases g.len() - i,
{
    if i < 0 || i >= g.len() {
        best
    } else if g[i][k].abs_spec().lt_spec(g[best][k].abs_spec()) {
        pivot_scan(g, k, i + 1, best)
    } else {
        pivot_scan(g, k, i + 1, i)
    }
}

/// Partial pivoting: the row, among row `h` and those below it, whose entry
/// in column `k` has the largest absolute value.
pub open spec fn pivot_row<F: Float>(g: Seq<Seq<F>>, h: int, k: int) -> int {
    pivot_scan(g, k, h + 1, h)
}

/// A row after the elimination of its entry in column `k` by the pivot row
/// `pivot`. With `f = row[k] / pivot[k]`: the entries left of column `k` stay,
/// the entry in column `k` is set to `0` outright, and each entry to the right
/// becomes `row[j] - pivot[j] * f`.
pub open spec fn eliminated_row<F: Float>(row: Seq<F>, pivot: Seq<F>, k: int) -> Seq<F> {
    let f = row[k].div_spec(pivot[k]);
    Seq::new(
        row.len(),
        |j: int|
            if j < k {
                row[j]
            } else if j == k {
                F::zero_spec()
            } else {
                row[j].sub_spec(pivot[j].mul_spec(f))
            },
    )
}

/// The matrix after column `k` has been eliminated from every row below the
/// pivot row `h`.
pub open spec fn eliminated_below<F: Float>(g: Seq<Seq<F>>, h: int, k: int) -> Seq<Seq<F>> {
    Seq::new(
        g.len(),
        |i: int|
            if i <= h {
                g[i]
            } else {
                eliminated_row(g[i], g[h], k)
            },
    )
}

/// Elimination continued with the pivot row cursor at `h` and the column
/// cursor at `k`. While both are inside the matrix: the pivot of column `k`
/// is sought from row `h` down; if it is negligible the column yields no
/// pivot and only `k` advances; otherwise the pivot's row is brought to row
/// `h`, the column is eliminated below it and both cursors advance.
pub open spec fn echelon_from<F: Float>(g: Seq<Seq<F>>, h: int, k: int) -> Seq<Seq<F>>
    decreases g.len() - k,
    via echelon_from_decreases::<F>
{
    if h < 0 || k < 0 || h >= g.len() || k >= g.len() {
        g
    } else {
        let p = pivot_row(g, h, k);
        if g[p][k].abs_spec().lt_spec(F::epsilon_spec()) {
            echelon_from(g, h, k + 1)
        } else {
            echelon_from(eliminated_below(swapped_rows(g, h, p), h, k), h + 1, k + 1)
        }
    }
}

#[via_fn]
proof fn echelon_from_decreases<F: Float>(g: Seq<Seq<F>>, h: int, k: int) {
    if 0 <= h < g.len() && 0 <= k < g.len() {
        let p = pivot_row(g, h, k);
        lemma_pivot_scan_range(g, k, h + 1, h);
        assert(eliminated_below(swapped_rows(g, h, p), h, k).len() == g.len());
    }
}

/// The columns in which elimination, continued with the cursors at `h` and
/// `k`, finds its pivots, from left to right. The first of them is the pivot
/// of row `h`, the next that of row `h + 1`, and so on.
pub open spec fn pivot_columns_from<F: Float>(g: Seq<Seq<F>>, h: int, k: int) -> Seq<int>
    decreases g.len() - k,
    via pivot_columns_from_decreases::<F>
{
    if h < 0 || k < 0 || h >= g.len() || k >= g.len() {
        Seq::empty()
    } else {
        let p = pivot_row(g, h, k);
        if g[p][k].abs_spec().lt_spec(F::epsilon_spec()) {
            pivot_columns_from(g, h, k + 1)
        } else {
            seq![k] + pivot_columns_from(
                eliminated_below(swapped_rows(g, h, p), h, k),
                h + 1,
                k + 1,
            )
        }
    }
}

#[via_fn]
proof fn pivot_columns_from_decreases<F: Float>(g: Seq<Seq<F>>, h: int, k: int) {
    if 0 <= h < g.len() && 0 <= k < g.len() {
        let p = pivot_row(g, h, k);
        lemma_pivot_scan_range(g, k, h + 1, h);
        assert(eliminated_below(swapped_rows(g, h, p), h, k).len() == g.len());
    }
}

/// The columns of the pivots of the row-echelon form: entry `r` is the column
/// of the pivot of row `r`.
pub open spec fn pivot_columns<F: Float>(g: Seq<Seq<F>>) -> Seq<int> {
    pivot_columns_from(g, 0, 0)
}

/// The row-echelon form reached by Gaussian elimination with partial
/// pivoting. Row exchanges are not counted, so the product of the diagonal
/// is the determinant only up to sign.
pub open spec fn row_echelon<F: Float>(g: Seq<Seq<F>>) -> Seq<Seq<F>> {
    echelon_from(g, 0, 0)
}

/// Whether every entry of the row is negligible.
pub open spec fn row_is_negligible<F: Float>(row: Seq<F>) -> bool {
    forall|j: int| 0 <= j < row.len() ==> (#[trigger] row[j]).abs_spec().lt_spec(F::epsilon_spec())
}

/// The number of rows among the first `upto` that are not negligible.
pub open spec fn significant_rows<F: Float>(g: Seq<Seq<F>>, upto: int) -> nat
    decreases upto,
{
    if upto <= 0 {
        0
    } else if row_is_negligible(g[upto - 1]) {
        significant_rows(g, upto - 1)
    } else {
        significant_rows(g, upto - 1) + 1
    }
}

/// The rank: the number of rows of the row-echelon form that are not
/// negligible.
pub open spec fn rank_of<F: Float>(g: Seq<Seq<F>>) -> nat {
    significant_rows(row_echelon(g), g.len() as int)
}

/// The search for the pivot of Gauss-Jordan reduction, for target row `r`,
/// continued at row `i` of column `lead`. The first entry that is not equal to
/// `0` is the pivot; a column is searched from row `r` down, and when it is
/// exhausted the search moves on to the next column. The result is the row and
/// the column of the pivot, or `None` when the columns run out.
pub open spec fn find_pivot<F: Float>(g: Seq<Seq<F>>, r: int, lead: int, i: int) -> Option<
    (int, int),
>
    decreases g.len() - lead, g.len() - i,
{
    if lead < 0 || lead >= g.len() || i < 0 {
        None
    } else if i >= g.len() {
        find_pivot(g, r, lead + 1, r)
    } else if g[i][lead].eq_spec(F::zero_spec()) {
        find_pivot(g, r, lead, i + 1)
    } else {
        Some((i, lead))
    }
}

/// The row with every entry divided by `f`.
pub open spec fn divided_row<F: Float>(row: Seq<F>, f: F) -> Seq<F> {
    Seq::new(row.len(), |c: int| row[c].div_spec(f))
}

/// The row less `f` times the row `pivot`: each entry becomes
/// `row[c] - pivot[c] * f`.
pub open spec fn cleared_row<F: Float>(row: Seq<F>, pivot: Seq<F>, f: F) -> Seq<F> {
    Seq::new(row.len(), |c: int| row[c].sub_spec(pivot[c].mul_spec(f)))
}

/// One step of Gauss-Jordan reduction on the working matrix `w` and the
/// matrix `a` that accompanies it, for target row `r` with the pivot found in
/// row `i` of column `lead`. In both matrices rows `i` and `r` are exchanged
/// and row `r` is divided by the pivot; then from every other row that
/// multiple of row `r` is subtracted which clears the row's entry in column
/// `lead` of the working matrix.
pub open spec fn reduce_step<F: Float>(
    w: Seq<Seq<F>>,
    a: Seq<Seq<F>>,
    r: int,
    i: int,
    lead: int,
) -> (Seq<Seq<F>>, Seq<Seq<F>>) {
    let w1 = swapped_rows(w, i, r);
    let a1 = swapped_rows(a, i, r);
    let f = w1[r][lead];
    let wr = divided_row(w1[r], f);
    let ar = divided_row(a1[r], f);
    (
        Seq::new(
            w.len(),
            |j: int|
                if j == r {
                    wr
                } else {
                    cleared_row(w1[j], wr, w1[j][lead])
                },
        ),
        Seq::new(
            a.len(),
            |j: int|
                if j == r {
                    ar
                } else {
                    cleared_row(a1[j], ar, w1[j][lead])
                },
        ),
    )
}

/// Gauss-Jordan reduction continued at target row `r` with the lead column
/// at `lead`. It ends when the rows or the columns run out, or when no pivot
/// is left: the matrices are then returned as they stand.
pub open spec fn reduced_from<F: Float>(w: Seq<Seq<F>>, a: Seq<Seq<F>>, r: int, lead: int) -> (
    Seq<Seq<F>>,
    Seq<Seq<F>>,
)
    decreases w.len() - r,
{
    if r < 0 || lead < 0 || r >= w.len() || lead >= w.len() {
        (w, a)
    } else {
        match find_pivot(w, r, lead, r) {
            None => (w, a),
            Some((i, l)) => {
                let s = reduce_step(w, a, r, i, l);
                reduced_from(s.0, s.1, r + 1, l + 1)
            },
        }
    }
}

/// What inversion by Gauss-Jordan reduction yields: the matrix that started
/// as the identity, after the reduction of `g` has been mirrored on it. For a
/// singular `g` the reduction stops early and the result is meaningless.
pub open spec fn inverse_of<F: Float>(g: Seq<Seq<F>>) -> Seq<Seq<F>> {
    reduced_from(g, identity_grid(g.len()), 0, 0).1
}

/// Exchanging a row with itself changes nothing.
pub proof fn lemma_swap_same<F>(g: Seq<Seq<F>>, i: int)
    requires
        0 <= i < g.len(),
    ensures
        swapped_rows(g, i, i) == g,
{
    assert(swapped_rows(g, i, i) =~= g);
}

/// The pivot search returns the candidate it was given or a row it visited.
pub proof fn lemma_pivot_scan_range<F: Float>(g: Seq<Seq<F>>, k: int, i: int, best: int)
    requires
        0 <= best < i,
    ensures
        pivot_scan(g, k, i, best) == best || i <= pivot_scan(g, k, i, best) < g.len(),
    decreases g.len() - i,
{
    if i < g.len() {
        if g[i][k].abs_spec().lt_spec(g[best][k].abs_spec()) {
            lemma_pivot_scan_range(g, k, i + 1, best);
        } else {
            lemma_pivot_scan_range(g, k, i + 1, i);
        }
    }
}

/// The number of significant rows is at most the number of rows counted.
pub proof fn lemma_significant_rows_bound<F: Float>(g: Seq<Seq<F>>, upto: int)
    requires
        0 <= upto,
    ensures
        significant_rows(g, upto) <= upto,
    decreases upto,
{
    if upto > 0 {
        lemma_significant_rows_bound(g, upto - 1);
    }
}

/// Counting further rows does not lower the count.
pub proof fn lemma_significant_rows_monotone<F: Float>(g: Seq<Seq<F>>, a: int, b: int)
    requires
        a <= b,
    ensures
        significant_rows(g, a) <= significant_rows(g, b),
    decreases b - a,
{
    if a < b {
        lemma_significant_rows_monotone(g, a, b - 1);
    }
}

/// Where none of the first `m` rows is negligible, all of them count.
pub proof fn lemma_significant_rows_all<F: Float>(g: Seq<Seq<F>>, m: int)
    requires
        0 <= m,
        forall|r: int| 0 <= r < m ==> !row_is_negligible(#[trigger] g[r]),
    ensures
        significant_rows(g, m) == m,
    decreases m,
{
    if m > 0 {
        lemma_significant_rows_all(g, m - 1);
    }
}

/// The rank is at most the dimension.
pub proof fn lemma_rank_at_most_dimension<F: Float>(g: Seq<Seq<F>>)
    ensures
        rank_of(g) <= g.len(),
{
    lemma_significant_rows_bound(row_echelon(g), g.len() as int);
}

/// One elimination step keeps the matrix square, leaves the rows above the
/// cursor alone, puts the pivot in row `h` and zeros below it, and keeps
/// every entry left of column `k` in the rows it does not exchange.
proof fn lemma_step_shape<F: Float>(g: Seq<Seq<F>>, h: int, k: int)
    requires
        is_square(g, g.len()),
        0 <= h <= k < g.len(),
    ensures
        ({
            let p = pivot_row(g, h, k);
            let s = eliminated_below(swapped_rows(g, h, p), h, k);
            &&& h <= p < g.len()
            &&& is_square(s, g.len())
            &&& forall|i: int| 0 <= i < h ==> #[trigger] s[i] == g[i]
            &&& s[h] == g[p]
            &&& forall|i: int| h < i < g.len() ==> (#[trigger] s[i])[k] == F::zero_spec()
            &&& forall|i: int, j: int|
                h < i < g.len() && 0 <= j < k ==> #[trigger] s[i][j] == swapped_rows(g, h, p)[i][j]
        }),
{
    lemma_pivot_scan_range(g, k, h + 1, h);
}

/// Elimination continued at row `h` keeps the matrix square and leaves the
/// rows above row `h` alone.
proof fn lemma_rows_above_kept<F: Float>(g: Seq<Seq<F>>, h: int, k: int)
    requires
        is_square(g, g.len()),
        0 <= h <= k <= g.len(),
    ensures
        is_square(echelon_from(g, h, k), g.len()),
        forall|i: int| 0 <= i < h ==> #[trigger] echelon_from(g, h, k)[i] == g[i],
    decreases g.len() - k,
{
    if h < g.len() && k < g.len() {
        lemma_step_shape(g, h, k);
        let p = pivot_row(g, h, k);
        if g[p][k].abs_spec().lt_spec(F::epsilon_spec()) {
            lemma_rows_above_kept(g, h, k + 1);
        } else {
            lemma_rows_above_kept(eliminated_below(swapped_rows(g, h, p), h, k), h + 1, k + 1);
        }
    }
}

/// A column left of the cursor that is zero from row `h` down stays so.
proof fn lemma_zero_column_kept<F: Float>(g: Seq<Seq<F>>, h: int, k: int, j: int)
    requires
        is_square(g, g.len()),
        0 <= h <= k <= g.len(),
        0 <= j < k,
        forall|i: int| h <= i < g.len() ==> (#[trigger] g[i])[j] == F::zero_spec(),
    ensures
        forall|i: int| h <= i < g.len() ==> (#[trigger] echelon_from(g, h, k)[i])[j] == F::zero_spec(),
    decreases g.len() - k,
{
    let e = echelon_from(g, h, k);
    if h < g.len() && k < g.len() {
        lemma_step_shape(g, h, k);
        let p = pivot_row(g, h, k);
        if g[p][k].abs_spec().lt_spec(F::epsilon_spec()) {
            lemma_zero_column_kept(g, h, k + 1, j);
            assert(e == echelon_from(g, h, k + 1));
        } else {
            let w = swapped_rows(g, h, p);
            let s = eliminated_below(w, h, k);
            lemma_rows_above_kept(s, h + 1, k + 1);
            assert(e == echelon_from(s, h + 1, k + 1));
            assert forall|i: int| h + 1 <= i < s.len() implies (#[trigger] s[i])[j]
                == F::zero_spec() by {
                assert(s[i][j] == w[i][j]);
                assert(w[i] == g[i] || w[i] == g[h] || w[i] == g[p]);
            }
            lemma_zero_column_kept(s, h + 1, k + 1, j);
            assert forall|i: int| h <= i < g.len() implies (#[trigger] e[i])[j]
                == F::zero_spec() by {
                if i == h {
                    assert(e[h] == s[h]);
                    assert(s[h] == g[p]);
                }
            }
        }
    } else {
        assert(e == g);
    }
}

/// The shape of the result of elimination continued with the cursors at `h`
/// and `k`: see [`lemma_row_echelon_shape`], which is the case of both
/// cursors at the start.
pub proof fn lemma_echelon_from_shape<F: Float>(g: Seq<Seq<F>>, h: int, k: int)
    requires
        is_square(g, g.len()),
        0 <= h <= k <= g.len(),
    ensures
        ({
            let e = echelon_from(g, h, k);
            let c = pivot_columns_from(g, h, k);
            &&& is_square(e, g.len())
            &&& forall|i: int| 0 <= i < h ==> #[trigger] e[i] == g[i]
            &&& h + c.len() <= g.len()
            &&& forall|r: int| 0 <= r < c.len() ==> k + r <= #[trigger] c[r] < g.len()
            &&& forall|r: int, t: int| 0 <= r < t < c.len() ==> #[trigger] c[r] < #[trigger] c[t]
            &&& forall|r: int, i: int|
                0 <= r < c.len() && h + r < i < g.len() ==> #[trigger] e[i][c[r]] == F::zero_spec()
            &&& forall|r: int|
                0 <= r < c.len() ==> !(#[trigger] e[h + r][c[r]]).abs_spec().lt_spec(
                    F::epsilon_spec(),
                )
        }),
    decreases g.len() - k,
{
    if h < g.len() && k < g.len() {
        lemma_step_shape(g, h, k);
        let p = pivot_row(g, h, k);
        if g[p][k].abs_spec().lt_spec(F::epsilon_spec()) {
            lemma_echelon_from_shape(g, h, k + 1);
        } else {
            let s = eliminated_below(swapped_rows(g, h, p), h, k);
            let e = echelon_from(s, h + 1, k + 1);
            let d = pivot_columns_from(s, h + 1, k + 1);
            let c = pivot_columns_from(g, h, k);
            lemma_echelon_from_shape(s, h + 1, k + 1);
            lemma_zero_column_kept(s, h + 1, k + 1, k);
            assert(c == seq![k] + d);
            assert(c[0] == k);
            assert forall|r: int| 1 <= r < c.len() implies #[trigger] c[r] == d[r - 1] by {}
            assert(e[h] == s[h]);
            assert forall|r: int, i: int| 0 <= r < c.len() && h + r < i < g.len() implies #[trigger] e[i][c[r]]
                == F::zero_spec() by {
                if r > 0 {
                    assert(e[i][d[r - 1]] == F::zero_spec());
                }
            }
            assert forall|r: int| 0 <= r < c.len() implies !(#[trigger] e[h + r][c[r]]).abs_spec().lt_spec(
                F::epsilon_spec(),
            ) by {
                if r > 0 {
                    assert(!e[h + 1 + (r - 1)][d[r - 1]].abs_spec().lt_spec(F::epsilon_spec()));
                }
            }
            assert forall|r: int, t: int| 0 <= r < t < c.len() implies #[trigger] c[r] < #[trigger] c[t] by {
                if r > 0 {
                    assert(d[r - 1] < d[t - 1]);
                } else {
                    assert(k + 1 + (t - 1) <= d[t - 1]);
                }
            }
            assert forall|r: int| 0 <= r < c.len() implies k + r <= #[trigger] c[r] < g.len() by {
                if r > 0 {
                    assert(k + 1 + (r - 1) <= d[r - 1] < g.len());
                }
            }
        }
    }
}

/// The row-echelon form is a staircase. The pivot of row `r` stands in
/// column `pivot_columns(g)[r]`, which is at or right of the diagonal and
/// right of the pivot of the row above; the pivot is not negligible; and
/// every entry below a pivot is exactly `0`.
pub proof fn lemma_row_echelon_shape<F: Float>(g: Seq<Seq<F>>)
    requires
        is_square(g, g.len()),
    ensures
        ({
            let e = row_echelon(g);
            let c = pivot_columns(g);
            &&& is_square(e, g.len())
            &&& c.len() <= g.len()
            &&& forall|r: int| 0 <= r < c.len() ==> r <= #[trigger] c[r] < g.len()
            &&& forall|r: int, t: int| 0 <= r < t < c.len() ==> #[trigger] c[r] < #[trigger] c[t]
            &&& forall|r: int, i: int|
                0 <= r < c.len() && r < i < g.len() ==> #[trigger] e[i][c[r]] == F::zero_spec()
            &&& forall|r: int|
                0 <= r < c.len() ==> !(#[trigger] e[r][c[r]]).abs_spec().lt_spec(F::epsilon_spec())
        }),
{
    let e = row_echelon(g);
    let c = pivot_columns(g);
    lemma_echelon_from_shape(g, 0, 0);
    assert forall|r: int| 0 <= r < c.len() implies r <= #[trigger] c[r] < g.len() by {
        assert(0 + r <= c[r]);
    }
    assert forall|r: int, i: int| 0 <= r < c.len() && r < i < g.len() implies #[trigger] e[i][c[r]]
        == F::zero_spec() by {
        assert(0 + r < i);
    }
    assert forall|r: int| 0 <= r < c.len() implies !(#[trigger] e[r][c[r]]).abs_spec().lt_spec(
        F::epsilon_spec(),
    ) by {
        assert(!e[0 + r][c[r]].abs_spec().lt_spec(F::epsilon_spec()));
    }
}

/// The rank lies between the number of pivots and the dimension: every row
/// with a pivot counts, since the pivot is not negligible.
pub proof fn lemma_rank_bounds<F: Float>(g: Seq<Seq<F>>)
    requires
        is_square(g, g.len()),
    ensures
        pivot_columns(g).len() <= rank_of(g) <= g.len(),
{
    let e = row_echelon(g);
    let c = pivot_columns(g);
    lemma_row_echelon_shape(g);
    assert forall|r: int| 0 <= r < c.len() implies !row_is_negligible(#[trigger] e[r]) by {
        assert(!e[r][c[r]].abs_spec().lt_spec(F::epsilon_spec()));
    }
    lemma_significant_rows_all(e, c.len() as int);
    lemma_significant_rows_monotone(e, c.len() as int, g.len() as int);
    lemma_rank_at_most_dimension(g);
}

/// Whether every entry is `0`.
pub open spec fn is_zero_grid<F: Float>(g: Seq<Seq<F>>) -> bool {
    forall|i: int, j: int|
        0 <= i < g.len() && 0 <= j < g[i].len() ==> #[trigger] g[i][j] == F::zero_spec()
}

/// Elimination leaves a matrix of zeros as it is, where `0` is negligible.
proof fn lemma_echelon_of_zero<F: Float>(g: Seq<Seq<F>>, h: int, k: int)
    requires
        is_square(g, g.len()),
        is_zero_grid(g),
        F::zero_spec().abs_spec().lt_spec(F::epsilon_spec()),
        0 <= h,
        0 <= k,
    ensures
        echelon_from(g, h, k) == g,
    decreases g.len() - k,
{
    if h < g.len() && k < g.len() {
        lemma_pivot_scan_range(g, k, h + 1, h);
        let p = pivot_row(g, h, k);
        assert(g[p][k] == F::zero_spec());
        lemma_echelon_of_zero(g, h, k + 1);
    }
}

/// The rank of a matrix of zeros is `0`, where `0` is negligible: where the
/// absolute value of `0` is below the tolerance.
pub proof fn lemma_rank_of_zero<F: Float>(g: Seq<Seq<F>>)
    requires
        is_square(g, g.len()),
        is_zero_grid(g),
        F::zero_spec().abs_spec().lt_spec(F::epsilon_spec()),
    ensures
        rank_of(g) == 0,
{
    lemma_echelon_of_zero(g, 0, 0);
    lemma_zero_rows_insignificant(g, g.len() as int);
}

/// None of the first `m` rows of a matrix of negligible zeros counts.
proof fn lemma_zero_rows_insignificant<F: Float>(g: Seq<Seq<F>>, m: int)
    requires
        is_zero_grid(g),
        F::zero_spec().abs_spec().lt_spec(F::epsilon_spec()),
        0 <= m <= g.len(),
    ensures
        significant_rows(g, m) == 0,
    decreases m,
{
    if m > 0 {
        lemma_zero_rows_insignificant(g, m - 1);
        assert(row_is_negligible(g[m - 1])) by {
            assert forall|j: int| 0 <= j < g[m - 1].len() implies (#[trigger] g[m - 1][j])
                .abs_spec().lt_spec(F::epsilon_spec()) by {
                assert(g[m - 1][j] == F::zero_spec());
            }
        }
    }
}

/// What the elimination of the identity needs of the arithmetic: `0` is
/// smaller than `1` in absolute value, `1` is not negligible, and the
/// elimination step leaves `0` and `1` as they are when the factor is
/// `0 / 1`.
pub open spec fn identity_is_stable<F: Float>() -> bool {
    let zero = F::zero_spec();
    let one = F::one_spec();
    &&& zero.abs_spec().lt_spec(one.abs_spec())
    &&& !one.abs_spec().lt_spec(F::epsilon_spec())
    &&& zero.div_spec(one) == zero
    &&& zero.sub_spec(zero.mul_spec(zero)) == zero
    &&& one.sub_spec(zero.mul_spec(zero)) == one
}

/// In column `h` of the identity the pivot search from row `h` stays with
/// row `h`.
proof fn lemma_pivot_of_identity<F: Float>(n: nat, h: int, i: int)
    requires
        identity_is_stable::<F>(),
        0 <= h < i,
        h < n,
    ensures
        pivot_scan(identity_grid::<F>(n), h, i, h) == h,
    decreases n - i,
{
    if i < n {
        let g = identity_grid::<F>(n);
        assert(g[i][h] == F::zero_spec());
        assert(g[h][h] == F::one_spec());
        lemma_pivot_of_identity::<F>(n, h, i + 1);
    }
}

/// Elimination leaves the identity as it is.
proof fn lemma_echelon_of_identity<F: Float>(n: nat, h: int)
    requires
        identity_is_stable::<F>(),
        0 <= h,
    ensures
        echelon_from(identity_grid::<F>(n), h, h) == identity_grid::<F>(n),
    decreases n - h,
{
    let g = identity_grid::<F>(n);
    if h < n {
        lemma_pivot_of_identity::<F>(n, h, h + 1);
        assert(pivot_row(g, h, h) == h);
        assert(g[h][h] == F::one_spec());
        lemma_swap_same(g, h);
        let s = eliminated_below(g, h, h);
        assert forall|i: int, j: int| 0 <= i < n && 0 <= j < n implies #[trigger] s[i][j]
            == g[i][j] by {
            if i > h {
                assert(g[i][h] == F::zero_spec());
                assert(s[i] == eliminated_row(g[i], g[h], h));
                if j > h {
                    assert(g[h][j] == F::zero_spec());
                }
            }
        }
        assert(s =~~= g);
        lemma_echelon_of_identity::<F>(n, h + 1);
    }
}

/// The rank of the identity is its dimension, where the arithmetic keeps
/// the identity stable under elimination (see [`identity_is_stable`]).
pub proof fn lemma_rank_of_identity<F: Float>(n: nat)
    requires
        identity_is_stable::<F>(),
    ensures
        rank_of(identity_grid::<F>(n)) == n,
{
    let g = identity_grid::<F>(n);
    lemma_echelon_of_identity::<F>(n, 0);
    assert forall|r: int| 0 <= r < n implies !row_is_negligible(#[trigger] g[r]) by {
        assert(g[r][r] == F::one_spec());
    }
    lemma_significant_rows_all(g, n as int);
}

/// What becomes of the working matrix under Gauss-Jordan reduction does not
/// depend on the matrix that accompanies it: the steps are chosen by the
/// working matrix alone.
pub proof fn lemma_reduction_ignores_adjacent<F: Float>(
    w: Seq<Seq<F>>,
    a: Seq<Seq<F>>,
    b: Seq<Seq<F>>,
    r: int,
    lead: int,
)
    ensures
        reduced_from(w, a, r, lead).0 == reduced_from(w, b, r, lead).0,
    decreases w.len() - r,
{
    if 0 <= r < w.len() && 0 <= lead < w.len() {
        match find_pivot(w, r, lead, r) {
            None => {},
            Some((i, l)) => {
                let s = reduce_step(w, a, r, i, l);
                let t = reduce_step(w, b, r, i, l);
                assert(s.0 == t.0);
                lemma_reduction_ignores_adjacent(s.0, s.1, t.1, r + 1, l + 1);
            },
        }
    }
}

/// Exchanges rows `i` and `j`, counted from zero.
pub fn exchange_rows<F: Float, M: Grid<F>>(m: &mut M, i: usize, j: usize)
    requires
        i < M::dim_spec(),
        j < M::dim_spec(),
    ensures
        final(m).cells() == swapped_rows(old(m).cells(), i as int, j as int),
{
    let n = M::dim();
    let ghost g0 = m.cells();
    proof {
        m.lemma_square();
    }
    let mut c: usize = 0;
    while c < n
        invariant
            c <= n,
            n == M::dim_spec(),
            i < n,
            j < n,
            is_square(g0, n as nat),
            is_square(m.cells(), n as nat),
            forall|r: int, d: int|
                0 <= r < n && 0 <= d < n ==> #[trigger] m.cells()[r][d] == (if d >= c {
                    g0[r][d]
                } else if r == j {
                    g0[i as int][d]
                } else if r == i {
                    g0[j as int][d]
                } else {
                    g0[r][d]
                }),
        decreases n - c,
    {
        let a = m.entry(i, c);
        let b = m.entry(j, c);
        m.set_entry(i, c, b);
        m.set_entry(j, c, a);
        proof {
            m.lemma_square();
        }
        c += 1;
    }
    assert(m.cells() =~~= swapped_rows(g0, i as int, j as int));
}

/// Finds the pivot of column `k` among row `h` and the rows below it.
pub fn find_pivot_row<F: Float, M: Grid<F>>(m: &M, h: usize, k: usize) -> (p: usize)
    requires
        h < M::dim_spec(),
        k < M::dim_spec(),
    ensures
        p == pivot_row(m.cells(), h as int, k as int),
        h <= p < M::dim_spec(),
{
    let n = M::dim();
    proof {
        m.lemma_square();
    }
    let mut best = h;
    let mut i = h + 1;
    while i < n
        invariant
            h <= best < i <= n,
            n == M::dim_spec(),
            k < n,
            m.cells().len() == n,
            pivot_scan(m.cells(), k as int, i as int, best as int) == pivot_row(
                m.cells(),
                h as int,
                k as int,
            ),
        decreases n - i,
    {
        if !m.entry(i, k).abs().lt(m.entry(best, k).abs()) {
            best = i;
        }
        i += 1;
    }
    best
}

/// Eliminates column `k` from every row below the pivot row `h`.
pub fn eliminate_below<F: Float, M: Grid<F>>(m: &mut M, h: usize, k: usize)
    requires
        h < M::dim_spec(),
        k < M::dim_spec(),
    ensures
        final(m).cells() == eliminated_below(old(m).cells(), h as int, k as int),
{
    let n = M::dim();
    let ghost g0 = m.cells();
    proof {
        m.lemma_square();
    }
    let mut i = h + 1;
    while i < n
        invariant
            h < i <= n,
            k < n,
            n == M::dim_spec(),
            is_square(g0, n as nat),
            is_square(m.cells(), n as nat),
            forall|r: int, c: int|
                0 <= r < n && 0 <= c < n ==> #[trigger] m.cells()[r][c] == (if r <= h || r >= i {
                    g0[r][c]
                } else {
                    eliminated_row(g0[r], g0[h as int], k as int)[c]
                }),
        decreases n - i,
    {
        let f = m.entry(i, k).div(m.entry(h, k));
        m.set_entry(i, k, F::zero());
        proof {
            m.lemma_square();
        }
        let mut j = k + 1;
        while j < n
            invariant
                h < i < n,
                k < j <= n,
                n == M::dim_spec(),
                is_square(g0, n as nat),
                is_square(m.cells(), n as nat),
                f == g0[i as int][k as int].div_spec(g0[h as int][k as int]),
                forall|r: int, c: int|
                    0 <= r < n && 0 <= c < n ==> #[trigger] m.cells()[r][c] == (if r <= h || r
                        > i {
                        g0[r][c]
                    } else if r < i {
                        eliminated_row(g0[r], g0[h as int], k as int)[c]
                    } else if c < k || c >= j {
                        g0[r][c]
                    } else if c == k {
                        F::zero_spec()
                    } else {
                        g0[r][c].sub_spec(g0[h as int][c].mul_spec(f))
                    }),
            decreases n - j,
        {
            let delta = m.entry(h, j).mul(f);
            let current = m.entry(i, j);
            m.set_entry(i, j, current.sub(delta));
            proof {
                m.lemma_square();
            }
            j += 1;
        }
        i += 1;
    }
    assert(m.cells() =~~= eliminated_below(g0, h as int, k as int));
}

/// Turns the matrix to its row echelon form using gaussian elimination with
/// partial pivoting.
pub fn reduce_to_echelon<F: Float, M: Grid<F>>(m: &mut M)
    ensures
        final(m).cells() == row_echelon(old(m).cells()),
{
    let n = M::dim();
    let ghost g0 = m.cells();
    proof {
        m.lemma_square();
    }
    let mut h: usize = 0;
    let mut k: usize = 0;
    while h < n && k < n
        invariant
            h <= n,
            k <= n,
            n == M::dim_spec(),
            m.cells().len() == n,
            echelon_from(m.cells(), h as int, k as int) == row_echelon(g0),
        decreases n - k,
    {
        let p = find_pivot_row(m, h, k);
        if m.entry(p, k).abs().lt(F::epsilon()) {
            k += 1;
        } else {
            let ghost g = m.cells();
            if h != p {
                exchange_rows(m, h, p);
            } else {
                proof {
                    lemma_swap_same(g, h as int);
                }
            }
            eliminate_below(m, h, k);
            proof {
                m.lemma_square();
            }
            h += 1;
            k += 1;
        }
    }
}

/// Decides whether every entry of row `i`, counted from zero, is negligible.
pub fn row_negligible<F: Float, M: Grid<F>>(m: &M, i: usize) -> (r: bool)
    requires
        i < M::dim_spec(),
    ensures
        r == row_is_negligible(m.cells()[i as int]),
{
    let n = M::dim();
    proof {
        m.lemma_square();
    }
    let mut all = true;
    let mut j: usize = 0;
    while j < n
        invariant
            j <= n,
            i < n,
            n == M::dim_spec(),
            is_square(m.cells(), n as nat),
            all == (forall|c: int|
                0 <= c < j ==> (#[trigger] m.cells()[i as int][c]).abs_spec().lt_spec(
                    F::epsilon_spec(),
                )),
        decreases n - j,
    {
        if !m.entry(i, j).abs().lt(F::epsilon()) {
            all = false;
        }
        j += 1;
    }
    all
}

/// Counts the rows that are not negligible.
pub fn count_significant_rows<F: Float, M: Grid<F>>(m: &M) -> (r: usize)
    ensures
        r == significant_rows(m.cells(), M::dim_spec() as int),
        r <= M::dim_spec(),
{
    let n = M::dim();
    let mut count: usize = 0;
    let mut d: usize = 0;
    while d < n
        invariant
            d <= n,
            n == M::dim_spec(),
            count == significant_rows(m.cells(), d as int),
            count <= d,
        decreases n - d,
    {
        if !row_negligible(m, d) {
            count += 1;
        }
        d += 1;
    }
    count
}

/// Divides every entry of row `r`, counted from zero, by `f`.
pub fn divide_row<F: Float, M: Grid<F>>(m: &mut M, r: usize, f: F)
    requires
        r < M::dim_spec(),
    ensures
        final(m).cells() == old(m).cells().update(
            r as int,
            divided_row(old(m).cells()[r as int], f),
        ),
{
    let n = M::dim();
    let ghost g0 = m.cells();
    proof {
        m.lemma_square();
    }
    let mut c: usize = 0;
    while c < n
        invariant
            c <= n,
            r < n,
            n == M::dim_spec(),
            is_square(g0, n as nat),
            is_square(m.cells(), n as nat),
            forall|i: int, d: int|
                0 <= i < n && 0 <= d < n ==> #[trigger] m.cells()[i][d] == (if i == r && d < c {
                    g0[i][d].div_spec(f)
                } else {
                    g0[i][d]
                }),
        decreases n - c,
    {
        let value = m.entry(r, c).div(f);
        m.set_entry(r, c, value);
        proof {
            m.lemma_square();
        }
        c += 1;
    }
    assert(m.cells() =~~= g0.update(r as int, divided_row(g0[r as int], f)));
}

/// Subtracts from row `j` the product of `f` and the row `pivot`, which
/// belongs to the same matrix as it was before this step or to another;
/// rows are counted from zero.
pub fn subtract_scaled_row<F: Float, M: Grid<F>>(m: &mut M, j: usize, pivot: usize, f: F)
    requires
        j < M::dim_spec(),
        pivot < M::dim_spec(),
        j != pivot,
    ensures
        final(m).cells() == old(m).cells().update(
            j as int,
            cleared_row(old(m).cells()[j as int], old(m).cells()[pivot as int], f),
        ),
{
    let n = M::dim();
    let ghost g0 = m.cells();
    proof {
        m.lemma_square();
    }
    let mut c: usize = 0;
    while c < n
        invariant
            c <= n,
            j < n,
            pivot < n,
            j != pivot,
            n == M::dim_spec(),
            is_square(g0, n as nat),
            is_square(m.cells(), n as nat),
            forall|i: int, d: int|
                0 <= i < n && 0 <= d < n ==> #[trigger] m.cells()[i][d] == (if i == j && d < c {
                    g0[i][d].sub_spec(g0[pivot as int][d].mul_spec(f))
                } else {
                    g0[i][d]
                }),
        decreases n - c,
    {
        let delta = m.entry(pivot, c).mul(f);
        let current = m.entry(j, c);
        m.set_entry(j, c, current.sub(delta));
        proof {
            m.lemma_square();
        }
        c += 1;
    }
    assert(m.cells() =~~= g0.update(
        j as int,
        cleared_row(g0[j as int], g0[pivot as int], f),
    ));
}

/// Carries out one step of Gauss-Jordan reduction, for target row `r` with
/// the pivot in row `i` of column `lead`, on the working matrix and on the
/// matrix that accompanies it.
pub fn reduce_row<F: Float, M: Grid<F>>(
    work: &mut M,
    adjacent: &mut M,
    r: usize,
    i: usize,
    lead: usize,
)
    requires
        r < M::dim_spec(),
        i < M::dim_spec(),
        lead < M::dim_spec(),
    ensures
        (final(work).cells(), final(adjacent).cells()) == reduce_step(
            old(work).cells(),
            old(adjacent).cells(),
            r as int,
            i as int,
            lead as int,
        ),
{
    let n = M::dim();
    let ghost w0 = work.cells();
    let ghost a0 = adjacent.cells();
    proof {
        work.lemma_square();
        adjacent.lemma_square();
    }
    if i != r {
        exchange_rows(work, i, r);
        exchange_rows(adjacent, i, r);
    } else {
        proof {
            lemma_swap_same(w0, r as int);
            lemma_swap_same(a0, r as int);
        }
    }
    let ghost w1 = work.cells();
    let ghost a1 = adjacent.cells();
    let f = work.entry(r, lead);
    divide_row(work, r, f);
    divide_row(adjacent, r, f);
    let ghost wr = divided_row(w1[r as int], f);
    let ghost ar = divided_row(a1[r as int], f);
    proof {
        work.lemma_square();
        adjacent.lemma_square();
    }
    let mut j: usize = 0;
    while j < n
        invariant
            j <= n,
            r < n,
            lead < n,
            n == M::dim_spec(),
            is_square(w1, n as nat),
            is_square(a1, n as nat),
            is_square(work.cells(), n as nat),
            is_square(adjacent.cells(), n as nat),
            wr == divided_row(w1[r as int], f),
            ar == divided_row(a1[r as int], f),
            forall|t: int|
                0 <= t < n ==> #[trigger] work.cells()[t] == (if t == r {
                    wr
                } else if t < j {
                    cleared_row(w1[t], wr, w1[t][lead as int])
                } else {
                    w1[t]
                }),
            forall|t: int|
                0 <= t < n ==> #[trigger] adjacent.cells()[t] == (if t == r {
                    ar
                } else if t < j {
                    cleared_row(a1[t], ar, w1[t][lead as int])
                } else {
                    a1[t]
                }),
        decreases n - j,
    {
        if j != r {
            let g = work.entry(j, lead);
            subtract_scaled_row(work, j, r, g);
            subtract_scaled_row(adjacent, j, r, g);
            proof {
                work.lemma_square();
                adjacent.lemma_square();
            }
        }
        j += 1;
    }
    assert(work.cells() =~= reduce_step(w0, a0, r as int, i as int, lead as int).0);
    assert(adjacent.cells() =~= reduce_step(w0, a0, r as int, i as int, lead as int).1);
}

/// Gauss-Jordan elimination: reduces `work` towards the identity and applies
/// every row operation to `adjacent` as well. Started with the identity in
/// `adjacent`, it leaves the inverse of `work` there. On a singular matrix it
/// stops early and leaves both matrices as far as it got.
pub fn reduce_with_adjacent<F: Float, M: Grid<F>>(work: &mut M, adjacent: &mut M)
    ensures
        (final(work).cells(), final(adjacent).cells()) == reduced_from(
            old(work).cells(),
            old(adjacent).cells(),
            0,
            0,
        ),
{
    let n = M::dim();
    let ghost w0 = work.cells();
    let ghost a0 = adjacent.cells();
    proof {
        work.lemma_square();
    }
    let mut lead: usize = 0;
    let mut r: usize = 0;
    while r < n
        invariant
            r <= n,
            lead <= n,
            n == M::dim_spec(),
            work.cells().len() == n,
            w0 == old(work).cells(),
            a0 == old(adjacent).cells(),
            reduced_from(work.cells(), adjacent.cells(), r as int, lead as int) == reduced_from(
                w0,
                a0,
                0,
                0,
            ),
        decreases n - r,
    {
        if n <= lead {
            return ;
        }
        let ghost lead0 = lead;
        let mut i = r;
        while work.entry(i, lead).eq(F::zero())
            invariant
                r <= i < n,
                lead < n,
                n == M::dim_spec(),
                work.cells().len() == n,
                w0 == old(work).cells(),
                a0 == old(adjacent).cells(),
                find_pivot(work.cells(), r as int, lead as int, i as int) == find_pivot(
                    work.cells(),
                    r as int,
                    lead0 as int,
                    r as int,
                ),
                reduced_from(work.cells(), adjacent.cells(), r as int, lead0 as int)
                    == reduced_from(w0, a0, 0, 0),
            decreases n - lead, n - i,
        {
            let ghost g = work.cells();
            assert(find_pivot(g, r as int, lead as int, i as int) == find_pivot(
                g,
                r as int,
                lead as int,
                i + 1,
            ));
            i += 1;
            if i == n {
                assert(find_pivot(g, r as int, lead as int, n as int) == find_pivot(
                    g,
                    r as int,
                    lead + 1,
                    r as int,
                ));
                i = r;
                lead += 1;
                if lead == n {
                    assert(find_pivot(g, r as int, n as int, r as int) is None);
                    return ;
                }
            }
        }
        reduce_row(work, adjacent, r, i, lead);
        proof {
            work.lemma_square();
        }
        lead += 1;
        r += 1;
    }
}

} // verus!
