//! What Gauss-Jordan reduction computes when the arithmetic is exact.
//!
//! Under the laws of [`crate::ring`] inversion is shown to be
//! correct: the reduction turns every matrix that has a left inverse into the
//! identity, and what it then leaves in the accompanying matrix is the
//! inverse, from the left and from the right
//! ([`lemma_inverse_of_invertible`]).
//!
//! The proofs are the usual ones.
//!
//! - Every step of the reduction is a row operation, applied alike to the
//!   working matrix `w` and to its companion `a`, and a row operation
//!   commutes with multiplication from the right. So `a * m == w` holds
//!   throughout, where `m` is the matrix the reduction started from and `a`
//!   started as the identity: at the end `a` is a left inverse.
//! - Every row operation is undone by a column operation on a matrix `b`
//!   that multiplies from the left, so that `b * w` and `b * a` stay what
//!   they were: `m` and the identity. At the end `w` is the identity, so `b`
//!   is `m`, and `a` is a right inverse.
//! - A column without a pivot would give a vector other than `0` that the
//!   working matrix annihilates, which a matrix with a left inverse does not
//!   have. So the pivots are found on the diagonal, and the working matrix
//!   ends as the identity.

use vstd::prelude::*;
use crate::float::Float;
use crate::matrix::elimination;
use crate::ring;

verus! {

// ---- products of matrices

/// The sum of the first `k` products `row[t] * m[t][c]`, added up from
/// `t = 0`, starting from `0`.
pub open spec fn combination<F: Float>(row: Seq<F>, m: Seq<Seq<F>>, c: int, k: int) -> F
    decreases k,
{
    if k <= 0 {
        F::zero_spec()
    } else {
        combination(row, m, c, k - 1).add_spec(row[k - 1].mul_spec(m[k - 1][c]))
    }
}

/// The product of two square matrices of one dimension: the entry in row
/// `i` and column `c` combines row `i` of `a` with column `c` of `m`.
pub open spec fn product<F: Float>(a: Seq<Seq<F>>, m: Seq<Seq<F>>) -> Seq<Seq<F>> {
    Seq::new(
        a.len(),
        |i: int| Seq::new(m.len(), |c: int| combination(a[i], m, c, m.len() as int)),
    )
}

/// The combination of a row of two entries with a column, written out as the
/// dot product of the vectors is: the products added up from the first to the
/// last, then `0` added.
pub proof fn lemma_combination_of_two<F: Float>(row: Seq<F>, m: Seq<Seq<F>>, c: int)
    requires
        ring::is_exact::<F>(),
    ensures
        combination(row, m, c, 2) == row[0].mul_spec(m[0][c]).add_spec(
            row[1].mul_spec(m[1][c]),
        ).add_spec(F::zero_spec()),
{
    reveal_with_fuel(combination, 3);
    let x = row[0].mul_spec(m[0][c]);
    ring::add_zero(x);
    ring::add_zero(x.add_spec(row[1].mul_spec(m[1][c])));
}

/// The combination of a row of three entries with a column, written out as
/// the dot product of the vectors is.
pub proof fn lemma_combination_of_three<F: Float>(row: Seq<F>, m: Seq<Seq<F>>, c: int)
    requires
        ring::is_exact::<F>(),
    ensures
        combination(row, m, c, 3) == row[0].mul_spec(m[0][c]).add_spec(
            row[1].mul_spec(m[1][c]),
        ).add_spec(row[2].mul_spec(m[2][c])).add_spec(F::zero_spec()),
{
    reveal_with_fuel(combination, 4);
    let x = row[0].mul_spec(m[0][c]);
    ring::add_zero(x);
    ring::add_zero(combination(row, m, c, 3));
}

/// The combination of a row of four entries with a column, written out as
/// the dot product of the vectors is.
pub proof fn lemma_combination_of_four<F: Float>(row: Seq<F>, m: Seq<Seq<F>>, c: int)
    requires
        ring::is_exact::<F>(),
    ensures
        combination(row, m, c, 4) == row[0].mul_spec(m[0][c]).add_spec(
            row[1].mul_spec(m[1][c]),
        ).add_spec(row[2].mul_spec(m[2][c])).add_spec(row[3].mul_spec(m[3][c])).add_spec(
            F::zero_spec(),
        ),
{
    reveal_with_fuel(combination, 5);
    let x = row[0].mul_spec(m[0][c]);
    ring::add_zero(x);
    ring::add_zero(combination(row, m, c, 4));
}

/// A row of the identity picks out a row of the other factor.
proof fn lemma_combination_unit<F: Float>(n: nat, i: int, m: Seq<Seq<F>>, c: int, k: int)
    requires
        ring::is_exact::<F>(),
        0 <= i < n,
        0 <= k <= n,
    ensures
        combination(elimination::identity_grid::<F>(n)[i], m, c, k) == (if i < k {
            m[i][c]
        } else {
            F::zero_spec()
        }),
    decreases k,
{
    if k > 0 {
        let row = elimination::identity_grid::<F>(n)[i];
        lemma_combination_unit(n, i, m, c, k - 1);
        let x = m[k - 1][c];
        if i == k - 1 {
            ring::mul_one(x);
            ring::add_zero(x);
        } else {
            ring::mul_zero(x);
            ring::add_zero(combination(row, m, c, k - 1));
        }
    }
}

/// Dividing a row divides its combination with any column.
proof fn lemma_combination_divided<F: Float>(row: Seq<F>, f: F, m: Seq<Seq<F>>, c: int, k: int)
    requires
        ring::is_exact::<F>(),
        0 <= k <= row.len(),
    ensures
        combination(elimination::divided_row(row, f), m, c, k) == combination(
            row,
            m,
            c,
            k,
        ).div_spec(f),
    decreases k,
{
    if k > 0 {
        lemma_combination_divided(row, f, m, c, k - 1);
        ring::div_step(combination(row, m, c, k - 1), row[k - 1], m[k - 1][c], f);
    } else {
        ring::zero_div(f);
    }
}

/// Subtracting a multiple of a row subtracts that multiple of its
/// combination with any column.
proof fn lemma_combination_cleared<F: Float>(
    row: Seq<F>,
    pivot: Seq<F>,
    g: F,
    m: Seq<Seq<F>>,
    c: int,
    k: int,
)
    requires
        ring::is_exact::<F>(),
        0 <= k <= row.len(),
    ensures
        combination(elimination::cleared_row(row, pivot, g), m, c, k) == combination(
            row,
            m,
            c,
            k,
        ).sub_spec(combination(pivot, m, c, k).mul_spec(g)),
    decreases k,
{
    if k > 0 {
        lemma_combination_cleared(row, pivot, g, m, c, k - 1);
        ring::clear_step(
            combination(row, m, c, k - 1),
            combination(pivot, m, c, k - 1),
            row[k - 1],
            pivot[k - 1],
            m[k - 1][c],
            g,
        );
    } else {
        let z = F::zero_spec();
        ring::mul_zero(g);
        ring::sub_def(z, z);
        ring::add_neg(z);
    }
}

/// The identity is neutral on the left.
pub proof fn lemma_identity_product<F: Float>(m: Seq<Seq<F>>)
    requires
        ring::is_exact::<F>(),
        elimination::is_square(m, m.len()),
    ensures
        product(elimination::identity_grid::<F>(m.len()), m) == m,
{
    let n = m.len();
    let p = product(elimination::identity_grid::<F>(n), m);
    assert forall|i: int, c: int| 0 <= i < n && 0 <= c < n implies #[trigger] p[i][c]
        == m[i][c] by {
        lemma_combination_unit(n, i, m, c, n as int);
    }
    assert(p =~~= m);
}

/// The pivot that the search finds lies at or below the target row and at or
/// right of the column the search started in.
proof fn lemma_find_pivot_range<F: Float>(g: Seq<Seq<F>>, r: int, lead: int, i: int)
    requires
        0 <= r <= i,
        0 <= lead,
    ensures
        match elimination::find_pivot(g, r, lead, i) {
            Some((p, l)) => r <= p < g.len() && lead <= l < g.len(),
            None => true,
        },
    decreases g.len() - lead, g.len() - i,
{
    if lead < g.len() {
        if i >= g.len() {
            lemma_find_pivot_range(g, r, lead + 1, r);
        } else if g[i][lead].eq_spec(F::zero_spec()) {
            lemma_find_pivot_range(g, r, lead, i + 1);
        }
    }
}

/// One step of the reduction keeps the companion times `m` equal to the
/// working matrix.
proof fn lemma_step_keeps_product<F: Float>(
    m: Seq<Seq<F>>,
    w: Seq<Seq<F>>,
    a: Seq<Seq<F>>,
    r: int,
    i: int,
    l: int,
)
    requires
        ring::is_exact::<F>(),
        elimination::is_square(m, m.len()),
        elimination::is_square(w, m.len()),
        elimination::is_square(a, m.len()),
        0 <= r < m.len(),
        0 <= i < m.len(),
        0 <= l < m.len(),
        product(a, m) == w,
    ensures
        ({
            let s = elimination::reduce_step(w, a, r, i, l);
            &&& elimination::is_square(s.0, m.len())
            &&& elimination::is_square(s.1, m.len())
            &&& product(s.1, m) == s.0
        }),
{
    let n = m.len() as int;
    let w1 = elimination::swapped_rows(w, i, r);
    let a1 = elimination::swapped_rows(a, i, r);
    let f = w1[r][l];
    let wr = elimination::divided_row(w1[r], f);
    let ar = elimination::divided_row(a1[r], f);
    let s = elimination::reduce_step(w, a, r, i, l);
    assert forall|j: int, c: int| 0 <= j < n && 0 <= c < n implies combination(a1[j], m, c, n)
        == #[trigger] w1[j][c] by {
        let from = if j == r {
            i
        } else if j == i {
            r
        } else {
            j
        };
        assert(a1[j] == a[from]);
        assert(w1[j] == w[from]);
        assert(product(a, m)[from][c] == combination(a[from], m, c, n));
    }
    assert forall|j: int, c: int| 0 <= j < n && 0 <= c < n implies #[trigger] product(s.1, m)[j][c]
        == s.0[j][c] by {
        lemma_combination_divided(a1[r], f, m, c, n);
        assert(combination(ar, m, c, n) == w1[r][c].div_spec(f));
        assert(wr[c] == w1[r][c].div_spec(f));
        if j != r {
            let g = w1[j][l];
            lemma_combination_cleared(a1[j], ar, g, m, c, n);
            assert(s.1[j] == elimination::cleared_row(a1[j], ar, g));
            assert(s.0[j][c] == w1[j][c].sub_spec(wr[c].mul_spec(g)));
        } else {
            assert(s.1[j] == ar);
            assert(s.0[j] == wr);
        }
    }
    assert(product(s.1, m) =~~= s.0);
}

/// Gauss-Jordan reduction keeps the companion times `m` equal to the
/// working matrix: if `a * m == w` when the reduction is taken up at row `r`
/// and column `lead`, then the same holds of what it ends with.
pub proof fn lemma_reduction_keeps_product<F: Float>(
    m: Seq<Seq<F>>,
    w: Seq<Seq<F>>,
    a: Seq<Seq<F>>,
    r: int,
    lead: int,
)
    requires
        ring::is_exact::<F>(),
        elimination::is_square(m, m.len()),
        elimination::is_square(w, m.len()),
        elimination::is_square(a, m.len()),
        0 <= r,
        0 <= lead,
        product(a, m) == w,
    ensures
        ({
            let s = elimination::reduced_from(w, a, r, lead);
            product(s.1, m) == s.0
        }),
    decreases m.len() - r,
{
    if r < w.len() && lead < w.len() {
        lemma_find_pivot_range(w, r, lead, r);
        match elimination::find_pivot(w, r, lead, r) {
            None => {},
            Some((i, l)) => {
                lemma_step_keeps_product(m, w, a, r, i, l);
                let s = elimination::reduce_step(w, a, r, i, l);
                lemma_reduction_keeps_product(m, s.0, s.1, r + 1, l + 1);
            },
        }
    }
}

/// Inversion is correct in exact arithmetic: what the reduction of `g`
/// beside the identity leaves in place of the identity, multiplied by `g`,
/// is what it leaves in place of `g`. In particular, whenever the reduction
/// turns `g` into the identity, the result of the inversion is a left inverse
/// of `g`.
pub proof fn lemma_inverse_is_left_inverse<F: Float>(g: Seq<Seq<F>>)
    requires
        ring::is_exact::<F>(),
        elimination::is_square(g, g.len()),
    ensures
        product(elimination::inverse_of(g), g) == elimination::reduced_from(
            g,
            elimination::identity_grid::<F>(g.len()),
            0,
            0,
        ).0,
        elimination::reduced_from(g, elimination::identity_grid::<F>(g.len()), 0, 0).0
            == elimination::identity_grid::<F>(g.len()) ==> product(
            elimination::inverse_of(g),
            g,
        ) == elimination::identity_grid::<F>(g.len()),
{
    lemma_identity_product(g);
    lemma_reduction_keeps_product(g, g, elimination::identity_grid::<F>(g.len()), 0, 0);
}

// ---- the inverse from the right

/// The sum of the first `k` entries, added up from the first, starting from
/// `0`.
spec fn total<F: Float>(s: Seq<F>, k: int) -> F
    decreases k,
{
    if k <= 0 {
        F::zero_spec()
    } else {
        total(s, k - 1).add_spec(s[k - 1])
    }
}

/// The products that a combination adds up.
spec fn terms<F: Float>(row: Seq<F>, m: Seq<Seq<F>>, c: int) -> Seq<F> {
    Seq::new(row.len(), |t: int| row[t].mul_spec(m[t][c]))
}

/// The sequence with the entries at `i` and `j` exchanged.
spec fn exchanged<F>(s: Seq<F>, i: int, j: int) -> Seq<F> {
    s.update(i, s[j]).update(j, s[i])
}

/// The sum of the products `row[t] * gs[t]` over `t < k` other than `r`.
spec fn weighted<F: Float>(row: Seq<F>, gs: Seq<F>, r: int, k: int) -> F
    decreases k,
{
    if k <= 0 {
        F::zero_spec()
    } else if k - 1 == r {
        weighted(row, gs, r, k - 1)
    } else {
        weighted(row, gs, r, k - 1).add_spec(row[k - 1].mul_spec(gs[k - 1]))
    }
}

/// The row operation of one step of the reduction, on any matrix: rows `i`
/// and `r` are exchanged, row `r` is divided by `f`, and from every other
/// row `j` the new row `r` times `gs[j]` is subtracted.
spec fn row_operation<F: Float>(x: Seq<Seq<F>>, i: int, r: int, f: F, gs: Seq<F>) -> Seq<Seq<F>> {
    let x1 = elimination::swapped_rows(x, i, r);
    let xr = elimination::divided_row(x1[r], f);
    Seq::new(
        x.len(),
        |j: int|
            if j == r {
                xr
            } else {
                elimination::cleared_row(x1[j], xr, gs[j])
            },
    )
}

/// What undoes [`row_operation`] from the other side, on one row of the
/// matrix that is multiplied from the left: entries `i` and `r` are
/// exchanged, and entry `r` becomes `f` times itself plus the other entries
/// weighted by `gs`.
spec fn undone_row<F: Float>(row: Seq<F>, i: int, r: int, f: F, gs: Seq<F>) -> Seq<F> {
    let s = exchanged(row, i, r);
    s.update(r, s[r].mul_spec(f).add_spec(weighted(s, gs, r, s.len() as int)))
}

/// [`undone_row`] on every row.
spec fn column_operation<F: Float>(b: Seq<Seq<F>>, i: int, r: int, f: F, gs: Seq<F>) -> Seq<
    Seq<F>,
> {
    Seq::new(b.len(), |t: int| undone_row(b[t], i, r, f, gs))
}

/// A combination is the total of its terms.
proof fn lemma_combination_total<F: Float>(row: Seq<F>, m: Seq<Seq<F>>, c: int, k: int)
    requires
        0 <= k <= row.len(),
    ensures
        combination(row, m, c, k) == total(terms(row, m, c), k),
    decreases k,
{
    if k > 0 {
        lemma_combination_total(row, m, c, k - 1);
    }
}

/// One entry can be taken out of a total and added at the end.
proof fn lemma_total_extract<F: Float>(s: Seq<F>, i: int, k: int)
    requires
        ring::is_exact::<F>(),
        0 <= i < s.len(),
        0 <= k <= s.len(),
    ensures
        total(s, k) == total(s.update(i, F::zero_spec()), k).add_spec(
            if i < k {
                s[i]
            } else {
                F::zero_spec()
            },
        ),
    decreases k,
{
    let z = F::zero_spec();
    let s0 = s.update(i, z);
    if k > 0 {
        lemma_total_extract(s, i, k - 1);
        let t = total(s0, k - 1);
        if i == k - 1 {
            ring::add_zero(t);
        } else if i < k - 1 {
            ring::add_swap(t, s[i], s[k - 1]);
        } else {
            ring::add_zero(t);
            ring::add_zero(t.add_spec(s[k - 1]));
        }
    } else {
        ring::add_zero(z);
    }
}

/// Exchanging two entries does not change the total.
proof fn lemma_total_exchanged<F: Float>(s: Seq<F>, i: int, j: int)
    requires
        ring::is_exact::<F>(),
        0 <= i < s.len(),
        0 <= j < s.len(),
    ensures
        total(exchanged(s, i, j), s.len() as int) == total(s, s.len() as int),
{
    let n = s.len() as int;
    let z = F::zero_spec();
    let e = exchanged(s, i, j);
    if i == j {
        assert(e =~= s);
    } else {
        lemma_total_extract(s, i, n);
        lemma_total_extract(s.update(i, z), j, n);
        lemma_total_extract(e, i, n);
        lemma_total_extract(e.update(i, z), j, n);
        assert(e.update(i, z).update(j, z) =~= s.update(i, z).update(j, z));
        let t = total(s.update(i, z).update(j, z), n);
        ring::add_swap(t, s[j], s[i]);
    }
}

/// Exchanging two entries of the row and the same two rows of the matrix
/// does not change the combination.
proof fn lemma_combination_exchanged<F: Float>(row: Seq<F>, x: Seq<Seq<F>>, i: int, j: int, c: int)
    requires
        ring::is_exact::<F>(),
        row.len() == x.len(),
        0 <= i < row.len(),
        0 <= j < row.len(),
    ensures
        combination(exchanged(row, i, j), elimination::swapped_rows(x, i, j), c, row.len() as int)
            == combination(row, x, c, row.len() as int),
{
    let n = row.len() as int;
    let r1 = exchanged(row, i, j);
    let x1 = elimination::swapped_rows(x, i, j);
    lemma_combination_total(row, x, c, n);
    lemma_combination_total(r1, x1, c, n);
    let e = exchanged(terms(row, x, c), i, j);
    assert forall|t: int| 0 <= t < n implies #[trigger] terms(r1, x1, c)[t] == e[t] by {
        let from = if t == j {
            i
        } else if t == i {
            j
        } else {
            t
        };
        assert(r1[t] == row[from]);
        assert(x1[t] == x[from]);
        assert(e[t] == terms(row, x, c)[from]);
    }
    assert(terms(r1, x1, c) =~= e);
    lemma_total_exchanged(terms(row, x, c), i, j);
}

/// `((q - r y) + e) + b (x - y g) == ((q + b x) - (r + b g) y) + e`.
proof fn lemma_undo_other<F: Float>(q: F, r: F, y: F, e: F, b: F, x: F, g: F)
    requires
        ring::is_exact::<F>(),
    ensures
        q.sub_spec(r.mul_spec(y)).add_spec(e).add_spec(b.mul_spec(x.sub_spec(y.mul_spec(g))))
            == q.add_spec(b.mul_spec(x)).sub_spec(r.add_spec(b.mul_spec(g)).mul_spec(y)).add_spec(e),
{
    let u = b.mul_spec(x);
    let v = b.mul_spec(g).mul_spec(y);
    let z = r.mul_spec(y);
    // b (x - y g) == u - v
    ring::mul_sub(b, x, y.mul_spec(g));
    ring::mul_comm(y, g);
    ring::mul_assoc(b, g, y);
    // (r + b g) y == z + v
    ring::distrib(y, r, b.mul_spec(g));
    ring::sub_add_sub(q, z, u, v);
    ring::add_swap(q.sub_spec(z), e, u.sub_spec(v));
}

/// `((q - z) + 0) + (b f + g) y == ((q + b x) - z) + g y` where `f y == x`.
proof fn lemma_undo_pivot<F: Float>(q: F, z: F, b: F, f: F, g: F, y: F, x: F)
    requires
        ring::is_exact::<F>(),
        f.mul_spec(y) == x,
    ensures
        q.sub_spec(z).add_spec(F::zero_spec()).add_spec(b.mul_spec(f).add_spec(g).mul_spec(y))
            == q.add_spec(b.mul_spec(x)).sub_spec(z).add_spec(g.mul_spec(y)),
{
    let u = b.mul_spec(x);
    let w = g.mul_spec(y);
    let nz = z.neg_spec();
    ring::add_zero(q.sub_spec(z));
    ring::distrib(y, b.mul_spec(f), g);
    ring::mul_assoc(b, f, y);
    ring::sub_def(q, z);
    ring::sub_def(q.add_spec(u), z);
    // (q + nz) + (u + w) == ((q + u) + nz) + w
    ring::add_assoc(q.add_spec(nz), u, w);
    ring::add_swap(q, nz, u);
}

/// The row operation on the right factor and its undoing on the left factor
/// cancel, entry by entry: the combination of the undone row with the
/// operated matrix, taken up to `k`, is that of the exchanged row with the
/// exchanged matrix, corrected by the weights taken so far.
proof fn lemma_undo_partial<F: Float>(
    row: Seq<F>,
    x: Seq<Seq<F>>,
    i: int,
    r: int,
    f: F,
    gs: Seq<F>,
    c: int,
    k: int,
)
    requires
        ring::is_exact_field::<F>(),
        elimination::is_square(x, x.len()),
        row.len() == x.len(),
        gs.len() == x.len(),
        0 <= i < x.len(),
        0 <= r < x.len(),
        0 <= c < x.len(),
        0 <= k <= x.len(),
        f != F::zero_spec(),
    ensures
        ({
            let s = exchanged(row, i, r);
            let x1 = elimination::swapped_rows(x, i, r);
            let y = x1[r][c].div_spec(f);
            let g = weighted(s, gs, r, x.len() as int);
            combination(undone_row(row, i, r, f, gs), row_operation(x, i, r, f, gs), c, k)
                == combination(s, x1, c, k).sub_spec(weighted(s, gs, r, k).mul_spec(y)).add_spec(
                if r < k {
                    g.mul_spec(y)
                } else {
                    F::zero_spec()
                },
            )
        }),
    decreases k,
{
    ring::field_is_ring::<F>();
    let n = x.len() as int;
    let s = exchanged(row, i, r);
    let x1 = elimination::swapped_rows(x, i, r);
    let y = x1[r][c].div_spec(f);
    let g = weighted(s, gs, r, n);
    let u = undone_row(row, i, r, f, gs);
    let o = row_operation(x, i, r, f, gs);
    let z = F::zero_spec();
    if k > 0 {
        lemma_undo_partial(row, x, i, r, f, gs, c, k - 1);
        let t = k - 1;
        let q = combination(s, x1, c, t);
        let w = weighted(s, gs, r, t);
        if t == r {
            assert(u[t] == s[r].mul_spec(f).add_spec(g));
            assert(o[t][c] == y);
            ring::mul_div_cancel(f, x1[r][c]);
            lemma_undo_pivot(q, w.mul_spec(y), s[r], f, g, y, x1[r][c]);
        } else {
            assert(u[t] == s[t]);
            assert(o[t][c] == x1[t][c].sub_spec(y.mul_spec(gs[t])));
            let e = if r < t {
                g.mul_spec(y)
            } else {
                z
            };
            lemma_undo_other(q, w, y, e, s[t], x1[t][c], gs[t]);
        }
    } else {
        ring::mul_zero(y);
        ring::sub_def(z, z);
        ring::add_neg(z);
        ring::add_zero(z);
    }
}

/// The row operation on the right factor and its undoing on the left factor
/// cancel: the product stays what it was.
proof fn lemma_undo_cancels<F: Float>(
    b: Seq<Seq<F>>,
    x: Seq<Seq<F>>,
    i: int,
    r: int,
    f: F,
    gs: Seq<F>,
)
    requires
        ring::is_exact_field::<F>(),
        elimination::is_square(x, x.len()),
        elimination::is_square(b, x.len()),
        gs.len() == x.len(),
        0 <= i < x.len(),
        0 <= r < x.len(),
        f != F::zero_spec(),
    ensures
        product(column_operation(b, i, r, f, gs), row_operation(x, i, r, f, gs)) == product(b, x),
{
    ring::field_is_ring::<F>();
    let n = x.len() as int;
    let b2 = column_operation(b, i, r, f, gs);
    let x2 = row_operation(x, i, r, f, gs);
    assert forall|t: int, c: int| 0 <= t < n && 0 <= c < n implies #[trigger] product(b2, x2)[t][c]
        == product(b, x)[t][c] by {
        let s = exchanged(b[t], i, r);
        let x1 = elimination::swapped_rows(x, i, r);
        let y = x1[r][c].div_spec(f);
        let g = weighted(s, gs, r, n);
        lemma_undo_partial(b[t], x, i, r, f, gs, c, n);
        ring::sub_add(combination(s, x1, c, n), g.mul_spec(y));
        lemma_combination_exchanged(b[t], x, i, r, c);
    }
    assert(product(b2, x2) =~~= product(b, x));
}

/// The identity is neutral on the right.
proof fn lemma_combination_with_unit<F: Float>(row: Seq<F>, n: nat, c: int, k: int)
    requires
        ring::is_exact::<F>(),
        row.len() == n,
        0 <= c < n,
        0 <= k <= n,
    ensures
        combination(row, elimination::identity_grid::<F>(n), c, k) == (if c < k {
            row[c]
        } else {
            F::zero_spec()
        }),
    decreases k,
{
    if k > 0 {
        let id = elimination::identity_grid::<F>(n);
        lemma_combination_with_unit(row, n, c, k - 1);
        let x = row[k - 1];
        if c == k - 1 {
            ring::mul_one(x);
            ring::add_zero(x);
        } else {
            ring::mul_zero(x);
            ring::add_zero(combination(row, id, c, k - 1));
        }
    }
}

/// The identity is neutral on the right.
pub proof fn lemma_product_identity<F: Float>(m: Seq<Seq<F>>)
    requires
        ring::is_exact::<F>(),
        elimination::is_square(m, m.len()),
    ensures
        product(m, elimination::identity_grid::<F>(m.len())) == m,
{
    let n = m.len();
    let p = product(m, elimination::identity_grid::<F>(n));
    assert forall|i: int, c: int| 0 <= i < n && 0 <= c < n implies #[trigger] p[i][c]
        == m[i][c] by {
        lemma_combination_with_unit(m[i], n, c, n as int);
    }
    assert(p =~~= m);
}

/// The entry that the pivot search settles on is not equal to `0`.
proof fn lemma_find_pivot_nonzero<F: Float>(g: Seq<Seq<F>>, r: int, lead: int, i: int)
    requires
        0 <= r <= i,
        0 <= lead,
    ensures
        match elimination::find_pivot(g, r, lead, i) {
            Some((p, l)) => !g[p][l].eq_spec(F::zero_spec()),
            None => true,
        },
    decreases g.len() - lead, g.len() - i,
{
    if lead < g.len() {
        if i >= g.len() {
            lemma_find_pivot_nonzero(g, r, lead + 1, r);
        } else if g[i][lead].eq_spec(F::zero_spec()) {
            lemma_find_pivot_nonzero(g, r, lead, i + 1);
        }
    }
}

/// Gauss-Jordan reduction, taken up at row `r` and column `lead` with a
/// matrix `b` for which `b * w == m` and `b * a` is the identity: if it ends
/// with the identity in place of `w`, it ends with a right inverse of `m` in
/// place of `a`.
proof fn lemma_reduction_right<F: Float>(
    m: Seq<Seq<F>>,
    w: Seq<Seq<F>>,
    a: Seq<Seq<F>>,
    b: Seq<Seq<F>>,
    r: int,
    lead: int,
)
    requires
        ring::is_exact_field::<F>(),
        elimination::is_square(m, m.len()),
        elimination::is_square(w, m.len()),
        elimination::is_square(a, m.len()),
        elimination::is_square(b, m.len()),
        0 <= r,
        0 <= lead,
        product(b, w) == m,
        product(b, a) == elimination::identity_grid::<F>(m.len()),
    ensures
        ({
            let s = elimination::reduced_from(w, a, r, lead);
            s.0 == elimination::identity_grid::<F>(m.len()) ==> product(m, s.1)
                == elimination::identity_grid::<F>(m.len())
        }),
    decreases m.len() - r,
{
    ring::field_is_ring::<F>();
    let n = m.len();
    let done = elimination::reduced_from(w, a, r, lead);
    if r < n && lead < n && elimination::find_pivot(w, r, lead, r) is Some {
        let (i, l) = elimination::find_pivot(w, r, lead, r).unwrap();
        lemma_find_pivot_range(w, r, lead, r);
        lemma_find_pivot_nonzero(w, r, lead, r);
        let w1 = elimination::swapped_rows(w, i, r);
        let f = w1[r][l];
        let gs = Seq::new(n, |t: int| w1[t][l]);
        assert(w1[r] == w[i]);
        ring::eq_is_equality(f, F::zero_spec());
        let s = elimination::reduce_step(w, a, r, i, l);
        assert(s.0 =~~= row_operation(w, i, r, f, gs));
        assert(s.1 =~~= row_operation(a, i, r, f, gs));
        lemma_undo_cancels(b, w, i, r, f, gs);
        lemma_undo_cancels(b, a, i, r, f, gs);
        lemma_reduction_right(m, s.0, s.1, column_operation(b, i, r, f, gs), r + 1, l + 1);
    } else {
        assert(done == (w, a));
        if w == elimination::identity_grid::<F>(n) {
            lemma_product_identity(b);
        }
    }
}

/// Inversion is correct in exact arithmetic, from the right as well:
/// whenever the reduction of `g` beside the identity turns `g` into the
/// identity, `g` multiplied by the result of the inversion is the identity.
pub proof fn lemma_inverse_is_right_inverse<F: Float>(g: Seq<Seq<F>>)
    requires
        ring::is_exact_field::<F>(),
        elimination::is_square(g, g.len()),
        elimination::reduced_from(g, elimination::identity_grid::<F>(g.len()), 0, 0).0
            == elimination::identity_grid::<F>(g.len()),
    ensures
        product(g, elimination::inverse_of(g)) == elimination::identity_grid::<F>(g.len()),
{
    ring::field_is_ring::<F>();
    let id = elimination::identity_grid::<F>(g.len());
    lemma_identity_product(g);
    lemma_identity_product(id);
    lemma_reduction_right(g, g, id, id, 0, 0);
}

// ---- an invertible matrix is reduced to the identity

/// A vector as a matrix of one column.
spec fn as_column<F>(v: Seq<F>) -> Seq<Seq<F>> {
    Seq::new(v.len(), |t: int| seq![v[t]])
}

/// Whether the first `r` columns are those of the identity.
spec fn unit_columns<F: Float>(w: Seq<Seq<F>>, r: int) -> bool {
    forall|t: int, c: int|
        0 <= t < w.len() && 0 <= c < r ==> #[trigger] w[t][c] == (if t == c {
            F::one_spec()
        } else {
            F::zero_spec()
        })
}

/// The row `x + a * y`.
spec fn row_plus<F: Float>(x: Seq<F>, a: F, y: Seq<F>) -> Seq<F> {
    Seq::new(x.len(), |k: int| x[k].add_spec(a.mul_spec(y[k])))
}

/// A combination is linear in the row.
proof fn lemma_combination_linear<F: Float>(
    x: Seq<F>,
    a: F,
    y: Seq<F>,
    m: Seq<Seq<F>>,
    c: int,
    k: int,
)
    requires
        ring::is_exact::<F>(),
        0 <= k <= x.len(),
    ensures
        combination(row_plus(x, a, y), m, c, k) == combination(x, m, c, k).add_spec(
            a.mul_spec(combination(y, m, c, k)),
        ),
    decreases k,
{
    if k > 0 {
        lemma_combination_linear(x, a, y, m, c, k - 1);
        ring::linear_step(
            combination(x, m, c, k - 1),
            a,
            combination(y, m, c, k - 1),
            x[k - 1],
            y[k - 1],
            m[k - 1][c],
        );
    } else {
        let z = F::zero_spec();
        ring::mul_zero(a);
        ring::add_zero(z);
    }
}

/// The first `j` terms of a row of the product `d * w`.
spec fn partial_row<F: Float>(d: Seq<F>, w: Seq<Seq<F>>, j: int) -> Seq<F> {
    Seq::new(w.len(), |k: int| combination(d, w, k, j))
}

/// A vector that every row of `w` annihilates is annihilated by every row
/// of a product `d * w`.
proof fn lemma_product_annihilates<F: Float>(d: Seq<F>, w: Seq<Seq<F>>, v: Seq<F>, j: int)
    requires
        ring::is_exact::<F>(),
        elimination::is_square(w, w.len()),
        d.len() == w.len(),
        v.len() == w.len(),
        0 <= j <= w.len(),
        forall|t: int|
            0 <= t < w.len() ==> combination(#[trigger] w[t], as_column(v), 0, w.len() as int)
                == F::zero_spec(),
    ensures
        combination(partial_row(d, w, j), as_column(v), 0, w.len() as int) == F::zero_spec(),
    decreases j,
{
    let n = w.len() as int;
    let z = F::zero_spec();
    let col = as_column(v);
    if j > 0 {
        lemma_product_annihilates(d, w, v, j - 1);
        let x = partial_row(d, w, j - 1);
        assert(partial_row(d, w, j) =~= row_plus(x, d[j - 1], w[j - 1]));
        lemma_combination_linear(x, d[j - 1], w[j - 1], col, 0, n);
        ring::mul_zero(d[j - 1]);
        ring::add_zero(z);
    } else {
        let x = partial_row(d, w, 0);
        assert(x =~= row_plus(x, z, x)) by {
            assert forall|k: int| 0 <= k < n implies x[k] == #[trigger] row_plus(x, z, x)[k] by {
                ring::mul_zero(z);
                ring::add_zero(z);
            }
        }
        // the zero row combines to zero with anything
        lemma_zero_row(x, col, 0, n);
    }
}

/// A row of zeros combines to `0`.
proof fn lemma_zero_row<F: Float>(x: Seq<F>, m: Seq<Seq<F>>, c: int, k: int)
    requires
        ring::is_exact::<F>(),
        0 <= k <= x.len(),
        forall|t: int| 0 <= t < x.len() ==> #[trigger] x[t] == F::zero_spec(),
    ensures
        combination(x, m, c, k) == F::zero_spec(),
    decreases k,
{
    if k > 0 {
        lemma_zero_row(x, m, c, k - 1);
        ring::mul_zero(m[k - 1][c]);
        ring::add_zero(F::zero_spec());
    }
}

/// A row of a product `d * w`, taken up to its first `j` terms and combined
/// with a column of `m`, is the combination of the first `j` entries of `d`
/// with that column of `w * m`.
proof fn lemma_product_regrouped<F: Float>(
    d: Seq<F>,
    w: Seq<Seq<F>>,
    m: Seq<Seq<F>>,
    c: int,
    j: int,
)
    requires
        ring::is_exact::<F>(),
        elimination::is_square(w, w.len()),
        elimination::is_square(m, w.len()),
        d.len() == w.len(),
        0 <= c < w.len(),
        0 <= j <= w.len(),
    ensures
        combination(partial_row(d, w, j), m, c, w.len() as int) == combination(
            d,
            product(w, m),
            c,
            j,
        ),
    decreases j,
{
    let n = w.len() as int;
    let z = F::zero_spec();
    if j > 0 {
        lemma_product_regrouped(d, w, m, c, j - 1);
        let x = partial_row(d, w, j - 1);
        assert(partial_row(d, w, j) =~= row_plus(x, d[j - 1], w[j - 1]));
        lemma_combination_linear(x, d[j - 1], w[j - 1], m, c, n);
        assert(product(w, m)[j - 1][c] == combination(w[j - 1], m, c, n));
    } else {
        lemma_zero_row(partial_row(d, w, 0), m, c, n);
    }
}

/// In exact arithmetic the product of matrices is associative.
pub proof fn lemma_product_associative<F: Float>(a: Seq<Seq<F>>, b: Seq<Seq<F>>, c: Seq<Seq<F>>)
    requires
        ring::is_exact::<F>(),
        elimination::is_square(a, a.len()),
        elimination::is_square(b, a.len()),
        elimination::is_square(c, a.len()),
    ensures
        product(product(a, b), c) == product(a, product(b, c)),
{
    let n = a.len() as int;
    let l = product(product(a, b), c);
    let r = product(a, product(b, c));
    assert forall|i: int, j: int| 0 <= i < n && 0 <= j < n implies #[trigger] l[i][j]
        == r[i][j] by {
        lemma_product_regrouped(a[i], b, c, j, n);
        assert(partial_row(a[i], b, n) =~= product(a, b)[i]);
    }
    assert(l =~~= r);
}

/// The vector that shows a matrix to be singular when column `r` has no
/// pivot: minus column `r` above row `r`, `1` in row `r`, `0` below.
spec fn kernel_vector<F: Float>(w: Seq<Seq<F>>, r: int) -> Seq<F> {
    Seq::new(
        w.len(),
        |k: int|
            if k < r {
                w[k][r].neg_spec()
            } else if k == r {
                F::one_spec()
            } else {
                F::zero_spec()
            },
    )
}

/// Where the first `r` columns are unit columns and column `r` is `0` from
/// row `r` down, every row annihilates the kernel vector.
proof fn lemma_kernel_partial<F: Float>(w: Seq<Seq<F>>, r: int, t: int, k: int)
    requires
        ring::is_exact::<F>(),
        elimination::is_square(w, w.len()),
        0 <= r < w.len(),
        0 <= t < w.len(),
        0 <= k <= w.len(),
        unit_columns(w, r),
        forall|i: int| r <= i < w.len() ==> (#[trigger] w[i])[r] == F::zero_spec(),
    ensures
        combination(w[t], as_column(kernel_vector(w, r)), 0, k) == (if t < r && t < k {
            w[t][r].neg_spec()
        } else {
            F::zero_spec()
        }).add_spec(
            if r < k {
                w[t][r]
            } else {
                F::zero_spec()
            },
        ),
    decreases k,
{
    let z = F::zero_spec();
    let v = kernel_vector(w, r);
    let col = as_column(v);
    if k > 0 {
        lemma_kernel_partial(w, r, t, k - 1);
        let c = k - 1;
        let before = combination(w[t], col, 0, c);
        assert(col[c][0] == v[c]);
        if c < r {
            if c == t {
                ring::mul_one(v[c]);
                ring::add_zero(z);
                ring::add_zero(v[c]);
            } else {
                assert(w[t][c] == z);
                ring::mul_zero(v[c]);
                ring::add_zero(before);
            }
        } else if c == r {
            ring::mul_one(w[t][r]);
            let a = if t < r {
                w[t][r].neg_spec()
            } else {
                z
            };
            ring::add_zero(a);
        } else {
            ring::mul_zero(w[t][c]);
            ring::add_zero(before);
        }
    } else {
        ring::add_zero(z);
    }
}

/// A matrix with a left inverse whose first `r` columns are unit columns has
/// an entry other than `0` in column `r`, in row `r` or below.
proof fn lemma_column_has_pivot<F: Float>(w: Seq<Seq<F>>, d: Seq<Seq<F>>, r: int)
    requires
        ring::is_exact_field::<F>(),
        elimination::is_square(w, w.len()),
        elimination::is_square(d, w.len()),
        product(d, w) == elimination::identity_grid::<F>(w.len()),
        unit_columns(w, r),
        0 <= r < w.len(),
    ensures
        exists|i: int| r <= i < w.len() && (#[trigger] w[i])[r] != F::zero_spec(),
{
    ring::field_is_ring::<F>();
    ring::one_is_not_zero::<F>();
    let n = w.len() as int;
    let z = F::zero_spec();
    if forall|i: int| r <= i < n ==> (#[trigger] w[i])[r] == z {
        let v = kernel_vector(w, r);
        let col = as_column(v);
        assert forall|t: int| 0 <= t < n implies combination(#[trigger] w[t], col, 0, n) == z by {
            lemma_kernel_partial(w, r, t, n);
            if t < r {
                ring::add_neg(w[t][r]);
            } else {
                ring::add_zero(z);
            }
        }
        lemma_product_annihilates(d[r], w, v, n);
        assert(partial_row(d[r], w, n) =~= product(d, w)[r]);
        lemma_combination_unit(n as nat, r, col, 0, n);
        assert(col[r][0] == v[r]);
        assert(false);
    }
}

/// Where some row from `i` on has an entry other than `0` in column `lead`,
/// the pivot search from row `i` of that column finds its pivot in that
/// column.
proof fn lemma_find_pivot_in_column<F: Float>(g: Seq<Seq<F>>, r: int, lead: int, i: int, t: int)
    requires
        0 <= lead < g.len(),
        0 <= i <= t < g.len(),
        !g[t][lead].eq_spec(F::zero_spec()),
    ensures
        elimination::find_pivot(g, r, lead, i) is Some,
        elimination::find_pivot(g, r, lead, i).unwrap().1 == lead,
    decreases g.len() - i,
{
    if g[i][lead].eq_spec(F::zero_spec()) {
        lemma_find_pivot_in_column(g, r, lead, i + 1, t);
    }
}

/// One step of the reduction with the pivot in the column of the target
/// row makes that column a unit column and keeps the unit columns before it.
proof fn lemma_step_unit_columns<F: Float>(w: Seq<Seq<F>>, a: Seq<Seq<F>>, r: int, i: int)
    requires
        ring::is_exact_field::<F>(),
        elimination::is_square(w, w.len()),
        0 <= r <= i < w.len(),
        unit_columns(w, r),
        w[i][r] != F::zero_spec(),
    ensures
        unit_columns(elimination::reduce_step(w, a, r, i, r).0, r + 1),
{
    ring::field_is_ring::<F>();
    let n = w.len() as int;
    let z = F::zero_spec();
    let w1 = elimination::swapped_rows(w, i, r);
    let f = w1[r][r];
    let wr = elimination::divided_row(w1[r], f);
    let s = elimination::reduce_step(w, a, r, i, r).0;
    assert(w1[r] == w[i]);
    assert forall|t: int, c: int| 0 <= t < n && 0 <= c < r + 1 implies #[trigger] s[t][c] == (if t
        == c {
        F::one_spec()
    } else {
        z
    }) by {
        let from = if t == r {
            i
        } else if t == i {
            r
        } else {
            t
        };
        assert(w1[t] == w[from]);
        if c == r {
            ring::div_self(f);
            if t != r {
                ring::sub_one_mul(w1[t][r]);
            }
        } else {
            // both exchanged rows lie at or below row r, where the columns before r are 0
            assert(w1[r][c] == z);
            ring::zero_div(f);
            if t != r {
                assert(w1[t][c] == w[t][c]) by {
                    if t == i {
                        assert(w[r][c] == z);
                        assert(w[i][c] == z);
                    }
                }
                ring::sub_zero_mul(w1[t][c], w1[t][r]);
            }
        }
    }
}

/// Gauss-Jordan reduction of a matrix with a left inverse, taken up at row
/// `r` with the first `r` columns already unit columns, ends with the
/// identity in place of the working matrix.
proof fn lemma_reduction_completes<F: Float>(
    w: Seq<Seq<F>>,
    a: Seq<Seq<F>>,
    d: Seq<Seq<F>>,
    r: int,
)
    requires
        ring::is_exact_field::<F>(),
        elimination::is_square(w, w.len()),
        elimination::is_square(a, w.len()),
        elimination::is_square(d, w.len()),
        product(d, w) == elimination::identity_grid::<F>(w.len()),
        unit_columns(w, r),
        0 <= r <= w.len(),
    ensures
        elimination::reduced_from(w, a, r, r).0 == elimination::identity_grid::<F>(w.len()),
    decreases w.len() - r,
{
    ring::field_is_ring::<F>();
    let n = w.len();
    if r < n {
        lemma_column_has_pivot(w, d, r);
        let t = choose|t: int| r <= t < n && (#[trigger] w[t])[r] != F::zero_spec();
        ring::eq_is_equality(w[t][r], F::zero_spec());
        lemma_find_pivot_in_column(w, r, r, r, t);
        lemma_find_pivot_range(w, r, r, r);
        lemma_find_pivot_nonzero(w, r, r, r);
        let (i, l) = elimination::find_pivot(w, r, r, r).unwrap();
        ring::eq_is_equality(w[i][r], F::zero_spec());
        let w1 = elimination::swapped_rows(w, i, r);
        let f = w1[r][r];
        let gs = Seq::new(n, |t: int| w1[t][r]);
        assert(w1[r] == w[i]);
        let s = elimination::reduce_step(w, a, r, i, r);
        assert(s.0 =~~= row_operation(w, i, r, f, gs));
        lemma_undo_cancels(d, w, i, r, f, gs);
        lemma_step_unit_columns(w, a, r, i);
        lemma_step_keeps_square(w, a, r, i, r);
        lemma_reduction_completes(s.0, s.1, column_operation(d, i, r, f, gs), r + 1);
    } else {
        assert(w =~~= elimination::identity_grid::<F>(n));
    }
}

/// One step of the reduction keeps both matrices square.
proof fn lemma_step_keeps_square<F: Float>(w: Seq<Seq<F>>, a: Seq<Seq<F>>, r: int, i: int, l: int)
    requires
        elimination::is_square(w, w.len()),
        elimination::is_square(a, w.len()),
        0 <= r < w.len(),
        0 <= i < w.len(),
    ensures
        elimination::is_square(elimination::reduce_step(w, a, r, i, l).0, w.len()),
        elimination::is_square(elimination::reduce_step(w, a, r, i, l).1, w.len()),
{
}

/// The reduction keeps both matrices square.
pub proof fn lemma_reduction_keeps_square<F: Float>(
    w: Seq<Seq<F>>,
    a: Seq<Seq<F>>,
    r: int,
    lead: int,
)
    requires
        elimination::is_square(w, w.len()),
        elimination::is_square(a, w.len()),
        0 <= r,
        0 <= lead,
    ensures
        elimination::is_square(elimination::reduced_from(w, a, r, lead).0, w.len()),
        elimination::is_square(elimination::reduced_from(w, a, r, lead).1, w.len()),
    decreases w.len() - r,
{
    if r < w.len() && lead < w.len() {
        lemma_find_pivot_range(w, r, lead, r);
        match elimination::find_pivot(w, r, lead, r) {
            None => {},
            Some((i, l)) => {
                lemma_step_keeps_square(w, a, r, i, l);
                let s = elimination::reduce_step(w, a, r, i, l);
                lemma_reduction_keeps_square(s.0, s.1, r + 1, l + 1);
            },
        }
    }
}

/// Inversion is correct in exact arithmetic. A matrix `g` that has a left
/// inverse `c` is turned into the identity by the reduction, and the result
/// of the inversion is its inverse from both sides. There is no other: the
/// result is `c`.
pub proof fn lemma_inverse_of_invertible<F: Float>(g: Seq<Seq<F>>, c: Seq<Seq<F>>)
    requires
        ring::is_exact_field::<F>(),
        elimination::is_square(g, g.len()),
        elimination::is_square(c, g.len()),
        product(c, g) == elimination::identity_grid::<F>(g.len()),
    ensures
        elimination::reduced_from(g, elimination::identity_grid::<F>(g.len()), 0, 0).0
            == elimination::identity_grid::<F>(g.len()),
        product(elimination::inverse_of(g), g) == elimination::identity_grid::<F>(g.len()),
        product(g, elimination::inverse_of(g)) == elimination::identity_grid::<F>(g.len()),
        elimination::inverse_of(g) == c,
{
    ring::field_is_ring::<F>();
    let id = elimination::identity_grid::<F>(g.len());
    let a = elimination::inverse_of(g);
    lemma_reduction_completes(g, id, c, 0);
    lemma_inverse_is_left_inverse(g);
    lemma_inverse_is_right_inverse(g);
    // c == c (g a) == (c g) a == a
    lemma_reduction_keeps_square(g, id, 0, 0);
    lemma_product_associative(c, g, a);
    lemma_product_identity(c);
    lemma_identity_product(a);
}

} // verus!
