//! The laws of exact arithmetic.
//!
//! The contracts of this crate assume nothing of the arithmetic of the
//! scalar, and floating-point arithmetic obeys none of the laws of a field
//! exactly. What the algorithms compute when the arithmetic *is* exact is a
//! question of its own, and this module states the hypothesis under which it
//! is answered: [`is_exact`] collects the laws of a commutative ring in which
//! division multiplies by the reciprocal, [`is_exact_field`] adds that
//! reciprocals are inverses. The laws are kept opaque and are applied one
//! instance at a time, by the lemmas below.

use vstd::prelude::*;
use crate::float::Float;

verus! {

/// The laws of exact arithmetic: addition and multiplication form a
/// commutative ring with `0` and `1`, subtraction adds the negation, and
/// division multiplies by the reciprocal.
#[verifier::opaque]
pub open spec fn is_exact<F: Float>() -> bool {
    &&& forall|a: F, b: F| #[trigger] a.add_spec(b) == b.add_spec(a)
    &&& forall|a: F, b: F, c: F| #[trigger]
        a.add_spec(b).add_spec(c) == a.add_spec(b.add_spec(c))
    &&& forall|a: F| #[trigger] a.add_spec(F::zero_spec()) == a
    &&& forall|a: F| #[trigger] a.add_spec(a.neg_spec()) == F::zero_spec()
    &&& forall|a: F, b: F| #[trigger] a.sub_spec(b) == a.add_spec(b.neg_spec())
    &&& forall|a: F, b: F| #[trigger] a.mul_spec(b) == b.mul_spec(a)
    &&& forall|a: F, b: F, c: F| #[trigger]
        a.mul_spec(b).mul_spec(c) == a.mul_spec(b.mul_spec(c))
    &&& forall|a: F| #[trigger] a.mul_spec(F::one_spec()) == a
    &&& forall|a: F, b: F, c: F| #[trigger]
        a.mul_spec(b.add_spec(c)) == a.mul_spec(b).add_spec(a.mul_spec(c))
    &&& forall|a: F, b: F| #[trigger] a.div_spec(b) == a.mul_spec(F::one_spec().div_spec(b))
}

/// The laws of a field, beyond those of [`is_exact`]: numeric equality is
/// equality, a number other than `0` times its reciprocal is `1`, and `1` is
/// not `0`.
#[verifier::opaque]
pub open spec fn is_exact_field<F: Float>() -> bool {
    &&& is_exact::<F>()
    &&& forall|a: F, b: F| #[trigger] a.eq_spec(b) == (a == b)
    &&& forall|a: F|
        a != F::zero_spec() ==> #[trigger] a.mul_spec(F::one_spec().div_spec(a)) == F::one_spec()
    &&& F::one_spec() != F::zero_spec()
}

/// Whether the elementary functions are exact on the unit circle: the
/// cosine and the sine of the angle of a point of the unit circle are the
/// coordinates of the point.
pub open spec fn circle_is_exact<F: Float>() -> bool {
    forall|a: F, b: F|
        a.mul_spec(a).add_spec(b.mul_spec(b)) == F::one_spec() ==> (#[trigger] b.atan2_spec(
            a,
        )).cos_spec() == a && b.atan2_spec(a).sin_spec() == b
}

// ---- the laws, one instance at a time

/// A field is a ring.
pub proof fn field_is_ring<F: Float>()
    requires
        is_exact_field::<F>(),
    ensures
        is_exact::<F>(),
{
    reveal(is_exact_field);
}

/// `1` is not `0`.
pub proof fn one_is_not_zero<F: Float>()
    requires
        is_exact_field::<F>(),
    ensures
        F::one_spec() != F::zero_spec(),
{
    reveal(is_exact_field);
}

/// Numeric equality is equality.
pub proof fn eq_is_equality<F: Float>(a: F, b: F)
    requires
        is_exact_field::<F>(),
    ensures
        a.eq_spec(b) == (a == b),
{
    reveal(is_exact_field);
}

/// A number other than `0` times its reciprocal is `1`.
pub proof fn reciprocal<F: Float>(a: F)
    requires
        is_exact_field::<F>(),
        a != F::zero_spec(),
    ensures
        a.mul_spec(F::one_spec().div_spec(a)) == F::one_spec(),
{
    reveal(is_exact_field);
}

/// Addition commutes.
pub proof fn add_comm<F: Float>(a: F, b: F)
    requires
        is_exact::<F>(),
    ensures
        a.add_spec(b) == b.add_spec(a),
{
    reveal(is_exact);
}

/// Addition is associative.
pub proof fn add_assoc<F: Float>(a: F, b: F, c: F)
    requires
        is_exact::<F>(),
    ensures
        a.add_spec(b).add_spec(c) == a.add_spec(b.add_spec(c)),
{
    reveal(is_exact);
}

/// `0` is neutral for addition.
pub proof fn add_zero<F: Float>(a: F)
    requires
        is_exact::<F>(),
    ensures
        a.add_spec(F::zero_spec()) == a,
        F::zero_spec().add_spec(a) == a,
{
    reveal(is_exact);
}

/// A number and its negation add up to `0`.
pub proof fn add_neg<F: Float>(a: F)
    requires
        is_exact::<F>(),
    ensures
        a.add_spec(a.neg_spec()) == F::zero_spec(),
        a.neg_spec().add_spec(a) == F::zero_spec(),
{
    reveal(is_exact);
}

/// Subtraction adds the negation.
pub proof fn sub_def<F: Float>(a: F, b: F)
    requires
        is_exact::<F>(),
    ensures
        a.sub_spec(b) == a.add_spec(b.neg_spec()),
{
    reveal(is_exact);
}

/// Multiplication commutes.
pub proof fn mul_comm<F: Float>(a: F, b: F)
    requires
        is_exact::<F>(),
    ensures
        a.mul_spec(b) == b.mul_spec(a),
{
    reveal(is_exact);
}

/// Multiplication is associative.
pub proof fn mul_assoc<F: Float>(a: F, b: F, c: F)
    requires
        is_exact::<F>(),
    ensures
        a.mul_spec(b).mul_spec(c) == a.mul_spec(b.mul_spec(c)),
{
    reveal(is_exact);
}

/// `1` is neutral for multiplication.
pub proof fn mul_one<F: Float>(a: F)
    requires
        is_exact::<F>(),
    ensures
        a.mul_spec(F::one_spec()) == a,
        F::one_spec().mul_spec(a) == a,
{
    reveal(is_exact);
}

/// Multiplication distributes over addition.
pub proof fn distrib<F: Float>(a: F, b: F, c: F)
    requires
        is_exact::<F>(),
    ensures
        a.mul_spec(b.add_spec(c)) == a.mul_spec(b).add_spec(a.mul_spec(c)),
        b.add_spec(c).mul_spec(a) == b.mul_spec(a).add_spec(c.mul_spec(a)),
{
    reveal(is_exact);
}

/// Division multiplies by the reciprocal.
pub proof fn div_def<F: Float>(a: F, b: F)
    requires
        is_exact::<F>(),
    ensures
        a.div_spec(b) == a.mul_spec(F::one_spec().div_spec(b)),
{
    reveal(is_exact);
}

// ---- what follows from them

/// Whatever is added to both sides can be taken away again.
pub proof fn add_cancel<F: Float>(a: F, b: F, c: F)
    requires
        is_exact::<F>(),
        a.add_spec(c) == b.add_spec(c),
    ensures
        a == b,
{
    let n = c.neg_spec();
    add_assoc(a, c, n);
    add_assoc(b, c, n);
    add_neg(c);
    add_zero(a);
    add_zero(b);
}

/// A product with `0` is `0`.
pub proof fn mul_zero<F: Float>(a: F)
    requires
        is_exact::<F>(),
    ensures
        a.mul_spec(F::zero_spec()) == F::zero_spec(),
        F::zero_spec().mul_spec(a) == F::zero_spec(),
{
    let z = F::zero_spec();
    let p = a.mul_spec(z);
    add_zero(z);
    distrib(a, z, z);
    // p + p == p == 0 + p
    add_zero(p);
    add_cancel(p, z, p);
    mul_comm(a, z);
}

/// The negation of a sum is the sum of the negations.
pub proof fn neg_add<F: Float>(a: F, b: F)
    requires
        is_exact::<F>(),
    ensures
        a.add_spec(b).neg_spec() == a.neg_spec().add_spec(b.neg_spec()),
{
    let s = a.add_spec(b);
    let t = a.neg_spec().add_spec(b.neg_spec());
    // t + s == 0 == neg(s) + s
    add_comm(a, b);
    add_assoc(a.neg_spec(), b.neg_spec(), b.add_spec(a));
    add_assoc(b.neg_spec(), b, a);
    add_neg(b);
    add_zero(a);
    add_neg(a);
    add_neg(s);
    add_cancel(s.neg_spec(), t, s);
}

/// The negation of a product is the product with the negation.
pub proof fn neg_mul<F: Float>(a: F, b: F)
    requires
        is_exact::<F>(),
    ensures
        a.mul_spec(b).neg_spec() == a.neg_spec().mul_spec(b),
{
    let p = a.mul_spec(b);
    let q = a.neg_spec().mul_spec(b);
    // q + p == (neg a + a) b == 0 == neg(p) + p
    distrib(b, a.neg_spec(), a);
    add_neg(a);
    mul_zero(b);
    add_neg(p);
    add_cancel(p.neg_spec(), q, p);
}

/// `(s - x) + (p - y) == (s + p) - (x + y)`.
pub proof fn sub_add_sub<F: Float>(s: F, x: F, p: F, y: F)
    requires
        is_exact::<F>(),
    ensures
        s.sub_spec(x).add_spec(p.sub_spec(y)) == s.add_spec(p).sub_spec(x.add_spec(y)),
{
    let nx = x.neg_spec();
    let ny = y.neg_spec();
    sub_def(s, x);
    sub_def(p, y);
    sub_def(s.add_spec(p), x.add_spec(y));
    neg_add(x, y);
    // (s + nx) + (p + ny) == (s + p) + (nx + ny)
    add_assoc(s, nx, p.add_spec(ny));
    add_assoc(nx, p, ny);
    add_comm(nx, p);
    add_assoc(p, nx, ny);
    add_assoc(s, p, nx.add_spec(ny));
}

/// `0 / f == 0`.
pub proof fn zero_div<F: Float>(f: F)
    requires
        is_exact::<F>(),
    ensures
        F::zero_spec().div_spec(f) == F::zero_spec(),
{
    div_def(F::zero_spec(), f);
    mul_zero(F::one_spec().div_spec(f));
}

/// `x / f + (a / f) * m == (x + a * m) / f`.
pub proof fn div_step<F: Float>(x: F, a: F, m: F, f: F)
    requires
        is_exact::<F>(),
    ensures
        x.div_spec(f).add_spec(a.div_spec(f).mul_spec(m)) == x.add_spec(a.mul_spec(m)).div_spec(f),
{
    let r = F::one_spec().div_spec(f);
    div_def(x, f);
    div_def(a, f);
    div_def(x.add_spec(a.mul_spec(m)), f);
    // (a r) m == (a m) r
    mul_assoc(a, r, m);
    mul_comm(r, m);
    mul_assoc(a, m, r);
    distrib(r, x, a.mul_spec(m));
}

/// `(s - t * g) + (a - b * g) * m == (s + a * m) - (t + b * m) * g`.
pub proof fn clear_step<F: Float>(s: F, t: F, a: F, b: F, m: F, g: F)
    requires
        is_exact::<F>(),
    ensures
        s.sub_spec(t.mul_spec(g)).add_spec(a.sub_spec(b.mul_spec(g)).mul_spec(m)) == s.add_spec(
            a.mul_spec(m),
        ).sub_spec(t.add_spec(b.mul_spec(m)).mul_spec(g)),
{
    let bg = b.mul_spec(g);
    let bm = b.mul_spec(m);
    // (a - bg) m == a m - (b m) g
    sub_def(a, bg);
    distrib(m, a, bg.neg_spec());
    neg_mul(bg, m);
    mul_assoc(b, g, m);
    mul_comm(g, m);
    mul_assoc(b, m, g);
    sub_def(a.mul_spec(m), bm.mul_spec(g));
    assert(a.sub_spec(bg).mul_spec(m) == a.mul_spec(m).sub_spec(bm.mul_spec(g)));
    // (t + b m) g == t g + (b m) g
    distrib(g, t, bm);
    sub_add_sub(s, t.mul_spec(g), a.mul_spec(m), bm.mul_spec(g));
}

/// `a * (b - c) == a * b - a * c`.
pub proof fn mul_sub<F: Float>(a: F, b: F, c: F)
    requires
        is_exact::<F>(),
    ensures
        a.mul_spec(b.sub_spec(c)) == a.mul_spec(b).sub_spec(a.mul_spec(c)),
{
    sub_def(b, c);
    distrib(a, b, c.neg_spec());
    neg_mul(c, a);
    mul_comm(c, a);
    mul_comm(c.neg_spec(), a);
    sub_def(a.mul_spec(b), a.mul_spec(c));
}

/// `(q - z) + z == q`.
pub proof fn sub_add<F: Float>(q: F, z: F)
    requires
        is_exact::<F>(),
    ensures
        q.sub_spec(z).add_spec(z) == q,
{
    sub_def(q, z);
    add_assoc(q, z.neg_spec(), z);
    add_neg(z);
    add_zero(q);
}

/// `(a + e) + b == (a + b) + e`.
pub proof fn add_swap<F: Float>(a: F, e: F, b: F)
    requires
        is_exact::<F>(),
    ensures
        a.add_spec(e).add_spec(b) == a.add_spec(b).add_spec(e),
{
    add_assoc(a, e, b);
    add_comm(e, b);
    add_assoc(a, b, e);
}

/// `f * (x / f) == x` where `f` is not `0`.
pub proof fn mul_div_cancel<F: Float>(f: F, x: F)
    requires
        is_exact_field::<F>(),
        f != F::zero_spec(),
    ensures
        f.mul_spec(x.div_spec(f)) == x,
{
    field_is_ring::<F>();
    let r = F::one_spec().div_spec(f);
    div_def(x, f);
    mul_comm(x, r);
    mul_assoc(f, r, x);
    reciprocal(f);
    mul_one(x);
}

/// `x / x == 1` where `x` is not `0`.
pub proof fn div_self<F: Float>(x: F)
    requires
        is_exact_field::<F>(),
        x != F::zero_spec(),
    ensures
        x.div_spec(x) == F::one_spec(),
{
    field_is_ring::<F>();
    div_def(x, x);
    reciprocal(x);
}

/// `x - 0 * g == x`.
pub proof fn sub_zero_mul<F: Float>(x: F, g: F)
    requires
        is_exact::<F>(),
    ensures
        x.sub_spec(F::zero_spec().mul_spec(g)) == x,
{
    let z = F::zero_spec();
    mul_zero(g);
    sub_def(x, z);
    add_neg(z);
    add_zero(z.neg_spec());
    add_zero(x);
}

/// `g - 1 * g == 0`.
pub proof fn sub_one_mul<F: Float>(g: F)
    requires
        is_exact::<F>(),
    ensures
        g.sub_spec(F::one_spec().mul_spec(g)) == F::zero_spec(),
{
    mul_one(g);
    sub_def(g, g);
    add_neg(g);
}

/// `(p + q) + (s + t) == (p + s) + (q + t)`.
pub proof fn add_shuffle<F: Float>(p: F, q: F, s: F, t: F)
    requires
        is_exact::<F>(),
    ensures
        p.add_spec(q).add_spec(s.add_spec(t)) == p.add_spec(s).add_spec(q.add_spec(t)),
{
    add_assoc(p, q, s.add_spec(t));
    add_assoc(q, s, t);
    add_comm(q, s);
    add_assoc(s, q, t);
    add_assoc(p, s, q.add_spec(t));
}

/// `(p + a * q) + (x + a * y) * v == (p + x * v) + a * (q + y * v)`.
pub proof fn linear_step<F: Float>(p: F, a: F, q: F, x: F, y: F, v: F)
    requires
        is_exact::<F>(),
    ensures
        p.add_spec(a.mul_spec(q)).add_spec(x.add_spec(a.mul_spec(y)).mul_spec(v)) == p.add_spec(
            x.mul_spec(v),
        ).add_spec(a.mul_spec(q.add_spec(y.mul_spec(v)))),
{
    distrib(v, x, a.mul_spec(y));
    mul_assoc(a, y, v);
    distrib(a, q, y.mul_spec(v));
    add_shuffle(p, a.mul_spec(q), x.mul_spec(v), a.mul_spec(y.mul_spec(v)));
}

/// The negation of the negation is the number itself.
pub proof fn neg_neg<F: Float>(a: F)
    requires
        is_exact::<F>(),
    ensures
        a.neg_spec().neg_spec() == a,
{
    let n = a.neg_spec();
    // neg(n) + n == 0 == a + n
    add_neg(n);
    add_neg(a);
    add_cancel(n.neg_spec(), a, n);
}

/// `(k + a) - (k + b) == a - b`.
pub proof fn sub_common<F: Float>(k: F, a: F, b: F)
    requires
        is_exact::<F>(),
    ensures
        k.add_spec(a).sub_spec(k.add_spec(b)) == a.sub_spec(b),
{
    let nk = k.neg_spec();
    let nb = b.neg_spec();
    sub_def(k.add_spec(a), k.add_spec(b));
    neg_add(k, b);
    add_shuffle(k, a, nk, nb);
    add_neg(k);
    add_zero(a.add_spec(nb));
    sub_def(a, b);
}

/// `(p + q) - (r + s) == (p - s) - (r - q)`.
pub proof fn sub_rearrange<F: Float>(p: F, q: F, r: F, s: F)
    requires
        is_exact::<F>(),
    ensures
        p.add_spec(q).sub_spec(r.add_spec(s)) == p.sub_spec(s).sub_spec(r.sub_spec(q)),
{
    let nq = q.neg_spec();
    let nr = r.neg_spec();
    let ns = s.neg_spec();
    sub_def(p.add_spec(q), r.add_spec(s));
    neg_add(r, s);
    sub_def(p, s);
    sub_def(r, q);
    sub_def(p.sub_spec(s), r.sub_spec(q));
    neg_add(r, nq);
    neg_neg(q);
    // (p + q) + (nr + ns) == (p + ns) + (nr + q)
    add_comm(nr, ns);
    add_shuffle(p, q, ns, nr);
    add_comm(q, nr);
}

/// `(a * b) * (c * d) == (a * c) * (b * d)`.
pub proof fn mul_shuffle<F: Float>(a: F, b: F, c: F, d: F)
    requires
        is_exact::<F>(),
    ensures
        a.mul_spec(b).mul_spec(c.mul_spec(d)) == a.mul_spec(c).mul_spec(b.mul_spec(d)),
{
    mul_assoc(a, b, c.mul_spec(d));
    mul_assoc(b, c, d);
    mul_comm(b, c);
    mul_assoc(c, b, d);
    mul_assoc(a, c, b.mul_spec(d));
}

/// `(p + q) * (s + t) == (p * s + p * t) + (q * s + q * t)`.
pub proof fn foil<F: Float>(p: F, q: F, s: F, t: F)
    requires
        is_exact::<F>(),
    ensures
        p.add_spec(q).mul_spec(s.add_spec(t)) == p.mul_spec(s).add_spec(p.mul_spec(t)).add_spec(
            q.mul_spec(s).add_spec(q.mul_spec(t)),
        ),
{
    distrib(s.add_spec(t), p, q);
    distrib(p, s, t);
    distrib(q, s, t);
}

/// `(u - v) * (s - t) == (s * u - s * v) - (t * u - t * v)`.
pub proof fn foil_sub<F: Float>(u: F, v: F, s: F, t: F)
    requires
        is_exact::<F>(),
    ensures
        u.sub_spec(v).mul_spec(s.sub_spec(t)) == s.mul_spec(u).sub_spec(s.mul_spec(v)).sub_spec(
            t.mul_spec(u).sub_spec(t.mul_spec(v)),
        ),
{
    let w = u.sub_spec(v);
    mul_sub(w, s, t);
    mul_comm(w, s);
    mul_comm(w, t);
    mul_sub(s, u, v);
    mul_sub(t, u, v);
}

/// The determinant of a product of two matrices of dimension two is the
/// product of the determinants, the products of the matrices written out with
/// the `0` that closes each dot product.
pub proof fn two_by_two<F: Float>(a: F, b: F, c: F, d: F, e: F, f: F, g: F, h: F)
    requires
        is_exact::<F>(),
    ensures
        ({
            let z = F::zero_spec();
            let m11 = a.mul_spec(e).add_spec(b.mul_spec(g)).add_spec(z);
            let m12 = a.mul_spec(f).add_spec(b.mul_spec(h)).add_spec(z);
            let m21 = c.mul_spec(e).add_spec(d.mul_spec(g)).add_spec(z);
            let m22 = c.mul_spec(f).add_spec(d.mul_spec(h)).add_spec(z);
            m11.mul_spec(m22).sub_spec(m12.mul_spec(m21)) == a.mul_spec(d).sub_spec(
                b.mul_spec(c),
            ).mul_spec(e.mul_spec(h).sub_spec(f.mul_spec(g)))
        }),
{
    let (ae, bg, af, bh) = (a.mul_spec(e), b.mul_spec(g), a.mul_spec(f), b.mul_spec(h));
    let (ce, dg, cf, dh) = (c.mul_spec(e), d.mul_spec(g), c.mul_spec(f), d.mul_spec(h));
    add_zero(ae.add_spec(bg));
    add_zero(af.add_spec(bh));
    add_zero(ce.add_spec(dg));
    add_zero(cf.add_spec(dh));
    // the two products of sums, term by term
    foil(ae, bg, cf, dh);
    foil(af, bh, ce, dg);
    let x = ae.mul_spec(cf);
    let p = ae.mul_spec(dh);
    let q = bg.mul_spec(cf);
    let y = bg.mul_spec(dh);
    let r = af.mul_spec(dg);
    let s = bh.mul_spec(ce);
    // the first and the last term of the one are those of the other
    mul_shuffle(a, e, c, f);
    mul_shuffle(a, f, c, e);
    mul_comm(e, f);
    assert(af.mul_spec(ce) == x);
    mul_shuffle(b, g, d, h);
    mul_shuffle(b, h, d, g);
    mul_comm(g, h);
    assert(bh.mul_spec(dg) == y);
    // so they cancel: what is left is (p + q) - (r + s)
    add_comm(q, y);
    add_shuffle(x, p, y, q);
    add_comm(s, y);
    add_shuffle(x, r, y, s);
    sub_common(x.add_spec(y), p.add_spec(q), r.add_spec(s));
    sub_rearrange(p, q, r, s);
    // the product of the determinants, term by term
    let (u, v) = (a.mul_spec(d), b.mul_spec(c));
    let (eh, fg) = (e.mul_spec(h), f.mul_spec(g));
    foil_sub(u, v, eh, fg);
    mul_shuffle(a, e, d, h);
    mul_comm(u, eh);
    assert(p == eh.mul_spec(u));
    mul_shuffle(b, h, c, e);
    mul_comm(h, e);
    mul_comm(v, eh);
    assert(s == eh.mul_spec(v));
    mul_shuffle(a, f, d, g);
    mul_comm(u, fg);
    assert(r == fg.mul_spec(u));
    mul_shuffle(b, g, c, f);
    mul_comm(g, f);
    mul_comm(v, fg);
    assert(q == fg.mul_spec(v));
}

/// `(a + x) - a == x`.
pub proof fn add_sub_cancel<F: Float>(a: F, x: F)
    requires
        is_exact::<F>(),
    ensures
        a.add_spec(x).sub_spec(a) == x,
{
    sub_def(a.add_spec(x), a);
    add_comm(a, x);
    add_assoc(x, a, a.neg_spec());
    add_neg(a);
    add_zero(x);
}

/// `(d * t) * d == t * (d * d)`.
pub proof fn mul_scale<F: Float>(d: F, t: F)
    requires
        is_exact::<F>(),
    ensures
        d.mul_spec(t).mul_spec(d) == t.mul_spec(d.mul_spec(d)),
{
    mul_comm(d, t);
    mul_assoc(t, d, d);
}

/// `(t * s) / s == t` where `s` is not `0`.
pub proof fn mul_div<F: Float>(t: F, s: F)
    requires
        is_exact_field::<F>(),
        s != F::zero_spec(),
    ensures
        t.mul_spec(s).div_spec(s) == t,
{
    field_is_ring::<F>();
    let r = F::one_spec().div_spec(s);
    div_def(t.mul_spec(s), s);
    mul_assoc(t, s, r);
    reciprocal(s);
    mul_one(t);
}

/// A common factor of the terms of a dot product of two components can be
/// taken out of the sum.
pub proof fn scaled_sum_of_two<F: Float>(t: F, a: F, b: F)
    requires
        is_exact::<F>(),
    ensures
        t.mul_spec(a).add_spec(t.mul_spec(b)).add_spec(F::zero_spec()) == t.mul_spec(
            a.add_spec(b).add_spec(F::zero_spec()),
        ),
{
    distrib(t, a, b);
    add_zero(a.add_spec(b));
    add_zero(t.mul_spec(a.add_spec(b)));
}

/// A common factor of the terms of a dot product of three components can be
/// taken out of the sum.
pub proof fn scaled_sum_of_three<F: Float>(t: F, a: F, b: F, c: F)
    requires
        is_exact::<F>(),
    ensures
        t.mul_spec(a).add_spec(t.mul_spec(b)).add_spec(t.mul_spec(c)).add_spec(F::zero_spec())
            == t.mul_spec(a.add_spec(b).add_spec(c).add_spec(F::zero_spec())),
{
    distrib(t, a, b);
    distrib(t, a.add_spec(b), c);
    add_zero(a.add_spec(b).add_spec(c));
    add_zero(t.mul_spec(a.add_spec(b).add_spec(c)));
}

/// A common factor of the terms of a dot product of four components can be
/// taken out of the sum.
pub proof fn scaled_sum_of_four<F: Float>(t: F, a: F, b: F, c: F, d: F)
    requires
        is_exact::<F>(),
    ensures
        t.mul_spec(a).add_spec(t.mul_spec(b)).add_spec(t.mul_spec(c)).add_spec(
            t.mul_spec(d),
        ).add_spec(F::zero_spec()) == t.mul_spec(
            a.add_spec(b).add_spec(c).add_spec(d).add_spec(F::zero_spec()),
        ),
{
    distrib(t, a, b);
    distrib(t, a.add_spec(b), c);
    distrib(t, a.add_spec(b).add_spec(c), d);
    add_zero(a.add_spec(b).add_spec(c).add_spec(d));
    add_zero(t.mul_spec(a.add_spec(b).add_spec(c).add_spec(d)));
}

/// `(c / m) * m == c` where `m` is not `0`.
pub proof fn div_mul_cancel<F: Float>(c: F, m: F)
    requires
        is_exact_field::<F>(),
        m != F::zero_spec(),
    ensures
        c.div_spec(m).mul_spec(m) == c,
{
    field_is_ring::<F>();
    let r = F::one_spec().div_spec(m);
    div_def(c, m);
    mul_assoc(c, r, m);
    mul_comm(r, m);
    reciprocal(m);
    mul_one(c);
}

/// `(a + b) - (a - b) == b + b`.
pub proof fn sum_minus_diff<F: Float>(a: F, b: F)
    requires
        is_exact::<F>(),
    ensures
        a.add_spec(b).sub_spec(a.sub_spec(b)) == b.add_spec(b),
{
    let na = a.neg_spec();
    let nb = b.neg_spec();
    sub_def(a, b);
    sub_def(a.add_spec(b), a.add_spec(nb));
    neg_add(a, nb);
    neg_neg(b);
    add_shuffle(a, b, na, b);
    add_neg(a);
    add_zero(b.add_spec(b));
}

/// `c + (a - c) == a`.
pub proof fn add_sub_self<F: Float>(c: F, a: F)
    requires
        is_exact::<F>(),
    ensures
        c.add_spec(a.sub_spec(c)) == a,
{
    add_comm(c, a.sub_spec(c));
    sub_add(a, c);
}

} // verus!
