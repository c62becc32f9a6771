//! 2-D affine transforms over exact rational numbers.
//!
//! A `Transform` stores the six entries of the row-vector matrix
//! `[[a, b, 0], [c, d, 0], [e, f, 1]]` as integers together with one common
//! denominator `den`, so that the real-valued coefficient in place of `a` is
//! `a / den`, and so on (the trailing `1` of the homogeneous column is not
//! divided).  Composition, inversion and point application are exact integer
//! computations on this representation; two representations denote the same
//! real matrix exactly when `mat_eqv` holds.

use vstd::prelude::*;

verus! {

/// Mathematical value of a `Transform`: the matrix entries and the common
/// denominator, over unbounded integers.
#[verifier::ext_equal]
pub ghost struct Mat {
    pub a: int,
    pub b: int,
    pub c: int,
    pub d: int,
    pub e: int,
    pub f: int,
    pub den: int,
}

/// Mathematical value of a `Point`: rational coordinates `x / den` and
/// `y / den` over unbounded integers.
#[verifier::ext_equal]
pub ghost struct Pt {
    pub x: int,
    pub y: int,
    pub den: int,
}

pub open spec fn fits_i64(v: int) -> bool {
    i64::MIN as int <= v <= i64::MAX as int
}

pub open spec fn fits_i128(v: int) -> bool {
    i128::MIN as int <= v <= i128::MAX as int
}

pub open spec fn mat_identity() -> Mat {
    Mat { a: 1, b: 0, c: 0, d: 1, e: 0, f: 0, den: 1 }
}

/// Matrix product `m1 * m2` in the row-vector convention: applying the result
/// to a point is applying `m1` first, then `m2`.
pub open spec fn mat_mul(m1: Mat, m2: Mat) -> Mat {
    Mat {
        a: m1.a * m2.a + m1.b * m2.c,
        b: m1.a * m2.b + m1.b * m2.d,
        c: m1.c * m2.a + m1.d * m2.c,
        d: m1.c * m2.b + m1.d * m2.d,
        e: m1.e * m2.a + m1.f * m2.c + m2.e * m1.den,
        f: m1.e * m2.b + m1.f * m2.d + m2.f * m1.den,
        den: m1.den * m2.den,
    }
}

/// `[x y 1] * m`, keeping the first two coordinates.
pub open spec fn mat_apply(m: Mat, p: Pt) -> Pt {
    Pt {
        x: p.x * m.a + p.y * m.c + m.e * p.den,
        y: p.x * m.b + p.y * m.d + m.f * p.den,
        den: p.den * m.den,
    }
}

/// Determinant of the linear part, up to the (positive) factor `den * den`:
/// the matrix is singular exactly when this is zero.
pub open spec fn mat_det(m: Mat) -> int {
    m.a * m.d - m.b * m.c
}

/// The inverse matrix: the adjugate of the linear part scaled by `den`, the
/// back-translation, and the determinant as the new common denominator.
pub open spec fn mat_inverse(m: Mat) -> Mat {
    Mat {
        a: m.d * m.den,
        b: -(m.b * m.den),
        c: -(m.c * m.den),
        d: m.a * m.den,
        e: m.c * m.f - m.d * m.e,
        f: m.b * m.e - m.a * m.f,
        den: mat_det(m),
    }
}

/// Two matrix representations denote the same real matrix (entry-wise
/// cross-multiplied equality).
pub open spec fn mat_eqv(m1: Mat, m2: Mat) -> bool {
    &&& m1.a * m2.den == m2.a * m1.den
    &&& m1.b * m2.den == m2.b * m1.den
    &&& m1.c * m2.den == m2.c * m1.den
    &&& m1.d * m2.den == m2.d * m1.den
    &&& m1.e * m2.den == m2.e * m1.den
    &&& m1.f * m2.den == m2.f * m1.den
}

/// Two point representations denote the same real point.
pub open spec fn pt_eqv(p1: Pt, p2: Pt) -> bool {
    &&& p1.x * p2.den == p2.x * p1.den
    &&& p1.y * p2.den == p2.y * p1.den
}

/// A sum of three products is computable on the machine: the first partial
/// sum stays within the wide intermediate type and the result fits `i64`.
pub open spec fn dot3_fits(u: int, v: int, w: int) -> bool {
    &&& fits_i128(u + v)
    &&& fits_i64(u + v + w)
}

/// Every entry of `mat_mul(m1, m2)` is computable on the machine.
pub open spec fn mul_fits(m1: Mat, m2: Mat) -> bool {
    &&& fits_i64(m1.a * m2.a + m1.b * m2.c)
    &&& fits_i64(m1.a * m2.b + m1.b * m2.d)
    &&& fits_i64(m1.c * m2.a + m1.d * m2.c)
    &&& fits_i64(m1.c * m2.b + m1.d * m2.d)
    &&& dot3_fits(m1.e * m2.a, m1.f * m2.c, m2.e * m1.den)
    &&& dot3_fits(m1.e * m2.b, m1.f * m2.d, m2.f * m1.den)
    &&& fits_i64(m1.den * m2.den)
}

/// Every coordinate of `mat_apply(m, p)` is computable on the machine.
pub open spec fn apply_fits(m: Mat, p: Pt) -> bool {
    &&& dot3_fits(p.x * m.a, p.y * m.c, m.e * p.den)
    &&& dot3_fits(p.x * m.b, p.y * m.d, m.f * p.den)
    &&& fits_i64(p.den * m.den)
}

/// Every entry of `mat_inverse(m)` is computable on the machine.
pub open spec fn inverse_fits(m: Mat) -> bool {
    &&& fits_i64(mat_inverse(m).a)
    &&& fits_i64(mat_inverse(m).b)
    &&& fits_i64(mat_inverse(m).c)
    &&& fits_i64(mat_inverse(m).d)
    &&& fits_i64(mat_inverse(m).e)
    &&& fits_i64(mat_inverse(m).f)
    &&& fits_i64(mat_det(m))
}

#[derive(Debug, Clone, Copy, PartialEq, Eq, Structural)]
pub struct Transform {
    pub a: i64,
    pub b: i64,
    pub c: i64,
    pub d: i64,
    pub e: i64,
    pub f: i64,
    pub den: i64,
}

impl View for Transform {
    type V = Mat;

    open spec fn view(&self) -> Mat {
        Mat {
            a: self.a as int,
            b: self.b as int,
            c: self.c as int,
            d: self.d as int,
            e: self.e as int,
            f: self.f as int,
            den: self.den as int,
        }
    }
}

/// A point with exact rational coordinates `x / den` and `y / den`.
#[derive(Debug, Clone, Copy, PartialEq, Eq, Structural)]
pub struct Point {
    pub x: i64,
    pub y: i64,
    pub den: i64,
}

impl View for Point {
    type V = Pt;

    open spec fn view(&self) -> Pt {
        Pt { x: self.x as int, y: self.y as int, den: self.den as int }
    }
}

impl Point {
    /// The denominator of a meaningful point is never zero.
    pub open spec fn well_formed(self) -> bool {
        self.den != 0
    }

    /// A point with integer coordinates.
    pub fn new(x: i64, y: i64) -> (p: Point)
        ensures
            p@ == (Pt { x: x as int, y: y as int, den: 1 }),
            p.well_formed(),
    {
        Point { x, y, den: 1 }
    }

    /// Whether `self` and `other` denote the same real point.
    pub fn equivalent(&self, other: &Point) -> (r: bool)
        ensures
            r == pt_eqv(self@, other@),
    {
        proof {
            lemma_i64_mul_in_i128(self@.x, other@.den);
            lemma_i64_mul_in_i128(other@.x, self@.den);
            lemma_i64_mul_in_i128(self@.y, other@.den);
            lemma_i64_mul_in_i128(other@.y, self@.den);
        }
        (self.x as i128) * (other.den as i128) == (other.x as i128) * (self.den as i128)
            && (self.y as i128) * (other.den as i128) == (other.y as i128) * (self.den as i128)
    }
}

#[derive(Debug, Clone, Copy, PartialEq, Eq, Structural)]
pub enum TransformError {
    SingularMatrix,
}

proof fn lemma_i64_mul_in_i128(x: int, y: int)
    requires
        i64::MIN as int <= x <= i64::MAX as int,
        i64::MIN as int <= y <= i64::MAX as int,
    ensures
        -0x4000_0000_0000_0000_0000_0000_0000_0000 <= x * y
            <= 0x4000_0000_0000_0000_0000_0000_0000_0000,
{
    assert(-0x4000_0000_0000_0000_0000_0000_0000_0000 <= x * y
        <= 0x4000_0000_0000_0000_0000_0000_0000_0000) by (nonlinear_arith)
        requires
            -0x8000_0000_0000_0000 <= x <= 0x7fff_ffff_ffff_ffff,
            -0x8000_0000_0000_0000 <= y <= 0x7fff_ffff_ffff_ffff,
    ;
}

/// `u1 * v1 + u2 * v2 + u3 * v3`, computed in a wide intermediate type.
fn dot3_i64(u1: i64, v1: i64, u2: i64, v2: i64, u3: i64, v3: i64) -> (r: i64)
    requires
        dot3_fits(u1 * v1, u2 * v2, u3 * v3),
    ensures
        r as int == u1 * v1 + u2 * v2 + u3 * v3,
{
    proof {
        lemma_i64_mul_in_i128(u1 as int, v1 as int);
        lemma_i64_mul_in_i128(u2 as int, v2 as int);
        lemma_i64_mul_in_i128(u3 as int, v3 as int);
    }
    let p1: i128 = (u1 as i128) * (v1 as i128);
    let p2: i128 = (u2 as i128) * (v2 as i128);
    let p3: i128 = (u3 as i128) * (v3 as i128);
    (p1 + p2 + p3) as i64
}

/// `u1 * v1 + u2 * v2`, computed in a wide intermediate type.
fn dot2_i64(u1: i64, v1: i64, u2: i64, v2: i64) -> (r: i64)
    requires
        fits_i64(u1 * v1 + u2 * v2),
    ensures
        r as int == u1 * v1 + u2 * v2,
{
    proof {
        lemma_i64_mul_in_i128(u1 as int, v1 as int);
        lemma_i64_mul_in_i128(u2 as int, v2 as int);
    }
    let p1: i128 = (u1 as i128) * (v1 as i128);
    let p2: i128 = (u2 as i128) * (v2 as i128);
    (p1 + p2) as i64
}

/// `u1 * v1 - u2 * v2`, computed in a wide intermediate type.
fn diff2_i64(u1: i64, v1: i64, u2: i64, v2: i64) -> (r: i64)
    requires
        fits_i64(u1 * v1 - u2 * v2),
    ensures
        r as int == u1 * v1 - u2 * v2,
{
    proof {
        lemma_i64_mul_in_i128(u1 as int, v1 as int);
        lemma_i64_mul_in_i128(u2 as int, v2 as int);
    }
    let p1: i128 = (u1 as i128) * (v1 as i128);
    let p2: i128 = (u2 as i128) * (v2 as i128);
    (p1 - p2) as i64
}

/// `u * v`, computed in a wide intermediate type.
fn scaled_i64(u: i64, v: i64) -> (r: i64)
    requires
        fits_i64(u * v),
    ensures
        r as int == u * v,
{
    proof {
        lemma_i64_mul_in_i128(u as int, v as int);
    }
    ((u as i128) * (v as i128)) as i64
}

/// `-(u * v)`, computed in a wide intermediate type.
fn neg_scaled_i64(u: i64, v: i64) -> (r: i64)
    requires
        fits_i64(-(u * v)),
    ensures
        r as int == -(u * v),
{
    proof {
        lemma_i64_mul_in_i128(u as int, v as int);
    }
    (-((u as i128) * (v as i128))) as i64
}

/// Returns the identity transform, the neutral element of composition.
pub fn identity() -> (t: Transform)
    ensures
        t@ == mat_identity(),
        t.well_formed(),
{
    Transform { a: 1, b: 0, c: 0, d: 1, e: 0, f: 0, den: 1 }
}

/// Returns the transform with linear part `(a, b, c, d)` and translation
/// `(e, f)`, taken verbatim; a non-invertible matrix is accepted here and
/// only rejected when an inversion is requested.
pub fn from_values(a: i64, b: i64, c: i64, d: i64, e: i64, f: i64) -> (t: Transform)
    ensures
        t@ == (Mat {
            a: a as int,
            b: b as int,
            c: c as int,
            d: d as int,
            e: e as int,
            f: f as int,
            den: 1,
        }),
        t.well_formed(),
{
    Transform { a, b, c, d, e, f, den: 1 }
}

/// The matrix denoted by an optional six-component coefficient vector:
/// absent means the identity.
pub open spec fn vec_mat(v: Option<Vec<i64>>) -> Mat {
    match v {
        Some(vals) => if vals@.len() == 6 {
            Mat {
                a: vals@[0] as int,
                b: vals@[1] as int,
                c: vals@[2] as int,
                d: vals@[3] as int,
                e: vals@[4] as int,
                f: vals@[5] as int,
                den: 1,
            }
        } else {
            mat_identity()
        },
        None => mat_identity(),
    }
}

/// Builds a transform from an optional coefficient vector `[a, b, c, d, e, f]`;
/// `None` yields the identity.  Callers must supply exactly six components or
/// none.
pub fn from_vec(transform: &Option<Vec<i64>>) -> (t: Transform)
    requires
        match *transform {
            Some(vals) => vals@.len() == 6,
            None => true,
        },
    ensures
        t@ == vec_mat(*transform),
        t.well_formed(),
{
    match transform {
        Some(vals) => from_values(vals[0], vals[1], vals[2], vals[3], vals[4], vals[5]),
        None => identity(),
    }
}

/// Applies `transform` to `p`: the homogeneous product `[x y 1] * matrix`,
/// keeping the first two coordinates.
pub fn transform_point(p: &Point, transform: &Transform) -> (r: Point)
    requires
        apply_fits(transform@, p@),
    ensures
        r@ == mat_apply(transform@, p@),
        p.well_formed() && transform.well_formed() ==> r.well_formed(),
{
    let x = dot3_i64(p.x, transform.a, p.y, transform.c, transform.e, p.den);
    let y = dot3_i64(p.x, transform.b, p.y, transform.d, transform.f, p.den);
    let den = scaled_i64(p.den, transform.den);
    proof {
        if p.well_formed() && transform.well_formed() {
            assert(p@.den * transform@.den != 0) by (nonlinear_arith)
                requires
                    p@.den != 0,
                    transform@.den != 0,
            ;
        }
    }
    Point { x, y, den }
}

/// Applies the inverse of `transform` to `p`; fails on a singular matrix.
pub fn _transform_point_reverse(p: &Point, transform: &Transform) -> (r: Result<
    Point,
    TransformError,
>)
    requires
        mat_det(transform@) != 0 ==> inverse_fits(transform@) && apply_fits(
            mat_inverse(transform@),
            p@,
        ),
    ensures
        mat_det(transform@) == 0 <==> r matches Err(_),
        r matches Err(e) ==> e == TransformError::SingularMatrix,
        r matches Ok(q) ==> q@ == mat_apply(mat_inverse(transform@), p@),
{
    match reverse(transform) {
        Ok(inv) => Ok(transform_point(p, &inv)),
        Err(e) => Err(e),
    }
}

/// Returns the inverse transform, or `SingularMatrix` exactly when the
/// determinant of the linear part is zero.  Applying the result undoes the
/// original transform, and its own inverse denotes the original matrix.
pub fn reverse(transform: &Transform) -> (r: Result<Transform, TransformError>)
    requires
        mat_det(transform@) != 0 ==> inverse_fits(transform@),
    ensures
        mat_det(transform@) == 0 <==> r matches Err(_),
        r matches Err(e) ==> e == TransformError::SingularMatrix,
        r matches Ok(t2) ==> t2@ == mat_inverse(transform@) && t2.well_formed(),
{
    proof {
        lemma_i64_mul_in_i128(transform@.a, transform@.d);
        lemma_i64_mul_in_i128(transform@.b, transform@.c);
    }
    let ad: i128 = (transform.a as i128) * (transform.d as i128);
    let bc: i128 = (transform.b as i128) * (transform.c as i128);
    if ad == bc {
        Err(TransformError::SingularMatrix)
    } else {
        let det = (ad - bc) as i64;
        Ok(
            Transform {
                a: scaled_i64(transform.d, transform.den),
                b: neg_scaled_i64(transform.b, transform.den),
                c: neg_scaled_i64(transform.c, transform.den),
                d: scaled_i64(transform.a, transform.den),
                e: diff2_i64(transform.c, transform.f, transform.d, transform.e),
                f: diff2_i64(transform.b, transform.e, transform.a, transform.f),
                den: det,
            },
        )
    }
}

/// Matrix product of the two transforms: `transform1` applied first, then
/// `transform2`.
pub fn combine(transform1: &Transform, transform2: &Transform) -> (r: Transform)
    requires
        mul_fits(transform1@, transform2@),
    ensures
        r@ == mat_mul(transform1@, transform2@),
        transform1.well_formed() && transform2.well_formed() ==> r.well_formed(),
{
    let t = Transform {
        a: dot2_i64(transform1.a, transform2.a, transform1.b, transform2.c),
        b: dot2_i64(transform1.a, transform2.b, transform1.b, transform2.d),
        c: dot2_i64(transform1.c, transform2.a, transform1.d, transform2.c),
        d: dot2_i64(transform1.c, transform2.b, transform1.d, transform2.d),
        e: dot3_i64(transform1.e, transform2.a, transform1.f, transform2.c, transform2.e,
            transform1.den),
        f: dot3_i64(transform1.e, transform2.b, transform1.f, transform2.d, transform2.f,
            transform1.den),
        den: scaled_i64(transform1.den, transform2.den),
    };
    proof {
        if transform1.well_formed() && transform2.well_formed() {
            assert(transform1@.den * transform2@.den != 0) by (nonlinear_arith)
                requires
                    transform1@.den != 0,
                    transform2@.den != 0,
            ;
        }
    }
    t
}

impl Transform {
    /// The denominator of a meaningful transform is never zero.
    pub open spec fn well_formed(self) -> bool {
        self.den != 0
    }

    /// Applies `self` to the point `p`.
    pub fn apply_to_point(&self, p: &Point) -> (r: Point)
        requires
            apply_fits(self@, p@),
        ensures
            r@ == mat_apply(self@, p@),
            p.well_formed() && self.well_formed() ==> r.well_formed(),
    {
        transform_point(p, self)
    }

    /// `self` composed with `transform`: `self` applies first.
    pub fn combine_with(&self, transform: &Transform) -> (r: Transform)
        requires
            mul_fits(self@, transform@),
        ensures
            r@ == mat_mul(self@, transform@),
            self.well_formed() && transform.well_formed() ==> r.well_formed(),
    {
        combine(self, transform)
    }

    /// The inverse of `self`, or `SingularMatrix` on a singular matrix.
    pub fn reverse(&self) -> (r: Result<Transform, TransformError>)
        requires
            mat_det(self@) != 0 ==> inverse_fits(self@),
        ensures
            mat_det(self@) == 0 <==> r matches Err(_),
            r matches Err(e) ==> e == TransformError::SingularMatrix,
            r matches Ok(t2) ==> t2@ == mat_inverse(self@) && t2.well_formed(),
    {
        reverse(self)
    }

    /// `self` with the `a` coefficient replaced by the value `a`.
    pub fn with_a(self, a: i64) -> (r: Transform)
        requires
            fits_i64(a * self@.den),
        ensures
            r@ == (Mat { a: a * self@.den, ..self@ }),
    {
        Transform { a: scaled_i64(a, self.den), ..self }
    }

    /// `self` with the `b` coefficient replaced by the value `b`.
    pub fn with_b(self, b: i64) -> (r: Transform)
        requires
            fits_i64(b * self@.den),
        ensures
            r@ == (Mat { b: b * self@.den, ..self@ }),
    {
        Transform { b: scaled_i64(b, self.den), ..self }
    }

    /// `self` with the `c` coefficient replaced by the value `c`.
    pub fn with_c(self, c: i64) -> (r: Transform)
        requires
            fits_i64(c * self@.den),
        ensures
            r@ == (Mat { c: c * self@.den, ..self@ }),
    {
        Transform { c: scaled_i64(c, self.den), ..self }
    }

    /// `self` with the `d` coefficient replaced by the value `d`.
    pub fn with_d(self, d: i64) -> (r: Transform)
        requires
            fits_i64(d * self@.den),
        ensures
            r@ == (Mat { d: d * self@.den, ..self@ }),
    {
        Transform { d: scaled_i64(d, self.den), ..self }
    }

    /// `self` with the `e` coefficient replaced by the value `e`.
    pub fn with_e(self, e: i64) -> (r: Transform)
        requires
            fits_i64(e * self@.den),
        ensures
            r@ == (Mat { e: e * self@.den, ..self@ }),
    {
        Transform { e: scaled_i64(e, self.den), ..self }
    }

    /// `self` with the `f` coefficient replaced by the value `f`.
    pub fn with_f(self, f: i64) -> (r: Transform)
        requires
            fits_i64(f * self@.den),
        ensures
            r@ == (Mat { f: f * self@.den, ..self@ }),
    {
        Transform { f: scaled_i64(f, self.den), ..self }
    }

    /// `self` with its translation replaced by `(x, y)`.
    pub fn with_transpose(self, x: i64, y: i64) -> (r: Transform)
        requires
            fits_i64(x * self@.den),
            fits_i64(y * self@.den),
        ensures
            r@ == (Mat { e: x * self@.den, f: y * self@.den, ..self@ }),
    {
        self.with_e(x).with_f(y)
    }

    /// `self` with its diagonal scale replaced by `(x_scale, y_scale)`.
    pub fn with_scale(self, x_scale: i64, y_scale: i64) -> (r: Transform)
        requires
            fits_i64(x_scale * self@.den),
            fits_i64(y_scale * self@.den),
        ensures
            r@ == (Mat { a: x_scale * self@.den, d: y_scale * self@.den, ..self@ }),
    {
        self.with_a(x_scale).with_d(y_scale)
    }
}

/// Law: the identity transform is neutral under composition on both sides.
pub proof fn lemma_compose_identity(t: Transform)
    ensures
        mat_mul(t@, mat_identity()) == t@,
        mat_mul(mat_identity(), t@) == t@,
{
}

/// Law: composition of transforms is associative, entry for entry.
pub proof fn lemma_compose_assoc(x: Transform, y: Transform, z: Transform)
    ensures
        mat_mul(mat_mul(x@, y@), z@) == mat_mul(x@, mat_mul(y@, z@)),
{
    lemma_mat_mul_assoc(x@, y@, z@);
}

proof fn lemma_dist3(u: int, v: int, w: int, s: int)
    ensures
        (u + v + w) * s == u * s + v * s + w * s,
{
    assert((u + v + w) * s == u * s + v * s + w * s) by (nonlinear_arith);
}

proof fn lemma_assoc_m(x: int, y: int, z: int)
    ensures
        (x * y) * z == x * (y * z),
{
    assert((x * y) * z == x * (y * z)) by (nonlinear_arith);
}

proof fn lemma_swap_m(x: int, y: int, z: int)
    ensures
        (x * y) * z == (x * z) * y,
{
    assert((x * y) * z == (x * z) * y) by (nonlinear_arith);
}

proof fn lemma_rot_m(x: int, y: int, z: int)
    ensures
        (x * y) * z == x * (z * y),
{
    assert((x * y) * z == x * (z * y)) by (nonlinear_arith);
}

/// Composition of matrices is associative, entry for entry.
pub proof fn lemma_mat_mul_assoc(m1: Mat, m2: Mat, m3: Mat)
    ensures
        mat_mul(mat_mul(m1, m2), m3) == mat_mul(m1, mat_mul(m2, m3)),
{
    let a1 = m1.a;
    let b1 = m1.b;
    let c1 = m1.c;
    let d1 = m1.d;
    let e1 = m1.e;
    let f1 = m1.f;
    let n1 = m1.den;
    let a2 = m2.a;
    let b2 = m2.b;
    let c2 = m2.c;
    let d2 = m2.d;
    let e2 = m2.e;
    let f2 = m2.f;
    let n2 = m2.den;
    let a3 = m3.a;
    let b3 = m3.b;
    let c3 = m3.c;
    let d3 = m3.d;
    let e3 = m3.e;
    let f3 = m3.f;
    let n3 = m3.den;
    assert((a1 * a2 + b1 * c2) * a3 == a1 * (a2 * a3) + b1 * (c2 * a3)) by (nonlinear_arith);
    assert((a1 * b2 + b1 * d2) * c3 == a1 * (b2 * c3) + b1 * (d2 * c3)) by (nonlinear_arith);
    assert(a1 * (a2 * a3 + b2 * c3) == a1 * (a2 * a3) + a1 * (b2 * c3)) by (nonlinear_arith);
    assert(b1 * (c2 * a3 + d2 * c3) == b1 * (c2 * a3) + b1 * (d2 * c3)) by (nonlinear_arith);
    assert((a1 * a2 + b1 * c2) * b3 == a1 * (a2 * b3) + b1 * (c2 * b3)) by (nonlinear_arith);
    assert((a1 * b2 + b1 * d2) * d3 == a1 * (b2 * d3) + b1 * (d2 * d3)) by (nonlinear_arith);
    assert(a1 * (a2 * b3 + b2 * d3) == a1 * (a2 * b3) + a1 * (b2 * d3)) by (nonlinear_arith);
    assert(b1 * (c2 * b3 + d2 * d3) == b1 * (c2 * b3) + b1 * (d2 * d3)) by (nonlinear_arith);
    assert((c1 * a2 + d1 * c2) * a3 == c1 * (a2 * a3) + d1 * (c2 * a3)) by (nonlinear_arith);
    assert((c1 * b2 + d1 * d2) * c3 == c1 * (b2 * c3) + d1 * (d2 * c3)) by (nonlinear_arith);
    assert(c1 * (a2 * a3 + b2 * c3) == c1 * (a2 * a3) + c1 * (b2 * c3)) by (nonlinear_arith);
    assert(d1 * (c2 * a3 + d2 * c3) == d1 * (c2 * a3) + d1 * (d2 * c3)) by (nonlinear_arith);
    assert((c1 * a2 + d1 * c2) * b3 == c1 * (a2 * b3) + d1 * (c2 * b3)) by (nonlinear_arith);
    assert((c1 * b2 + d1 * d2) * d3 == c1 * (b2 * d3) + d1 * (d2 * d3)) by (nonlinear_arith);
    assert(c1 * (a2 * b3 + b2 * d3) == c1 * (a2 * b3) + c1 * (b2 * d3)) by (nonlinear_arith);
    assert(d1 * (c2 * b3 + d2 * d3) == d1 * (c2 * b3) + d1 * (d2 * d3)) by (nonlinear_arith);
    lemma_dist3(e1 * a2, f1 * c2, e2 * n1, a3);
    lemma_assoc_m(e1, a2, a3);
    lemma_assoc_m(f1, c2, a3);
    lemma_swap_m(e2, n1, a3);
    assert((e1 * a2 + f1 * c2 + e2 * n1) * a3 == e1 * (a2 * a3) + f1 * (c2 * a3) + (e2 * a3) * n1);
    lemma_dist3(e1 * b2, f1 * d2, f2 * n1, c3);
    lemma_assoc_m(e1, b2, c3);
    lemma_assoc_m(f1, d2, c3);
    lemma_swap_m(f2, n1, c3);
    assert((e1 * b2 + f1 * d2 + f2 * n1) * c3 == e1 * (b2 * c3) + f1 * (d2 * c3) + (f2 * c3) * n1);
    assert(e3 * (n1 * n2) == (e3 * n2) * n1) by (nonlinear_arith);
    assert(e1 * (a2 * a3 + b2 * c3) == e1 * (a2 * a3) + e1 * (b2 * c3)) by (nonlinear_arith);
    assert(f1 * (c2 * a3 + d2 * c3) == f1 * (c2 * a3) + f1 * (d2 * c3)) by (nonlinear_arith);
    lemma_dist3(e2 * a3, f2 * c3, e3 * n2, n1);
    assert((e2 * a3 + f2 * c3 + e3 * n2) * n1 == (e2 * a3) * n1 + (f2 * c3) * n1 + (e3 * n2) * n1);
    lemma_dist3(e1 * a2, f1 * c2, e2 * n1, b3);
    lemma_assoc_m(e1, a2, b3);
    lemma_assoc_m(f1, c2, b3);
    lemma_swap_m(e2, n1, b3);
    assert((e1 * a2 + f1 * c2 + e2 * n1) * b3 == e1 * (a2 * b3) + f1 * (c2 * b3) + (e2 * b3) * n1);
    lemma_dist3(e1 * b2, f1 * d2, f2 * n1, d3);
    lemma_assoc_m(e1, b2, d3);
    lemma_assoc_m(f1, d2, d3);
    lemma_swap_m(f2, n1, d3);
    assert((e1 * b2 + f1 * d2 + f2 * n1) * d3 == e1 * (b2 * d3) + f1 * (d2 * d3) + (f2 * d3) * n1);
    assert(f3 * (n1 * n2) == (f3 * n2) * n1) by (nonlinear_arith);
    assert(e1 * (a2 * b3 + b2 * d3) == e1 * (a2 * b3) + e1 * (b2 * d3)) by (nonlinear_arith);
    assert(f1 * (c2 * b3 + d2 * d3) == f1 * (c2 * b3) + f1 * (d2 * d3)) by (nonlinear_arith);
    lemma_dist3(e2 * b3, f2 * d3, f3 * n2, n1);
    assert((e2 * b3 + f2 * d3 + f3 * n2) * n1 == (e2 * b3) * n1 + (f2 * d3) * n1 + (f3 * n2) * n1);
    assert((n1 * n2) * n3 == n1 * (n2 * n3)) by (nonlinear_arith);
    assert(mat_mul(mat_mul(m1, m2), m3) =~= mat_mul(m1, mat_mul(m2, m3)));
}

/// Applying a composed transform is applying the two factors in turn.
pub proof fn lemma_apply_mul(m1: Mat, m2: Mat, p: Pt)
    ensures
        mat_apply(mat_mul(m1, m2), p) == mat_apply(m2, mat_apply(m1, p)),
{
    let a1 = m1.a;
    let b1 = m1.b;
    let c1 = m1.c;
    let d1 = m1.d;
    let e1 = m1.e;
    let f1 = m1.f;
    let n1 = m1.den;
    let a2 = m2.a;
    let b2 = m2.b;
    let c2 = m2.c;
    let d2 = m2.d;
    let e2 = m2.e;
    let f2 = m2.f;
    let n2 = m2.den;
    let x = p.x;
    let y = p.y;
    let pd = p.den;
    assert(x * (a1 * a2 + b1 * c2) == (x * a1) * a2 + (x * b1) * c2) by (nonlinear_arith);
    assert(y * (c1 * a2 + d1 * c2) == (y * c1) * a2 + (y * d1) * c2) by (nonlinear_arith);
    lemma_dist3(e1 * a2, f1 * c2, e2 * n1, pd);
    lemma_swap_m(e1, a2, pd);
    lemma_swap_m(f1, c2, pd);
    lemma_rot_m(e2, n1, pd);
    assert((e1 * a2 + f1 * c2 + e2 * n1) * pd == (e1 * pd) * a2 + (f1 * pd) * c2 + e2 * (pd * n1));
    lemma_dist3(x * a1, y * c1, e1 * pd, a2);
    assert((x * a1 + y * c1 + e1 * pd) * a2 == (x * a1) * a2 + (y * c1) * a2 + (e1 * pd) * a2);
    lemma_dist3(x * b1, y * d1, f1 * pd, c2);
    assert((x * b1 + y * d1 + f1 * pd) * c2 == (x * b1) * c2 + (y * d1) * c2 + (f1 * pd) * c2);
    assert(x * (a1 * b2 + b1 * d2) == (x * a1) * b2 + (x * b1) * d2) by (nonlinear_arith);
    assert(y * (c1 * b2 + d1 * d2) == (y * c1) * b2 + (y * d1) * d2) by (nonlinear_arith);
    lemma_dist3(e1 * b2, f1 * d2, f2 * n1, pd);
    lemma_swap_m(e1, b2, pd);
    lemma_swap_m(f1, d2, pd);
    lemma_rot_m(f2, n1, pd);
    assert((e1 * b2 + f1 * d2 + f2 * n1) * pd == (e1 * pd) * b2 + (f1 * pd) * d2 + f2 * (pd * n1));
    lemma_dist3(x * a1, y * c1, e1 * pd, b2);
    assert((x * a1 + y * c1 + e1 * pd) * b2 == (x * a1) * b2 + (y * c1) * b2 + (e1 * pd) * b2);
    lemma_dist3(x * b1, y * d1, f1 * pd, d2);
    assert((x * b1 + y * d1 + f1 * pd) * d2 == (x * b1) * d2 + (y * d1) * d2 + (f1 * pd) * d2);
    assert(pd * (n1 * n2) == (pd * n1) * n2) by (nonlinear_arith);
    assert(mat_apply(mat_mul(m1, m2), p) =~= mat_apply(m2, mat_apply(m1, p)));
}

/// Composing a matrix with its inverse yields a scalar multiple of the
/// identity: the same nonzero number on the diagonal and as denominator.
pub proof fn lemma_mul_inverse_scalar(m: Mat)
    ensures
        mat_mul(m, mat_inverse(m)) == (Mat {
            a: m.den * mat_det(m),
            b: 0,
            c: 0,
            d: m.den * mat_det(m),
            e: 0,
            f: 0,
            den: m.den * mat_det(m),
        }),
{
    let a = m.a;
    let b = m.b;
    let c = m.c;
    let d = m.d;
    let e = m.e;
    let f = m.f;
    let n = m.den;
    assert(a * (d * n) + b * (-(c * n)) == n * (a * d - b * c)) by (nonlinear_arith);
    assert(a * (-(b * n)) + b * (a * n) == 0) by (nonlinear_arith);
    assert(c * (d * n) + d * (-(c * n)) == 0) by (nonlinear_arith);
    assert(c * (-(b * n)) + d * (a * n) == n * (a * d - b * c)) by (nonlinear_arith);
    assert(e * (d * n) + f * (-(c * n)) + (c * f - d * e) * n == 0) by (nonlinear_arith);
    assert(e * (-(b * n)) + f * (a * n) + (b * e - a * f) * n == 0) by (nonlinear_arith);
    assert(n * (a * d - b * c) == m.den * mat_det(m));
    assert(mat_mul(m, mat_inverse(m)) =~= (Mat {
        a: m.den * mat_det(m),
        b: 0,
        c: 0,
        d: m.den * mat_det(m),
        e: 0,
        f: 0,
        den: m.den * mat_det(m),
    }));
}

/// Law: for an invertible transform, applying the transform and then its
/// inverse returns the original point (exactly, as rational coordinates).
pub proof fn lemma_reverse_round_trip(t: Transform, p: Point)
    requires
        t.well_formed(),
        p.well_formed(),
        mat_det(t@) != 0,
    ensures
        pt_eqv(mat_apply(mat_inverse(t@), mat_apply(t@, p@)), p@),
        mat_apply(mat_inverse(t@), mat_apply(t@, p@)).den != 0,
{
    let m = t@;
    let s = m.den * mat_det(m);
    let x = p@.x;
    let y = p@.y;
    let pd = p@.den;
    lemma_apply_mul(m, mat_inverse(m), p@);
    lemma_mul_inverse_scalar(m);
    let r = mat_apply(mat_inverse(m), mat_apply(m, p@));
    assert(r.x == x * s + y * 0 + 0 * pd);
    assert(r.y == x * 0 + y * s + 0 * pd);
    assert(r.den == pd * s);
    assert(y * 0 == 0 && x * 0 == 0 && 0 * pd == 0) by (nonlinear_arith);
    assert((x * s) * pd == x * (pd * s)) by (nonlinear_arith);
    assert((y * s) * pd == y * (pd * s)) by (nonlinear_arith);
    assert(s != 0) by (nonlinear_arith)
        requires
            s == m.den * (m.a * m.d - m.b * m.c),
            m.den != 0,
            m.a * m.d - m.b * m.c != 0,
    ;
    assert(pd * s != 0) by (nonlinear_arith)
        requires
            pd != 0,
            s != 0,
    ;
}

} // verus!
