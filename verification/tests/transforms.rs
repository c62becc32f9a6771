use idml_render::transforms::{
    combine, from_values, from_vec, identity, transform_point, Point, Transform, TransformError,
    _transform_point_reverse,
};

#[test]
fn identity_is_neutral_on_both_sides() {
    let t = from_values(2, 3, 4, 5, 6, 7);
    assert_eq!(combine(&t, &identity()), t);
    assert_eq!(combine(&identity(), &t), t);
}

#[test]
fn composition_is_associative() {
    let a = from_values(1, 2, 3, 4, 5, 6);
    let b = from_values(7, 8, 9, 10, 11, 12);
    let c = from_values(2, 0, 0, 2, 1, 1);
    let left = a.combine_with(&b).combine_with(&c);
    let right = a.combine_with(&b.combine_with(&c));
    assert_eq!(left, right);
}

#[test]
fn composition_is_not_commutative() {
    let a = from_values(2, 0, 0, 1, 0, 0);
    let b = from_values(1, 0, 0, 1, 5, 0);
    assert_ne!(a.combine_with(&b), b.combine_with(&a));
}

#[test]
fn inverse_applies_back_to_original_point() {
    let t = from_values(2, 0, 0, 2, 5, 7);
    let p = Point::new(3, 4);
    let q = t.apply_to_point(&p);
    assert_eq!((q.x, q.y, q.den), (11, 15, 1));
    let inv = t.reverse().unwrap();
    let r = inv.apply_to_point(&q);
    assert_eq!((r.x, r.y, r.den), (12, 16, 4));
    assert!(r.equivalent(&p));
}

#[test]
fn inverse_round_trip_with_rotation_like_matrix() {
    let t = from_values(0, 1, -1, 0, 10, -3);
    let p = Point::new(-7, 2);
    let q = t.apply_to_point(&p);
    let r = _transform_point_reverse(&q, &t).unwrap();
    assert!(r.equivalent(&p));
}

#[test]
fn singular_matrix_is_rejected() {
    let t = from_values(1, 2, 2, 4, 0, 0);
    assert_eq!(t.reverse(), Err(TransformError::SingularMatrix));
    let p = Point::new(1, 1);
    assert_eq!(
        _transform_point_reverse(&p, &t),
        Err(TransformError::SingularMatrix)
    );
}

#[test]
fn from_vec_takes_six_components_or_none() {
    let t = from_vec(&Some(vec![1, 2, 3, 4, 5, 6]));
    assert_eq!(t, from_values(1, 2, 3, 4, 5, 6));
    assert_eq!(from_vec(&None), identity());
}

#[test]
fn transform_point_applies_row_vector_convention() {
    let t = from_values(1, 0, 0, 1, 20, 30);
    let p = Point::new(1, 2);
    let q = transform_point(&p, &t);
    assert_eq!((q.x, q.y, q.den), (21, 32, 1));
}

#[test]
fn builders_replace_single_coefficients() {
    let t = identity().with_a(5).with_b(6).with_c(7).with_d(8).with_e(9).with_f(10);
    assert_eq!(t, from_values(5, 6, 7, 8, 9, 10));
    let u = identity().with_transpose(3, 4);
    assert_eq!(u, from_values(1, 0, 0, 1, 3, 4));
    let v = identity().with_scale(2, 3);
    assert_eq!(v, from_values(2, 0, 0, 3, 0, 0));
}

#[test]
fn equivalent_points_with_different_denominators() {
    let p = Point { x: 2, y: 4, den: 2 };
    let q = Point { x: 1, y: 2, den: 1 };
    assert!(p.equivalent(&q));
    let r = Point { x: 3, y: 4, den: 2 };
    assert!(!r.equivalent(&q));
}

#[test]
fn transform_fields_are_kept_verbatim() {
    let t: Transform = from_values(0, 0, 0, 0, 1, 1);
    assert_eq!(t.a, 0);
    assert_eq!(t.den, 1);
}
