use vectorlib::math::vector2d_struct::GVector2d;

#[test]
fn testing_vector() {
    let v1 = GVector2d::new(1.0, 0.0);
    let v2 = GVector2d::new(5.0, 7.3);

    println!("{v1:#?}");
    println!("{v2:#?}");
}

#[test]
fn testing_dot_product() {
    let v1 = GVector2d::new(3i64, 4i64);
    let v2 = GVector2d::new(5i64, 2i64);

    let v3 = v1.dot_product(v2);
    let output_message = format!("projection v1 on v2 is -> {v3:#?}");
    println!("{output_message:#?}");
    assert_eq!(v3, 23);
}

#[test]
fn add_is_component_wise() {
    let a = GVector2d::new(3i64, 4i64);
    let b = GVector2d::new(5i64, 2i64);
    assert_eq!(a.add(b), GVector2d::new(8, 6));
}

#[test]
fn add_commutes() {
    let a = GVector2d::new(-7i64, 11i64);
    let b = GVector2d::new(13i64, -2i64);
    assert_eq!(a.add(b), b.add(a));
}

#[test]
fn sub_is_component_wise_and_not_commutative() {
    let a = GVector2d::new(3i64, 4i64);
    let b = GVector2d::new(5i64, 2i64);
    assert_eq!(a.sub(b), GVector2d::new(-2, 2));
    assert_eq!(b.sub(a), GVector2d::new(2, -2));
    assert_ne!(a.sub(b), b.sub(a));
}

#[test]
fn mul_is_hadamard_not_dot() {
    let a = GVector2d::new(3i64, 4i64);
    let b = GVector2d::new(5i64, 2i64);
    assert_eq!(a.mul(b), GVector2d::new(15, 8));
    assert_eq!(a.dot_product(b), 23);
    // the component-wise product and the dot product disagree here on
    // every axis: (15, 8) against the single scalar 23
    assert_ne!(a.mul(b).x, a.dot_product(b));
}

#[test]
fn div_blocks_an_all_zero_divisor() {
    let a = GVector2d::new(1i64, 0i64);
    let zero = GVector2d::new(0i64, 0i64);
    assert_eq!(a.div(zero), None);
}

#[test]
fn div_populates_on_a_nonzero_divisor() {
    let a = GVector2d::new(10i64, 9i64);
    let b = GVector2d::new(2i64, 3i64);
    assert_eq!(a.div(b), Some(GVector2d::new(5, 3)));
}

#[test]
fn div_quotient_rounds_toward_zero() {
    let a = GVector2d::new(7i64, -7i64);
    let b = GVector2d::new(-2i64, -2i64);
    assert_eq!(a.div(b), Some(GVector2d::new(-3, 3)));
}

#[test]
fn div_op_blocks_any_zero_component() {
    let a = GVector2d::new(1i64, 1i64);
    assert_eq!(a.div_op(GVector2d::new(0, 5)), None);
    assert_eq!(a.div_op(GVector2d::new(5, 0)), None);
    assert_eq!(a.div_op(GVector2d::new(0, 0)), None);
}

#[test]
fn div_op_populates_when_both_nonzero() {
    let a = GVector2d::new(10i64, 9i64);
    let b = GVector2d::new(2i64, 3i64);
    assert_eq!(a.div_op(b), Some(GVector2d::new(5, 3)));
}

#[test]
fn dot_product_is_zero_on_orthogonal_vectors() {
    let a = GVector2d::new(1i64, 0i64);
    let b = GVector2d::new(0i64, 1i64);
    assert_eq!(a.dot_product(b), 0);
}

#[test]
fn scale_multiplies_both_components() {
    let a = GVector2d::new(3i64, 4i64);
    assert_eq!(a.scale(10), GVector2d::new(30, 40));
    assert_eq!(a.scale(-2), GVector2d::new(-6, -8));
}

#[test]
fn scale_by_one_is_identity() {
    let samples = [
        GVector2d::new(0i64, 0i64),
        GVector2d::new(1, 0),
        GVector2d::new(-4, 17),
        GVector2d::new(9_000_000_000, -9_000_000_000),
    ];
    for v in samples {
        assert_eq!(v.scale(1), v);
    }
}

#[test]
fn operations_work_on_a_narrower_scalar() {
    let a = GVector2d::new(3i32, 4i32);
    let b = GVector2d::new(5i32, 2i32);
    assert_eq!(a.add(b), GVector2d::new(8, 6));
    assert_eq!(a.dot_product(b), 23);
    assert_eq!(a.div(b), Some(GVector2d::new(0, 2)));
}

#[test]
fn new_keeps_its_components() {
    let v = GVector2d::new(3i64, 7.5f64);
    assert_eq!(v.x, 3);
    assert_eq!(v.y, 7.5);
}
