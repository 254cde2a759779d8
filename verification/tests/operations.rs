use unitmath::dim::decrement;
use unitmath::dim::scale_dims;
use unitmath::Axis;
use unitmath::Dim;
use unitmath::Matrix;
use unitmath::UnitError;
use unitmath::UnitValue;

fn bits(x: f64) -> u64 {
    x.to_bits()
}

fn val(b: u64) -> f64 {
    f64::from_bits(b)
}

#[test]
fn dim_algebra_scale_and_decrement() {
    let d = Dim::new(1, 0, -1, 2);
    assert_eq!(scale_dims(d, 2), Dim::new(2, 0, -2, 4));
    assert_eq!(decrement(d, Axis::Time), Dim::new(1, 0, -2, 2));
    assert_eq!(decrement(d, Axis::Length), Dim::new(0, 0, -1, 2));
    assert_eq!(decrement(d, Axis::Mass), Dim::new(1, -1, -1, 2));
    assert_eq!(decrement(d, Axis::Kelvin), Dim::new(1, 0, -1, 1));
}

#[test]
fn force_derives_from_mass_by_derivation_chain() {
    let force = UnitValue::kilograms(bits(1.0)).per_meter().per_second().per_second();
    assert_eq!(force.dim, Dim::force());
    let pressure = force.div(UnitValue::meters(bits(1.0)).squared());
    assert_eq!(pressure.dim, Dim::pressure());
}

#[test]
fn scalar_arithmetic_combines_right_operand_with_left() {
    let two = UnitValue::unitless(bits(2.0));
    let three = UnitValue::unitless(bits(3.0));
    assert_eq!(val(two.add(three).unwrap().bits), 5.0);
    // a.sub(b) stores b - a.
    assert_eq!(val(two.sub(three).unwrap().bits), 1.0);
    assert_eq!(val(two.mul(three).bits), 6.0);
    // a.div(b) stores b / a.
    assert_eq!(val(two.div(UnitValue::unitless(bits(8.0))).bits), 4.0);
}

#[test]
fn scalar_raw_operations_scale_the_magnitude() {
    let q = UnitValue::seconds(bits(2.0));
    assert_eq!(val(q.mul_raw(bits(3.0)).bits), 6.0);
    assert_eq!(q.mul_raw(bits(3.0)).dim, Dim::time());
    assert_eq!(val(q.div_raw(bits(4.0)).bits), 0.5);
    assert_eq!(q.div_raw(bits(4.0)).dim, Dim::time());
}

#[test]
fn derivation_operators_keep_magnitudes() {
    let q = UnitValue::meters(bits(9.25));
    assert_eq!(val(q.per_second().bits), 9.25);
    assert_eq!(val(q.per_hour().bits), 9.25);
    assert_eq!(q.per_hour().dim, q.per_second().dim);
    assert_eq!(val(q.squared().bits), 9.25);
    assert_eq!(q.squared().dim, Dim::area());

    let m = Matrix::with_dim(1, 2, vec![bits(1.5), bits(2.5)], Dim::length()).unwrap();
    let r = m.per_second();
    assert_eq!(r.dim, Dim::velocity());
    assert_eq!(val(r.get(0, 0).unwrap()), 1.5);
    assert_eq!(val(r.get(0, 1).unwrap()), 2.5);
    let s = Matrix::with_dim(1, 2, vec![bits(1.5), bits(2.5)], Dim::length()).unwrap().squared();
    assert_eq!(s.dim, Dim::area());
    let h = Matrix::with_dim(1, 2, vec![bits(1.5), bits(2.5)], Dim::length()).unwrap().per_hour();
    assert_eq!(h.dim, Dim::velocity());
    let pm = Matrix::with_dim(1, 2, vec![bits(1.5), bits(2.5)], Dim::length()).unwrap().per_meter();
    assert_eq!(pm.dim, Dim::unitless());
}

#[test]
fn matrix_construction_rejects_wrong_element_count() {
    let r = Matrix::new(2, 2, vec![bits(1.0), bits(2.0), bits(3.0)]);
    assert!(matches!(r, Err(UnitError::ShapeMismatch)));
    let ok = Matrix::new(2, 2, vec![bits(1.0), bits(2.0), bits(3.0), bits(4.0)]);
    assert!(ok.is_ok());
    assert_eq!(ok.unwrap().dim, Dim::unitless());
}

#[test]
fn contraction_rejects_inner_size_mismatch() {
    let a = Matrix::new(2, 3, vec![bits(1.0); 6]).unwrap();
    let b = Matrix::new(2, 3, vec![bits(1.0); 6]).unwrap();
    assert!(matches!(a.mul(&b), Err(UnitError::ShapeMismatch)));
}

#[test]
fn contraction_contracts_rows_against_columns() {
    // [[1, 2, 3], [4, 5, 6]] times [[7, 8], [9, 10], [11, 12]].
    let a = Matrix::new(
        2,
        3,
        vec![bits(1.0), bits(2.0), bits(3.0), bits(4.0), bits(5.0), bits(6.0)],
    )
    .unwrap();
    let b = Matrix::new(
        3,
        2,
        vec![bits(7.0), bits(8.0), bits(9.0), bits(10.0), bits(11.0), bits(12.0)],
    )
    .unwrap();
    let c = a.mul(&b).unwrap();
    assert_eq!(c.rows, 2);
    assert_eq!(c.cols, 2);
    assert_eq!(val(c.get(0, 0).unwrap()), 58.0);
    assert_eq!(val(c.get(0, 1).unwrap()), 64.0);
    assert_eq!(val(c.get(1, 0).unwrap()), 139.0);
    assert_eq!(val(c.get(1, 1).unwrap()), 154.0);
}

#[test]
fn magnitude_is_the_euclidean_norm() {
    let m = Matrix::with_dim(1, 2, vec![bits(3.0), bits(4.0)], Dim::length()).unwrap();
    let n = m.magnitude();
    assert_eq!(val(n.get(0, 0).unwrap()), 5.0);
    assert_eq!(n.dim, Dim::length());
}

#[test]
fn get_is_none_outside_the_shape() {
    let m = Matrix::new(2, 2, vec![bits(1.0); 4]).unwrap();
    assert_eq!(m.get(0, 0), Some(bits(1.0)));
    assert_eq!(m.get(2, 0), None);
    assert_eq!(m.get(0, 2), None);
}

#[test]
fn trigonometry_requires_dimensionless_operands() {
    let m = Matrix::with_dim(1, 1, vec![bits(0.0)], Dim::length()).unwrap();
    assert!(matches!(m.sin(), Err(UnitError::DimensionMismatch)));
    assert!(matches!(m.cos(), Err(UnitError::DimensionMismatch)));

    let z = Matrix::new(1, 1, vec![bits(0.0)]).unwrap();
    let s = z.sin().unwrap();
    assert_eq!(val(s.get(0, 0).unwrap()), 0.0);
    let c = z.cos().unwrap();
    assert_eq!(val(c.get(0, 0).unwrap()), 1.0);

    let one = Matrix::new(1, 1, vec![bits(1.0)]).unwrap();
    assert!((val(one.sin().unwrap().get(0, 0).unwrap()) - 1.0f64.sin()).abs() < 1e-12);
    assert!((val(one.cos().unwrap().get(0, 0).unwrap()) - 1.0f64.cos()).abs() < 1e-12);
}
