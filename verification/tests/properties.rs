use unitmath::dim::add_dims;
use unitmath::dim::sub_dims;
use unitmath::Dim;
use unitmath::Matrix;
use unitmath::UnitError;
use unitmath::UnitValue;

fn bits(x: f64) -> u64 {
    x.to_bits()
}

fn val(b: u64) -> f64 {
    f64::from_bits(b)
}

#[test]
fn dim_add_commutes_and_subtraction_inverts() {
    let a = Dim::new(1, 2, -3, 0);
    let b = Dim::new(0, -1, 4, 2);
    assert_eq!(add_dims(a, b), add_dims(b, a));
    assert_eq!(sub_dims(add_dims(a, b), b), a);
}

#[test]
fn per_meter_subtracts_length_and_keeps_magnitude() {
    let q = UnitValue::with_dim(bits(7.5), Dim::velocity());
    let r = q.per_meter();
    assert_eq!(r.dim, Dim::new(0, 0, -1, 0));
    assert_eq!(r.bits, bits(7.5));
}

#[test]
fn raw_scalar_round_trip() {
    let x = UnitValue::unitless(bits(1.3));
    let k = bits(7.0);
    let y = x.mul_raw(k).div_raw(k);
    assert_eq!(y.dim, Dim::unitless());
    assert!((val(y.bits) - 1.3).abs() < 1e-12);
}

#[test]
fn contraction_shape_associativity() {
    let a = Matrix::with_dim(
        2,
        3,
        vec![bits(1.0), bits(2.0), bits(3.0), bits(4.0), bits(5.0), bits(6.0)],
        Dim::length(),
    )
    .unwrap();
    let b = Matrix::with_dim(
        3,
        4,
        vec![
            bits(1.0),
            bits(0.0),
            bits(2.0),
            bits(1.0),
            bits(0.0),
            bits(3.0),
            bits(1.0),
            bits(2.0),
            bits(4.0),
            bits(1.0),
            bits(0.0),
            bits(2.0),
        ],
        Dim::time(),
    )
    .unwrap();
    let c = Matrix::with_dim(
        4,
        1,
        vec![bits(1.0), bits(2.0), bits(3.0), bits(4.0)],
        Dim::mass(),
    )
    .unwrap();

    let left = a.mul(&b).unwrap().mul(&c).unwrap();
    let right = a.mul(&b.mul(&c).unwrap()).unwrap();

    assert_eq!(left.rows, 2);
    assert_eq!(left.cols, 1);
    assert_eq!(right.rows, 2);
    assert_eq!(right.cols, 1);
    assert_eq!(left.dim, right.dim);
    assert_eq!(left.dim, Dim::new(1, 1, 1, 0));
    // Small integer magnitudes keep every product and sum exact, so the two
    // groupings agree bit for bit here.
    assert_eq!(left.get(0, 0), right.get(0, 0));
    assert_eq!(left.get(1, 0), right.get(1, 0));
}

#[test]
fn magnitude_of_all_zero_matrix_is_exactly_zero() {
    let m = Matrix::with_dim(
        2,
        3,
        vec![bits(0.0); 6],
        Dim::force(),
    )
    .unwrap();
    let n = m.magnitude();
    assert_eq!(n.rows, 1);
    assert_eq!(n.cols, 1);
    assert_eq!(n.dim, Dim::force());
    assert_eq!(val(n.get(0, 0).unwrap()), 0.0);
}

#[test]
fn length_divided_by_itself_is_dimensionless_one() {
    let q = UnitValue::meters(bits(1.0));
    let r = q.div(q);
    assert_eq!(r.dim, Dim::unitless());
    assert_eq!(val(r.bits), 1.0);
}

#[test]
fn time_times_velocity_vector_is_displacement() {
    let time = Matrix::with_dim(1, 1, vec![bits(5.0)], Dim::time()).unwrap();
    let velocity = Matrix::with_dim(
        1,
        3,
        vec![bits(1.0), bits(2.0), bits(3.0)],
        Dim::velocity(),
    )
    .unwrap();
    let displacement = time.mul(&velocity).unwrap();
    assert_eq!(displacement.rows, 1);
    assert_eq!(displacement.cols, 3);
    assert_eq!(displacement.dim, Dim::new(1, 0, 0, 0));
    assert_eq!(val(displacement.get(0, 0).unwrap()), 5.0);
    assert_eq!(val(displacement.get(0, 1).unwrap()), 10.0);
    assert_eq!(val(displacement.get(0, 2).unwrap()), 15.0);
}

#[test]
fn displacement_norm_renders_as_18_71_meters() {
    let displacement = Matrix::with_dim(
        1,
        3,
        vec![bits(5.0), bits(10.0), bits(15.0)],
        Dim::length(),
    )
    .unwrap();
    let distance = displacement.magnitude();
    assert_eq!(distance.dim, Dim::new(1, 0, 0, 0));
    assert_eq!(val(distance.get(0, 0).unwrap()), 350.0f64.sqrt());
    assert_eq!(distance.render(), "18.71 meters");
}

#[test]
fn scaling_a_matrix_by_raw_five_scales_every_element() {
    let m = Matrix::with_dim(
        3,
        2,
        vec![bits(5.0), bits(7.0), bits(12.0), bits(3.0), bits(6.0), bits(2.0)],
        Dim::mass(),
    )
    .unwrap();
    let s = m.mul_raw(bits(5.0));
    assert_eq!(s.rows, 3);
    assert_eq!(s.cols, 2);
    assert_eq!(s.dim, Dim::mass());
    let expected = [25.0, 35.0, 60.0, 15.0, 30.0, 10.0];
    for i in 0..3 {
        for j in 0..2 {
            assert_eq!(val(s.get(i, j).unwrap()), expected[i * 2 + j]);
        }
    }
}

#[test]
fn adding_length_to_mass_is_rejected() {
    let len = UnitValue::meters(bits(1.0));
    let mass = UnitValue::kilograms(bits(1.0));
    let r = len.add(mass);
    assert!(matches!(r, Err(UnitError::DimensionMismatch)));
}
