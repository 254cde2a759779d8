use unitmath::Dim;
use unitmath::Matrix;
use unitmath::UnitValue;

fn bits(x: f64) -> u64 {
    x.to_bits()
}

#[test]
fn scalar_renders_two_decimals_and_base_unit_names() {
    assert_eq!(UnitValue::unitless(bits(3.5)).render(), "3.50");
    assert_eq!(UnitValue::meters(bits(1.0)).render(), "1.00 meters");
    assert_eq!(UnitValue::kilograms(bits(2.25)).render(), "2.25 kilograms");
    assert_eq!(UnitValue::seconds(bits(0.0)).render(), "0.00 seconds");
    assert_eq!(UnitValue::kelvin(bits(273.15)).render(), "273.15 kelvin");
}

#[test]
fn derived_dimensions_render_with_no_suffix() {
    let force = UnitValue::kilograms(bits(1.0)).per_meter().per_second().per_second();
    assert_eq!(force.render(), "1.00");
    let velocity = UnitValue::meters(bits(4.0)).per_second();
    assert_eq!(velocity.render(), "4.00");
}

#[test]
fn negative_and_rounded_magnitudes() {
    assert_eq!(UnitValue::unitless(bits(-1.25)).render(), "-1.25");
    assert_eq!(UnitValue::unitless(bits(12345.678)).render(), "12345.68");
    assert_eq!(UnitValue::unitless(bits(-0.01)).render(), "-0.01");
    // Exactly half a cent rounds to the nearest even cent count.
    assert_eq!(UnitValue::unitless(bits(0.125)).render(), "0.12");
    assert_eq!(UnitValue::unitless(bits(0.375)).render(), "0.38");
}

#[test]
fn one_by_one_matrix_renders_without_brackets() {
    let m = Matrix::with_dim(1, 1, vec![bits(7.0)], Dim::time()).unwrap();
    assert_eq!(m.render(), "7.00 seconds");
}

#[test]
fn larger_matrices_render_as_bracketed_rows() {
    let m = Matrix::with_dim(
        2,
        2,
        vec![bits(1.0), bits(2.0), bits(3.0), bits(4.0)],
        Dim::length(),
    )
    .unwrap();
    assert_eq!(m.render(), "[[1.00, 2.00], [3.00, 4.00]] meters");

    let row = Matrix::new(1, 3, vec![bits(5.0), bits(10.0), bits(15.0)]).unwrap();
    assert_eq!(row.render(), "[[5.00, 10.00, 15.00]]");
}
