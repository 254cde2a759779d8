use unitmath::Dim;
use unitmath::Matrix;
use unitmath::UnitValue;

#[test]
fn lib_demo() {}

#[test]
#[allow(unused_variables)]
fn matrix_demo() {
    let a = Matrix::new(1, 1, vec![1.0f64.to_bits()]).unwrap();

    // a.sin();

    let b = Matrix::new(
        3,
        2,
        vec![
            5.0f64.to_bits(),
            7.0f64.to_bits(),
            12.0f64.to_bits(),
            3.0f64.to_bits(),
            6.0f64.to_bits(),
            2.0f64.to_bits(),
        ],
    )
    .unwrap();
    let d = b.mul_raw(5.0f64.to_bits());

    let velocity = Matrix::with_dim(
        1,
        3,
        vec![1.0f64.to_bits(), 2.0f64.to_bits(), 3.0f64.to_bits()],
        Dim::velocity(),
    )
    .unwrap();
    let time = Matrix::with_dim(1, 1, vec![5.0f64.to_bits()], Dim::time()).unwrap();

    let displacement = time.mul(&velocity).unwrap();
    let distance = displacement.magnitude();

    println!("{}", distance.render());
}

#[test]
#[allow(unused_variables)]
fn value_demo() {
    let raw = UnitValue::unitless(0.0f64.to_bits());
    let distance = UnitValue::meters(1.0f64.to_bits());
    let kilograms = UnitValue::kilograms(1.0f64.to_bits());
    let velocity = UnitValue::meters(1.0f64.to_bits()).per_second();
    let acceleration = UnitValue::meters(1.0f64.to_bits()).per_second().per_second();
    let force = kilograms.per_meter().per_second().per_second();

    let a = force.add(force).unwrap();
    let a = acceleration.add(acceleration).unwrap();

    let area = UnitValue::meters(1.0f64.to_bits()).squared();
    let pressure = force.div(area);

    let scaled = distance.div_raw(2.0f64.to_bits());
    let scaled = distance.mul_raw(2.0f64.to_bits());

    println!("{}", acceleration.render());
}
