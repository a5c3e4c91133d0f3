use invensense_mpu::ratio::Ratio;
use invensense_mpu::triplet::Triplet;

#[test]
fn array_conversion_orders_the_axes() {
    let t = Triplet { x: 1, y: 2, z: 3 };
    let a: [i32; 3] = t.into();
    assert_eq!(&a[..], &[1, 2, 3]);
}

#[test]
fn array_conversion_round_trips() {
    let t = Triplet::from((1, 2, 3));
    let mut a: [i32; 3] = t.into();
    a[1] = 42;
    assert_eq!(Triplet::from(a), Triplet::from([1, 42, 3]));
}

#[test]
fn triplet_from_tuple_and_array_agree() {
    let a = Triplet::from((1, 2, 3));
    let b = Triplet::from([1, 2, 3]);
    assert_eq!(a, b);
    assert_eq!(a, Triplet { x: 1, y: 2, z: 3 });
    let back: (i32, i32, i32) = a.into();
    assert_eq!(back, (1, 2, 3));
}

#[test]
fn map_applies_to_each_axis() {
    let t = Triplet { x: 1u8, y: 20, z: 255 }.map(|v| v as u16 + 1);
    assert_eq!(t, Triplet { x: 2u16, y: 21, z: 256 });
}

#[test]
fn scalar_combines_axis_by_axis() {
    let a = Triplet { x: 1, y: 2, z: 3 };
    let b = Triplet { x: 10, y: 20, z: 30 };
    assert_eq!(a.scalar(b, |p, q| q - p), Triplet { x: 9, y: 18, z: 27 });
}

#[test]
fn operators_work_axis_by_axis() {
    let a = Triplet { x: 12, y: 20, z: -30 };
    let b = Triplet { x: 3, y: 4, z: 5 };
    assert_eq!(a * b, Triplet { x: 36, y: 80, z: -150 });
    assert_eq!(a + b, Triplet { x: 15, y: 24, z: -25 });
    assert_eq!(a - b, Triplet { x: 9, y: 16, z: -35 });
    assert_eq!(a / b, Triplet { x: 4, y: 5, z: -6 });
}

#[test]
fn ratios_multiply_exactly() {
    let a = Ratio { num: -3, den: 4 };
    let b = Ratio { num: 5, den: 7 };
    assert_eq!(a * b, Ratio { num: -15, den: 28 });
    assert_eq!(a.times(-8), Ratio { num: 24, den: 4 });
    let t = Triplet { x: a, y: b, z: a } * Triplet { x: b, y: b, z: a };
    assert_eq!(t.x, Ratio { num: -15, den: 28 });
    assert_eq!(t.y, Ratio { num: 25, den: 49 });
    assert_eq!(t.z, Ratio { num: 9, den: 16 });
}

#[test]
fn default_triplet_holds_default_readings() {
    assert_eq!(Triplet::<i16>::default(), Triplet { x: 0, y: 0, z: 0 });
    assert_eq!(Triplet::<Option<u8>>::default(), Triplet { x: None, y: None, z: None });
}
