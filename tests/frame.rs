use plane_surface::frame::{reference_axis, ReferenceAxis};

#[test]
fn normal_with_small_z_uses_z_axis() {
    assert_eq!(reference_axis(false, true), ReferenceAxis::Z);
}

#[test]
fn normal_with_positive_z_uses_x_axis() {
    assert_eq!(reference_axis(false, false), ReferenceAxis::X);
}

#[test]
fn normal_along_z_uses_x_axis() {
    assert_eq!(reference_axis(true, true), ReferenceAxis::X);
    assert_eq!(reference_axis(true, false), ReferenceAxis::X);
}

#[test]
fn tie_break_on_concrete_normals() {
    // unit normals, whether they lie along Z, and the tolerance test on their Z component
    let normals: [[f64; 3]; 4] = [[1.0, 0.0, 0.0], [0.0, 0.0, 1.0], [0.0, 0.6, 0.8], [0.0, 0.0, -1.0]];
    let expected = [ReferenceAxis::Z, ReferenceAxis::X, ReferenceAxis::X, ReferenceAxis::X];
    for (n, e) in normals.iter().zip(expected.iter()) {
        let along_z = n[0] == 0.0 && n[1] == 0.0;
        assert_eq!(reference_axis(along_z, n[2] < f64::EPSILON), *e);
    }
}
