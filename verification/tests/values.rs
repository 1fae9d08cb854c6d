use light_attitude::scalar::{ONE_BITS, SIGN_BIT, ZERO_BITS};
use light_attitude::{
    DeltaAttitude, IlluminationModel, LightAttitudeSpec, Matrix4x4, PointLightModel,
    PointLightModelSpec, Quaternion, Radians, Scalar, SpotLightModel, SpotLightModelSpec, Vector3,
    Vector4,
};

fn s(x: f64) -> Scalar {
    Scalar::from_bits(x.to_bits())
}

fn f(x: Scalar) -> f64 {
    f64::from_bits(x.to_bits())
}

fn v3(x: f64, y: f64, z: f64) -> Vector3 {
    Vector3::new(s(x), s(y), s(z))
}

fn bits3(v: Vector3) -> [u64; 3] {
    [v.x.to_bits(), v.y.to_bits(), v.z.to_bits()]
}

fn bits4(v: Vector4) -> [u64; 4] {
    [v.x.to_bits(), v.y.to_bits(), v.z.to_bits(), v.w.to_bits()]
}

#[test]
fn scalar_constants_are_the_doubles_they_name() {
    assert_eq!(ZERO_BITS, 0.0f64.to_bits());
    assert_eq!(ONE_BITS, 1.0f64.to_bits());
    assert_eq!(SIGN_BIT, (-0.0f64).to_bits());
    assert_eq!(Scalar::zero().to_bits(), 0.0f64.to_bits());
    assert_eq!(Scalar::one().to_bits(), 1.0f64.to_bits());
    assert_eq!(Scalar::one().neg().to_bits(), (-1.0f64).to_bits());
}

#[test]
fn scalar_round_trips_through_its_bits() {
    for x in [0.0, -0.0, 1.5, -2.25, 1.0e300, f64::MIN_POSITIVE, f64::INFINITY] {
        assert_eq!(s(x).to_bits(), x.to_bits());
        assert_eq!(f(s(x)), x);
    }
    assert_eq!(Scalar::from_bits(0x4009_21FB_5444_2D18).to_bits(), std::f64::consts::PI.to_bits());
}

#[test]
fn neg_is_the_negation_of_doubles() {
    for x in [0.0, -0.0, 1.0, -1.0, 3.5, -7.125e-9, f64::MAX, f64::INFINITY, f64::NEG_INFINITY] {
        assert_eq!(s(x).neg().to_bits(), (-x).to_bits());
        assert_eq!(s(x).neg().neg().to_bits(), x.to_bits());
    }
    assert!(f(s(f64::NAN).neg()).is_nan());
    assert_eq!(s(f64::NAN).neg().to_bits(), (-f64::NAN).to_bits());
    assert_eq!(s(2.0).neg().to_bits(), 0xC000_0000_0000_0000);
}

#[test]
fn neg_of_zero_is_negative_zero() {
    let z = Scalar::zero().neg();
    assert_eq!(z.to_bits(), 0x8000_0000_0000_0000);
    assert_eq!(f(z), 0.0);
    assert!(f(z).is_sign_negative());
}

#[test]
fn radians_zero_is_zero() {
    assert_eq!(Radians::zero().0.to_bits(), 0);
    assert_eq!(Radians(s(1.25)).0.to_bits(), 1.25f64.to_bits());
}

#[test]
fn vector3_new_keeps_its_components() {
    let v = v3(1.0, -2.0, 3.5);
    assert_eq!(bits3(v), [1.0f64.to_bits(), (-2.0f64).to_bits(), 3.5f64.to_bits()]);
}

#[test]
fn vector3_constants() {
    assert_eq!(bits3(Vector3::zero()), bits3(v3(0.0, 0.0, 0.0)));
    assert_eq!(bits3(Vector3::unit_x()), bits3(v3(1.0, 0.0, 0.0)));
    assert_eq!(bits3(Vector3::unit_y()), bits3(v3(0.0, 1.0, 0.0)));
    assert_eq!(bits3(Vector3::neg_unit_z()), bits3(v3(0.0, 0.0, -1.0)));
}

#[test]
fn vector3_neg_changes_every_sign() {
    assert_eq!(bits3(v3(1.0, -2.0, 0.0).neg()), bits3(v3(-1.0, 2.0, -0.0)));
    assert_eq!(bits3(v3(1.0, -2.0, 0.0).neg().neg()), bits3(v3(1.0, -2.0, 0.0)));
}

#[test]
fn to_homogeneous_appends_zero_and_contract_drops_it() {
    let v = v3(4.0, 5.0, 6.0);
    let h = v.to_homogeneous();
    assert_eq!(bits4(h), [4.0f64.to_bits(), 5.0f64.to_bits(), 6.0f64.to_bits(), 0]);
    assert_eq!(bits3(h.contract()), bits3(v));
}

#[test]
fn contract_keeps_the_first_three_components() {
    let h = Vector4::new(s(1.0), s(2.0), s(3.0), s(4.0));
    assert_eq!(bits4(h), [1.0f64.to_bits(), 2.0f64.to_bits(), 3.0f64.to_bits(), 4.0f64.to_bits()]);
    assert_eq!(bits3(h.contract()), bits3(v3(1.0, 2.0, 3.0)));
}

#[test]
fn quaternion_parts() {
    let q = Quaternion::from_parts(s(0.5), v3(1.0, 2.0, 3.0));
    assert_eq!(q.s.to_bits(), 0.5f64.to_bits());
    assert_eq!(bits3(q.v), bits3(v3(1.0, 2.0, 3.0)));
    let p = Quaternion::pure(v3(0.0, 1.0, 0.0));
    assert_eq!(p.s.to_bits(), 0);
    assert_eq!(bits3(p.v), bits3(v3(0.0, 1.0, 0.0)));
}

#[test]
fn matrix_from_columns_keeps_its_columns() {
    let c = |k: f64| Vector4::new(s(k), s(k + 1.0), s(k + 2.0), s(k + 3.0));
    let m = Matrix4x4::from_columns(c(0.0), c(4.0), c(8.0), c(12.0));
    assert_eq!(bits4(m.c0), bits4(c(0.0)));
    assert_eq!(bits4(m.c1), bits4(c(4.0)));
    assert_eq!(bits4(m.c2), bits4(c(8.0)));
    assert_eq!(bits4(m.c3), bits4(c(12.0)));
}

#[test]
fn translation_matrix_holds_the_distance_in_its_last_column() {
    let m = Matrix4x4::from_affine_translation(&v3(1.0, 2.0, 3.0));
    let col = |x: f64, y: f64, z: f64, w: f64| bits4(Vector4::new(s(x), s(y), s(z), s(w)));
    assert_eq!(bits4(m.c0), col(1.0, 0.0, 0.0, 0.0));
    assert_eq!(bits4(m.c1), col(0.0, 1.0, 0.0, 0.0));
    assert_eq!(bits4(m.c2), col(0.0, 0.0, 1.0, 0.0));
    assert_eq!(bits4(m.c3), col(1.0, 2.0, 3.0, 1.0));
}

#[test]
fn delta_new_stores_its_arguments() {
    let d = DeltaAttitude::new(v3(1.0, 2.0, 3.0), Radians(s(0.1)), Radians(s(0.2)), Radians(s(0.3)));
    assert_eq!(bits3(d.delta_position), bits3(v3(1.0, 2.0, 3.0)));
    assert_eq!(d.roll.0.to_bits(), 0.1f64.to_bits());
    assert_eq!(d.yaw.0.to_bits(), 0.2f64.to_bits());
    assert_eq!(d.pitch.0.to_bits(), 0.3f64.to_bits());
}

#[test]
fn delta_zero_is_all_zero() {
    let d = DeltaAttitude::zero();
    assert_eq!(bits3(d.delta_position), [0, 0, 0]);
    assert_eq!(d.roll.0.to_bits(), 0);
    assert_eq!(d.yaw.0.to_bits(), 0);
    assert_eq!(d.pitch.0.to_bits(), 0);
}

#[test]
fn attitude_spec_new_stores_its_arguments() {
    let spec = LightAttitudeSpec::new(
        v3(1.0, 2.0, 3.0),
        v3(0.0, 0.0, -1.0),
        v3(1.0, 0.0, 0.0),
        v3(0.0, 1.0, 0.0),
        v3(0.0, 0.0, 1.0),
    );
    assert_eq!(bits3(spec.position), bits3(v3(1.0, 2.0, 3.0)));
    assert_eq!(bits3(spec.forward), bits3(v3(0.0, 0.0, -1.0)));
    assert_eq!(bits3(spec.right), bits3(v3(1.0, 0.0, 0.0)));
    assert_eq!(bits3(spec.up), bits3(v3(0.0, 1.0, 0.0)));
    assert_eq!(bits3(spec.axis), bits3(v3(0.0, 0.0, 1.0)));
}

#[test]
fn point_light_model_copies_its_spec() {
    let spec = PointLightModelSpec::new(v3(0.1, 0.2, 0.3), v3(0.4, 0.5, 0.6), v3(0.7, 0.8, 0.9));
    assert_eq!(bits3(spec.ambient), bits3(v3(0.1, 0.2, 0.3)));
    assert_eq!(bits3(spec.diffuse), bits3(v3(0.4, 0.5, 0.6)));
    assert_eq!(bits3(spec.specular), bits3(v3(0.7, 0.8, 0.9)));
    let model = PointLightModel::from_spec(&spec);
    assert_eq!(bits3(model.ambient), bits3(v3(0.1, 0.2, 0.3)));
    assert_eq!(bits3(model.diffuse), bits3(v3(0.4, 0.5, 0.6)));
    assert_eq!(bits3(model.specular), bits3(v3(0.7, 0.8, 0.9)));
}

#[test]
fn spot_light_model_copies_its_spec() {
    let spec = SpotLightModelSpec::new(
        s(12.5),
        s(17.5),
        v3(0.1, 0.2, 0.3),
        v3(0.4, 0.5, 0.6),
        v3(0.7, 0.8, 0.9),
        s(1.0),
        s(0.09),
        s(0.032),
    );
    assert_eq!(spec.cutoff.to_bits(), 12.5f64.to_bits());
    assert_eq!(spec.outer_cutoff.to_bits(), 17.5f64.to_bits());
    assert_eq!(spec.constant.to_bits(), 1.0f64.to_bits());
    assert_eq!(spec.linear.to_bits(), 0.09f64.to_bits());
    assert_eq!(spec.quadratic.to_bits(), 0.032f64.to_bits());
    let model = SpotLightModel::from_spec(&spec);
    assert_eq!(model.cutoff.to_bits(), 12.5f64.to_bits());
    assert_eq!(model.outer_cutoff.to_bits(), 17.5f64.to_bits());
    assert_eq!(bits3(model.ambient), bits3(v3(0.1, 0.2, 0.3)));
    assert_eq!(bits3(model.diffuse), bits3(v3(0.4, 0.5, 0.6)));
    assert_eq!(bits3(model.specular), bits3(v3(0.7, 0.8, 0.9)));
    assert_eq!(model.constant.to_bits(), 1.0f64.to_bits());
    assert_eq!(model.linear.to_bits(), 0.09f64.to_bits());
    assert_eq!(model.quadratic.to_bits(), 0.032f64.to_bits());
}
