use points::fbits::encodes_nan;
use points::Point2D;
use points::Point3D;

fn q2(x: f64, y: f64) -> Point2D {
    Point2D::new(x.to_bits(), y.to_bits())
}

fn q3(x: f64, y: f64, z: f64) -> Point3D {
    Point3D::new(x.to_bits(), y.to_bits(), z.to_bits())
}

fn close(bits: u64, expected: f64) -> bool {
    (f64::from_bits(bits) - expected).abs() < 1e-9
}

#[test]
fn add_then_sub_returns_start_2d() {
    let a = q2(1.25, -7.5);
    let b = q2(3.75, 0.5);
    let r = a.add(b).sub(b);
    assert!(close(r.x, 1.25));
    assert!(close(r.y, -7.5));
}

#[test]
fn add_then_sub_returns_start_3d() {
    let a = q3(0.1, 2.5, -3.25);
    let b = q3(9.0, -4.5, 100.75);
    let r = a.add(b).sub(b);
    assert!(close(r.x, 0.1));
    assert!(close(r.y, 2.5));
    assert!(close(r.z, -3.25));
}

#[test]
fn add_commutes() {
    let a = q2(1.5, -2.25);
    let b = q2(4.75, 8.5);
    assert_eq!(a.add(b), b.add(a));
    let c = q3(0.5, 3.25, -6.0);
    let d = q3(-1.75, 2.0, 9.5);
    assert_eq!(c.add(d), d.add(c));
}

#[test]
fn mul_commutes() {
    let a = q2(1.5, -2.25);
    let b = q2(4.75, 8.5);
    assert_eq!(a.mul(b), b.mul(a));
    let c = q3(0.5, 3.25, -6.0);
    let d = q3(-1.75, 2.0, 9.5);
    assert_eq!(c.mul(d), d.mul(c));
}

#[test]
fn scalar_ops_match_splat_point_2d() {
    let p = q2(1.5, -2.25);
    let s = 3.5f64.to_bits();
    let splat = Point2D::new(s, s);
    assert_eq!(p.add_scalar(s), p.add(splat));
    assert_eq!(p.sub_scalar(s), p.sub(splat));
    assert_eq!(p.mul_scalar(s), p.mul(splat));
}

#[test]
fn scalar_ops_match_splat_point_3d() {
    let p = q3(1.5, -2.25, 4.0);
    let s = 3.5f64.to_bits();
    let splat = Point3D::new(s, s, s);
    assert_eq!(p.add_scalar(s), p.add(splat));
    assert_eq!(p.sub_scalar(s), p.sub(splat));
    assert_eq!(p.mul_scalar(s), p.mul(splat));
    assert_eq!(p.div_scalar(s), p.div(splat));
}

#[test]
fn in_place_matches_pure_2d() {
    let p = q2(1.5, -2.25);
    let r = q2(4.75, 8.5);
    let s = 0.75f64.to_bits();

    let mut m = p;
    m.add_assign(r);
    assert_eq!(m, p.add(r));
    let mut m = p;
    m.sub_assign(r);
    assert_eq!(m, p.sub(r));
    let mut m = p;
    m.mul_assign(r);
    assert_eq!(m, p.mul(r));
    let mut m = p;
    m.add_assign_scalar(s);
    assert_eq!(m, p.add_scalar(s));
    let mut m = p;
    m.sub_assign_scalar(s);
    assert_eq!(m, p.sub_scalar(s));
    let mut m = p;
    m.mul_assign_scalar(s);
    assert_eq!(m, p.mul_scalar(s));
}

#[test]
fn in_place_matches_pure_3d() {
    let p = q3(1.5, -2.25, 4.0);
    let r = q3(4.75, 8.5, -0.125);
    let s = 0.75f64.to_bits();

    let mut m = p;
    m.add_assign(r);
    assert_eq!(m, p.add(r));
    let mut m = p;
    m.sub_assign(r);
    assert_eq!(m, p.sub(r));
    let mut m = p;
    m.mul_assign(r);
    assert_eq!(m, p.mul(r));
    let mut m = p;
    m.div_assign(r);
    assert_eq!(m, p.div(r));
    let mut m = p;
    m.add_assign_scalar(s);
    assert_eq!(m, p.add_scalar(s));
    let mut m = p;
    m.sub_assign_scalar(s);
    assert_eq!(m, p.sub_scalar(s));
    let mut m = p;
    m.mul_assign_scalar(s);
    assert_eq!(m, p.mul_scalar(s));
    let mut m = p;
    m.div_assign_scalar(s);
    assert_eq!(m, p.div_scalar(s));
}

#[test]
fn div_inverts_mul_for_nonzero_scalar() {
    let p = q3(1.1, -2.3, 7.75);
    let s = 3.7f64.to_bits();
    let r = p.mul_scalar(s).div_scalar(s);
    assert!(close(r.x, 1.1));
    assert!(close(r.y, -2.3));
    assert!(close(r.z, 7.75));
}

#[test]
fn from_tuple_matches_components() {
    let a = 1.5f64.to_bits();
    let b = (-2.25f64).to_bits();
    let c = 9.0f64.to_bits();
    let p = Point2D::from((a, b));
    assert_eq!(p.x, a);
    assert_eq!(p.y, b);
    let q = Point3D::from((a, b, c));
    assert_eq!(q.x, a);
    assert_eq!(q.y, b);
    assert_eq!(q.z, c);
}

#[test]
fn concrete_scenarios() {
    assert_eq!(q3(1.0, 2.0, 3.0).add(q3(2.0, 3.0, 4.0)), q3(3.0, 5.0, 7.0));
    assert_eq!(q3(2.0, 6.0, 12.0).div(q3(2.0, 3.0, 4.0)), q3(1.0, 2.0, 3.0));
    assert_eq!(q2(1.0, 2.0).mul_scalar(2.0f64.to_bits()), q2(2.0, 4.0));
}

#[test]
fn default_is_origin() {
    assert_eq!(Point2D::default(), q2(0.0, 0.0));
    assert_eq!(Point3D::default(), q3(0.0, 0.0, 0.0));
}

#[test]
fn nan_propagates() {
    let p = Point2D::new(f64::NAN.to_bits(), 2.0f64.to_bits());
    let r = p.add(q2(1.0, 1.0));
    assert!(encodes_nan(r.x));
    assert!(f64::from_bits(r.x).is_nan());
    assert!(!encodes_nan(r.y));
    assert_eq!(f64::from_bits(r.y), 3.0);
}

#[test]
fn division_by_zero_follows_ieee() {
    let p = q3(1.0, -1.0, 0.0);
    let r = p.div_scalar(0.0f64.to_bits());
    assert_eq!(f64::from_bits(r.x), f64::INFINITY);
    assert_eq!(f64::from_bits(r.y), f64::NEG_INFINITY);
    assert!(f64::from_bits(r.z).is_nan());
    assert!(encodes_nan(r.z));
}

#[test]
fn encodes_nan_matches_ieee_classification() {
    assert!(encodes_nan(f64::NAN.to_bits()));
    assert!(!encodes_nan(f64::INFINITY.to_bits()));
    assert!(!encodes_nan(f64::NEG_INFINITY.to_bits()));
    assert!(!encodes_nan(0.0f64.to_bits()));
    assert!(!encodes_nan((-0.0f64).to_bits()));
    assert!(!encodes_nan(1.0f64.to_bits()));
    assert!(!encodes_nan(f64::MIN_POSITIVE.to_bits()));
}
