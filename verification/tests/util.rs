use render_core::glyph::pad_font_bytes;
use render_core::pt3::{almost_eq, max, min, Point3};
use render_core::ui::{Mat4, UiUniforms};

fn pt(x: i64, y: i64, z: i64) -> Point3 {
    Point3 { x, y, z }
}

#[test]
fn min_is_componentwise() {
    let a = pt(1, 5, -3);
    let b = pt(2, 4, -7);
    assert_eq!(min(&a, &b), pt(1, 4, -7));
}

#[test]
fn max_is_componentwise() {
    let a = pt(1, 5, -3);
    let b = pt(2, 4, -7);
    assert_eq!(max(&a, &b), pt(2, 5, -3));
}

#[test]
fn almost_eq_tolerates_one_unit() {
    let a = pt(100, 200, 300);
    assert!(almost_eq(&a, &pt(101, 199, 300)));
    assert!(!almost_eq(&a, &pt(102, 200, 300)));
    assert!(!almost_eq(&a, &pt(100, 200, 302)));
    // Extreme coordinates do not wrap.
    assert!(!almost_eq(&pt(i64::MAX, 0, 0), &pt(i64::MIN, 0, 0)));
    assert!(almost_eq(&pt(i64::MAX, 0, 0), &pt(i64::MAX - 1, 0, 0)));
}

#[test]
fn pad_font_bytes_quadruples_each_byte() {
    assert_eq!(pad_font_bytes(vec![1, 2]), vec![1, 1, 1, 1, 2, 2, 2, 2]);
    assert_eq!(pad_font_bytes(Vec::new()), Vec::<u8>::new());
    assert_eq!(pad_font_bytes(vec![255]), vec![255, 255, 255, 255]);
}

#[test]
fn ui_uniforms_keep_their_matrix() {
    let m = Mat4::identity();
    assert_eq!(m.entries.len(), 16);
    assert_eq!(m.entries[0], 0x10000);
    assert_eq!(m.entries[1], 0);
    assert_eq!(m.entries[5], 0x10000);
    assert_eq!(m.entries[15], 0x10000);
    let entries = m.entries.clone();
    let u = UiUniforms::new(m);
    assert_eq!(u.screen_space_normalize_mat.entries, entries);
}
