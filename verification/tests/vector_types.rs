use drawing_in_3d::vector_types::vector_uint2;

#[test]
fn vector_types_it_works() {
    assert_eq!(2 + 2, 4);
}

#[test]
fn uint2_keeps_both_components() {
    let v = vector_uint2::new(7, 9);
    assert_eq!(v.x(), 7);
    assert_eq!(v.y(), 9);
}

#[test]
fn uint2_components_do_not_leak_into_each_other() {
    let v = vector_uint2::new(u32::MAX, 0);
    assert_eq!(v.x(), u32::MAX);
    assert_eq!(v.y(), 0);
    let w = vector_uint2::new(0, u32::MAX);
    assert_eq!(w.x(), 0);
    assert_eq!(w.y(), u32::MAX);
    let m = vector_uint2::new(u32::MAX, u32::MAX);
    assert_eq!(m.x(), u32::MAX);
    assert_eq!(m.y(), u32::MAX);
}

#[test]
fn uint2_default_is_zero() {
    let v = vector_uint2::default();
    assert_eq!((v.x(), v.y()), (0, 0));
}

#[test]
fn uint2_is_copied_by_value() {
    let v = vector_uint2::new(0x1234_5678, 0x9abc_def0);
    let w = v;
    assert_eq!(v.x(), w.x());
    assert_eq!(v.y(), w.y());
    assert_eq!(w.x(), 0x1234_5678);
    assert_eq!(w.y(), 0x9abc_def0);
}
