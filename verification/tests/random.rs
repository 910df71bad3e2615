use c_ward::rand48::{lrand48, mrand48};

#[test]
fn lrand48_stays_in_range() {
    for _ in 0..1000 {
        let r = lrand48();
        assert!((0..=i32::MAX as i64).contains(&r));
    }
}

#[test]
fn mrand48_stays_in_range() {
    let mut negative = false;
    for _ in 0..1000 {
        let r = mrand48();
        assert!((i32::MIN as i64..=i32::MAX as i64).contains(&r));
        negative |= r < 0;
    }
    assert!(negative);
}
