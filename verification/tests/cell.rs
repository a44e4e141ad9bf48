use minisync::cell::Cell;

#[test]
fn replace_returns_previous_value() {
    let mut c = Cell::new(1u32);
    assert_eq!(c.replace(2), 1);
    assert_eq!(c.get(), 2);
    assert_eq!(c.into_inner(), 2);
}

#[test]
fn set_overwrites_stored_value() {
    let mut c = Cell::new(5i64);
    c.set(-7);
    assert_eq!(c.get(), -7);
    c.set(8);
    assert_eq!(c.into_inner(), 8);
}

#[test]
fn new_then_into_inner_round_trip() {
    let c = Cell::new(String::from("abc"));
    assert_eq!(c.into_inner(), "abc");
}

#[test]
fn get_does_not_consume_the_value() {
    let c = Cell::new(9u8);
    assert_eq!(c.get(), 9);
    assert_eq!(c.get(), 9);
    assert_eq!(c.into_inner(), 9);
}
