use anybar::{Anybar, AnybarError};

#[test]
fn valid_port() {
    let bar = Anybar::new(1708).unwrap();
    assert_eq!(bar.port, 1708);
}

#[test]
fn new_handle_has_no_color() {
    let bar = Anybar::new(1708).unwrap();
    assert_eq!(bar.color, None);
}

#[test]
fn default_port() {
    let bar = Anybar::default();
    assert_eq!(bar.port, 1738);
    assert_eq!(bar.color, None);
}

#[test]
fn lowest_and_highest_port() {
    assert_eq!(Anybar::new(0).unwrap().port, 0);
    assert_eq!(Anybar::new(65535).unwrap().port, 65535);
}

#[test]
fn ports_in_the_upper_range() {
    assert_eq!(Anybar::new(6553).unwrap().port, 6553);
    assert_eq!(Anybar::new(6554).unwrap().port, 6554);
    assert_eq!(Anybar::new(49152).unwrap().port, 49152);
}

#[test]
fn number_beyond_the_ports() {
    assert_eq!(Anybar::new(65536), Err(AnybarError::InvalidPort));
    assert_eq!(Anybar::new(70000), Err(AnybarError::InvalidPort));
    assert_eq!(Anybar::new(u32::MAX), Err(AnybarError::InvalidPort));
}
