use chrdev::builder::{builder, Builder};
use chrdev::error::Error;
use chrdev::name::CStr;
use chrdev::protocol::{Action, Directory, HandlerBinding};
use chrdev::registration::Progress;

fn named(base: &str, first: u16, end: u16) -> Builder {
    builder(CStr::new(base.as_bytes().to_vec()), first..end).unwrap()
}

#[test]
fn a_new_builder_is_empty() {
    let b = named("dev", 0, 4);
    assert_eq!(b.handler_count(), 0);
    assert_eq!(b.capacity(), 4);
    assert_eq!(b.first(), 0);
    assert_eq!(b.directory(), None);
    assert_eq!(b.handler(0), None);
    assert_eq!(b.name().as_bytes_with_nul(), &b"dev\0".to_vec());
    assert!(b.has_room());
}

#[test]
fn the_window_is_measured_from_its_start() {
    let b = named("dev", 10, 13);
    assert_eq!(b.first(), 10);
    assert_eq!(b.capacity(), 3);
    let whole = named("dev", 0, u16::MAX);
    assert_eq!(whole.capacity(), u16::MAX);
}

#[test]
fn an_empty_or_reversed_window_has_no_room() {
    let empty = named("dev", 5, 5);
    assert_eq!(empty.capacity(), 0);
    assert!(!empty.has_room());
    assert_eq!(
        empty.register_device(HandlerBinding { table: 1 }).err(),
        Some(Error::CapacityExceeded)
    );
    let reversed = named("dev", 9, 3);
    assert_eq!(reversed.capacity(), 0);
    assert_eq!(reversed.first(), 9);
    assert_eq!(
        reversed.register_device(HandlerBinding { table: 1 }).err(),
        Some(Error::CapacityExceeded)
    );
}

#[test]
fn handlers_are_bound_in_order() {
    let b = named("dev", 0, 4)
        .register_device(HandlerBinding { table: 11 })
        .unwrap()
        .register_device(HandlerBinding { table: 22 })
        .unwrap()
        .register_device(HandlerBinding { table: 33 })
        .unwrap();
    assert_eq!(b.handler_count(), 3);
    assert_eq!(b.handler(0), Some(HandlerBinding { table: 11 }));
    assert_eq!(b.handler(1), Some(HandlerBinding { table: 22 }));
    assert_eq!(b.handler(2), Some(HandlerBinding { table: 33 }));
    assert_eq!(b.handler(3), None);
    assert!(b.has_room());
    assert_eq!(b.capacity(), 4);
}

#[test]
fn a_fifth_handler_exceeds_a_window_of_four() {
    let mut b = named("dev", 0, 4);
    let mut i: usize = 0;
    while i < 4 {
        b = b.register_device(HandlerBinding { table: 100 + i }).unwrap();
        i += 1;
    }
    assert_eq!(b.handler_count(), 4);
    assert!(!b.has_room());
    let fifth = b.register_device(HandlerBinding { table: 104 });
    assert_eq!(fifth.err(), Some(Error::CapacityExceeded));
}

#[test]
fn a_window_can_be_filled_to_the_brim() {
    let mut b = named("dev", 0, 4);
    let mut i: usize = 0;
    while i < 4 {
        assert!(b.has_room());
        b = b.register_device(HandlerBinding { table: i }).unwrap();
        assert!(b.handler_count() <= b.capacity() as usize);
        i += 1;
    }
    assert_eq!(b.handler_count(), 4);
}

#[test]
fn the_directory_is_recorded() {
    let b = named("dev", 0, 2).register_class(700, 800);
    assert_eq!(b.directory(), Some(Directory { class: 700, parent: 800 }));
    assert_eq!(b.handler_count(), 0);
    assert_eq!(b.capacity(), 2);
    let again = b.register_class(1, 2);
    assert_eq!(again.directory(), Some(Directory { class: 1, parent: 2 }));
}

#[test]
fn the_directory_does_not_disturb_the_handlers() {
    let b = named("dev", 4, 6)
        .register_device(HandlerBinding { table: 5 })
        .unwrap()
        .register_class(700, 800)
        .register_device(HandlerBinding { table: 6 })
        .unwrap();
    assert_eq!(b.handler(0), Some(HandlerBinding { table: 5 }));
    assert_eq!(b.handler(1), Some(HandlerBinding { table: 6 }));
    assert_eq!(b.directory(), Some(Directory { class: 700, parent: 800 }));
    assert_eq!(b.first(), 4);
}

#[test]
fn building_asks_for_the_range_first() {
    let b = named("dev", 3, 8)
        .register_device(HandlerBinding { table: 5 })
        .unwrap()
        .register_device(HandlerBinding { table: 6 })
        .unwrap();
    match b.build() {
        Progress::Pending(build) => {
            assert_eq!(
                build.action(),
                Action::AcquireRange { first: 3, count: 2, name: b"dev\0".to_vec() }
            );
            assert_eq!(build.slots().len(), 0);
        }
        other => panic!("unexpected {:?}", other),
    }
}
