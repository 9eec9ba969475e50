use chrdev::name::{decimal, device_name, CStr};

#[test]
fn name_of_slot_two_under_dev() {
    let name = CStr::new(b"dev".to_vec());
    assert_eq!(device_name(&name, 2), b"dev_2\0".to_vec());
}

#[test]
fn name_has_a_single_trailing_terminator() {
    let name = CStr::new(b"dev".to_vec());
    let full = device_name(&name, 2);
    assert_eq!(full.len(), 6);
    assert_eq!(full.iter().filter(|b| **b == 0).count(), 1);
    assert_eq!(full[full.len() - 1], 0);
}

#[test]
fn name_of_slot_zero() {
    let name = CStr::new(b"tty".to_vec());
    assert_eq!(device_name(&name, 0), b"tty_0\0".to_vec());
}

#[test]
fn name_of_a_slot_with_several_digits() {
    let name = CStr::new(b"chr".to_vec());
    assert_eq!(device_name(&name, 10), b"chr_10\0".to_vec());
    assert_eq!(device_name(&name, 65534), b"chr_65534\0".to_vec());
}

#[test]
fn name_under_an_empty_base() {
    let name = CStr::new(Vec::new());
    assert_eq!(device_name(&name, 7), b"_7\0".to_vec());
}

#[test]
fn decimal_of_small_and_large_numbers() {
    assert_eq!(decimal(0), b"0".to_vec());
    assert_eq!(decimal(9), b"9".to_vec());
    assert_eq!(decimal(10), b"10".to_vec());
    assert_eq!(decimal(99), b"99".to_vec());
    assert_eq!(decimal(100), b"100".to_vec());
    assert_eq!(decimal(1234567), b"1234567".to_vec());
}

#[test]
fn decimal_agrees_with_the_standard_rendering() {
    let mut n: usize = 0;
    while n < 3000 {
        assert_eq!(decimal(n), n.to_string().into_bytes());
        n += 7;
    }
    assert_eq!(decimal(usize::MAX), usize::MAX.to_string().into_bytes());
}

#[test]
fn new_appends_the_terminator() {
    let name = CStr::new(b"dev".to_vec());
    assert_eq!(name.as_bytes_with_nul(), &b"dev\0".to_vec());
}

#[test]
fn stripping_takes_the_terminator_off() {
    let name = CStr::new(b"dev".to_vec());
    assert_eq!(name.to_stripped(), b"dev".to_vec());
    let empty = CStr::new(Vec::new());
    assert_eq!(empty.to_stripped(), Vec::<u8>::new());
}

#[test]
fn terminated_bytes_are_accepted_as_they_are() {
    let name = CStr::from_bytes_with_nul(b"dev\0".to_vec());
    assert!(name.is_some());
    assert_eq!(name.unwrap().as_bytes_with_nul(), &b"dev\0".to_vec());
    let only = CStr::from_bytes_with_nul(vec![0]);
    assert_eq!(only.unwrap().to_stripped(), Vec::<u8>::new());
}

#[test]
fn unterminated_bytes_are_refused() {
    assert!(CStr::from_bytes_with_nul(b"dev".to_vec()).is_none());
    assert!(CStr::from_bytes_with_nul(Vec::new()).is_none());
    assert!(CStr::from_bytes_with_nul(b"\0dev".to_vec()).is_none());
}

#[test]
fn duplicate_keeps_the_bytes() {
    let name = CStr::new(b"dev".to_vec());
    let copy = name.duplicate();
    assert_eq!(copy.as_bytes_with_nul(), name.as_bytes_with_nul());
}
