use self_delete::error::SelfDeleteError;
use self_delete::path::{ExecutablePath, MAX_PATH_LENGTH};

fn buffer_of(text: &str) -> Vec<u16> {
    let mut buffer = vec![0u16; MAX_PATH_LENGTH + 1];
    for (i, unit) in text.encode_utf16().enumerate() {
        buffer[i] = unit;
    }
    buffer
}

#[test]
fn path_bound_is_five_hundred() {
    assert_eq!(MAX_PATH_LENGTH, 500);
}

#[test]
fn zero_length_is_a_failed_resolution() {
    let buffer = vec![0u16; MAX_PATH_LENGTH + 1];
    match ExecutablePath::resolve(&buffer, 0) {
        Err(error) => assert_eq!(error, SelfDeleteError::PathResolutionFailed),
        Ok(_) => panic!("no path was reported"),
    }
    let filled = buffer_of("C:\\a.exe");
    match ExecutablePath::resolve(&filled, 0) {
        Err(error) => assert_eq!(error, SelfDeleteError::PathResolutionFailed),
        Ok(_) => panic!("no path was reported"),
    }
}

#[test]
fn reported_path_is_the_start_of_the_buffer() {
    let buffer = buffer_of("C:\\tools\\demo.exe");
    let path = ExecutablePath::resolve(&buffer, 17).unwrap();
    let expected: Vec<u16> = "C:\\tools\\demo.exe".encode_utf16().collect();
    assert_eq!(path.units(), &expected);
    assert_eq!(path.units().len(), 17);
}

#[test]
fn path_ends_where_the_reported_length_ends() {
    let buffer = buffer_of("C:\\tools\\demo.exe");
    let path = ExecutablePath::resolve(&buffer, 8).unwrap();
    let expected: Vec<u16> = "C:\\tools".encode_utf16().collect();
    assert_eq!(path.units(), &expected);
}

#[test]
fn path_of_one_unit_is_accepted() {
    let path = ExecutablePath::resolve(&[0x41], 1).unwrap();
    assert_eq!(path.units(), &vec![0x41u16]);
}

#[test]
fn path_of_five_hundred_units_is_accepted() {
    let buffer = vec![0x61u16; MAX_PATH_LENGTH + 1];
    let path = ExecutablePath::resolve(&buffer, 500).unwrap();
    assert_eq!(path.units().len(), 500);
    assert_eq!(path.to_wide_nul().len(), 501);
}

#[test]
fn length_over_the_bound_is_a_failed_resolution() {
    let buffer = vec![0x61u16; 600];
    match ExecutablePath::resolve(&buffer, 501) {
        Err(error) => assert_eq!(error, SelfDeleteError::PathResolutionFailed),
        Ok(_) => panic!("a path over the bound was accepted"),
    }
    match ExecutablePath::resolve(&buffer, u32::MAX) {
        Err(error) => assert_eq!(error, SelfDeleteError::PathResolutionFailed),
        Ok(_) => panic!("a path over the bound was accepted"),
    }
}

#[test]
fn length_over_the_buffer_is_a_failed_resolution() {
    let buffer = vec![0x61u16; 10];
    match ExecutablePath::resolve(&buffer, 11) {
        Err(error) => assert_eq!(error, SelfDeleteError::PathResolutionFailed),
        Ok(_) => panic!("a path longer than its buffer was accepted"),
    }
    assert!(ExecutablePath::resolve(&buffer, 10).is_ok());
    match ExecutablePath::resolve(&[], 1) {
        Err(error) => assert_eq!(error, SelfDeleteError::PathResolutionFailed),
        Ok(_) => panic!("a path longer than its buffer was accepted"),
    }
}

#[test]
fn terminator_follows_the_path() {
    let buffer = buffer_of("C:\\x.exe");
    let path = ExecutablePath::resolve(&buffer, 8).unwrap();
    let mut expected: Vec<u16> = "C:\\x.exe".encode_utf16().collect();
    expected.push(0);
    assert_eq!(path.to_wide_nul(), expected);
    assert_eq!(path.units().len() + 1, path.to_wide_nul().len());
}
