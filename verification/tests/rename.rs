use self_delete::error::SelfDeleteError;
use self_delete::rename::{
    least_rename_size, rename_outcome, HandleWidth, RenameRequest, RENAME_INFORMATION_CLASS,
    STREAM_NAME,
};
use windows_sys::Win32::Foundation::HANDLE;
use windows_sys::Win32::Storage::FileSystem::{FileRenameInfo, FILE_RENAME_INFO};

fn host_width() -> HandleWidth {
    if std::mem::size_of::<HANDLE>() == 8 {
        HandleWidth::Eight
    } else {
        HandleWidth::Four
    }
}

#[test]
fn stream_name_is_colon_one_two() {
    assert_eq!(STREAM_NAME, ":12");
}

#[test]
fn declared_length_is_six_bytes_not_eight() {
    let request = RenameRequest::alternate_stream();
    assert_eq!(request.file_name().len(), 3);
    assert_eq!(request.file_name_length(), 6);
    assert_ne!(request.file_name_length(), 8);
}

#[test]
fn alternate_stream_name_has_no_terminator() {
    let request = RenameRequest::alternate_stream();
    assert_eq!(request.file_name(), &vec![0x3Au16, 0x31, 0x32]);
    assert!(!request.file_name().contains(&0));
}

#[test]
fn request_for_a_stream_counts_two_bytes_per_unit() {
    let request = RenameRequest::for_stream(":12").unwrap();
    assert_eq!(request.file_name(), &vec![0x3Au16, 0x31, 0x32]);
    assert_eq!(request.file_name_length(), 6);

    let pair = RenameRequest::for_stream(":\u{1D11E}").unwrap();
    assert_eq!(pair.file_name(), &vec![0x3Au16, 0xD834, 0xDD1E]);
    assert_eq!(pair.file_name_length(), 6);

    let empty = RenameRequest::for_stream("").unwrap();
    assert_eq!(empty.file_name().len(), 0);
    assert_eq!(empty.file_name_length(), 0);
}

#[test]
fn handle_width_in_bytes() {
    assert_eq!(HandleWidth::Four.bytes(), 4);
    assert_eq!(HandleWidth::Eight.bytes(), 8);
}

#[test]
fn rename_request_on_eight_byte_handles() {
    let bytes = RenameRequest::alternate_stream().encode(HandleWidth::Eight);
    let expected: Vec<u8> = vec![
        0, 0, 0, 0, // flag word: do not replace
        0, 0, 0, 0, // padding
        0, 0, 0, 0, 0, 0, 0, 0, // root directory
        6, 0, 0, 0, // length of the name in bytes
        0x3A, 0, 0x31, 0, 0x32, 0, // the name
    ];
    assert_eq!(bytes, expected);
    assert_eq!(bytes.len(), 26);
}

#[test]
fn rename_request_on_four_byte_handles() {
    let bytes = RenameRequest::alternate_stream().encode(HandleWidth::Four);
    let expected: Vec<u8> = vec![
        0, 0, 0, 0, // flag word: do not replace
        0, 0, 0, 0, // root directory
        6, 0, 0, 0, // length of the name in bytes
        0x3A, 0, 0x31, 0, 0x32, 0, // the name
    ];
    assert_eq!(bytes, expected);
    assert_eq!(bytes.len(), 18);
}

#[test]
fn short_name_is_padded_to_the_least_size() {
    let request = RenameRequest::for_stream(":").unwrap();
    let wide = request.encode(HandleWidth::Eight);
    assert_eq!(wide.len(), 24);
    assert_eq!(&wide[16..], &[2, 0, 0, 0, 0x3A, 0, 0, 0]);
    let narrow = request.encode(HandleWidth::Four);
    assert_eq!(narrow.len(), 16);
    assert_eq!(&narrow[8..], &[2, 0, 0, 0, 0x3A, 0, 0, 0]);
}

#[test]
fn empty_name_is_padded_to_the_least_size() {
    let request = RenameRequest::for_stream("").unwrap();
    assert_eq!(request.encode(HandleWidth::Eight), vec![0u8; 24]);
    assert_eq!(request.encode(HandleWidth::Four), vec![0u8; 16]);
}

#[test]
fn length_word_counts_the_name_bytes_that_follow() {
    let request = RenameRequest::for_stream(":stream\u{10348}").unwrap();
    let bytes = request.encode(HandleWidth::Eight);
    let declared = u32::from_le_bytes([bytes[16], bytes[17], bytes[18], bytes[19]]);
    assert_eq!(declared, request.file_name_length());
    assert_eq!(declared, 18);
    assert_eq!(bytes.len(), 20 + 18);
    let mut name = Vec::new();
    for pair in bytes[20..].chunks(2) {
        name.push(u16::from_le_bytes([pair[0], pair[1]]));
    }
    assert_eq!(&name, request.file_name());
}

#[test]
fn least_size_is_the_size_of_the_system_structure() {
    let width = host_width();
    assert_eq!(least_rename_size(width), std::mem::size_of::<FILE_RENAME_INFO>());
    assert_eq!(least_rename_size(HandleWidth::Eight), 24);
    assert_eq!(least_rename_size(HandleWidth::Four), 16);
    let bytes = RenameRequest::for_stream(":").unwrap().encode(width);
    assert_eq!(bytes.len(), std::mem::size_of::<FILE_RENAME_INFO>());
}

#[test]
fn rename_information_class_is_the_system_one() {
    assert_eq!(RENAME_INFORMATION_CLASS, 3);
    assert_eq!(RENAME_INFORMATION_CLASS, FileRenameInfo);
}

#[test]
fn rename_that_returns_nonzero_succeeded() {
    assert_eq!(rename_outcome(1, 0), Ok(()));
    assert_eq!(rename_outcome(-1, 5), Ok(()));
    assert_eq!(rename_outcome(i32::MAX, 87), Ok(()));
}

#[test]
fn rename_that_returns_zero_failed_with_its_code() {
    assert_eq!(rename_outcome(0, 5), Err(SelfDeleteError::RenameFailed(5)));
    assert_eq!(rename_outcome(0, 0), Err(SelfDeleteError::RenameFailed(0)));
    assert_eq!(rename_outcome(0, u32::MAX), Err(SelfDeleteError::RenameFailed(u32::MAX)));
}
