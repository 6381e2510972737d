use self_delete::error::SelfDeleteError;

#[test]
fn path_failure_reads_without_a_code() {
    let error = SelfDeleteError::PathResolutionFailed;
    assert_eq!(error.message(), "Could not retrieve module file path");
    assert_eq!(error.os_code(), None);
}

#[test]
fn open_failure_reads_with_its_code() {
    let error = SelfDeleteError::HandleOpenFailed(2);
    assert_eq!(error.message(), "Failed to open file handle (error: 2)");
    assert_eq!(error.os_code(), Some(2));
}

#[test]
fn rename_failure_reads_with_its_code() {
    let error = SelfDeleteError::RenameFailed(87);
    assert_eq!(error.message(), "Failed to rename file (error: 87)");
    assert_eq!(error.os_code(), Some(87));
}

#[test]
fn disposition_failure_reads_with_its_code() {
    let error = SelfDeleteError::DispositionFailed(1314);
    assert_eq!(error.message(), "Failed to set file disposition (error: 1314)");
    assert_eq!(error.os_code(), Some(1314));
}

#[test]
fn code_zero_reads_as_one_digit() {
    assert_eq!(
        SelfDeleteError::HandleOpenFailed(0).message(),
        "Failed to open file handle (error: 0)"
    );
}

#[test]
fn codes_read_in_decimal_without_leading_zeros() {
    for code in [1u32, 9, 10, 11, 99, 100, 101, 1000, 65535, 65536, 1_000_000_007, u32::MAX] {
        assert_eq!(
            SelfDeleteError::RenameFailed(code).message(),
            format!("Failed to rename file (error: {})", code)
        );
    }
    assert_eq!(
        SelfDeleteError::DispositionFailed(u32::MAX).message(),
        "Failed to set file disposition (error: 4294967295)"
    );
}

#[test]
fn errors_compare_by_kind_and_code() {
    assert_eq!(SelfDeleteError::RenameFailed(5), SelfDeleteError::RenameFailed(5));
    assert_ne!(SelfDeleteError::RenameFailed(5), SelfDeleteError::RenameFailed(6));
    assert_ne!(SelfDeleteError::RenameFailed(5), SelfDeleteError::DispositionFailed(5));
    assert_ne!(SelfDeleteError::HandleOpenFailed(0), SelfDeleteError::PathResolutionFailed);
}
