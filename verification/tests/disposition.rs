use self_delete::disposition::{
    mark_for_deletion, DispositionRequest, DispositionStep, DISPOSITION_EX_INFORMATION_CLASS,
    DISPOSITION_FLAG_DELETE, DISPOSITION_FLAG_POSIX_SEMANTICS, DISPOSITION_INFORMATION_CLASS,
    STRATEGY_COUNT,
};
use self_delete::error::SelfDeleteError;
use windows_sys::Win32::Storage::FileSystem::{
    FileDispositionInfo, FileDispositionInfoEx, FILE_DISPOSITION_FLAG_DELETE,
    FILE_DISPOSITION_FLAG_POSIX_SEMANTICS, FILE_DISPOSITION_INFO, FILE_DISPOSITION_INFO_EX,
};

#[test]
fn extended_form_is_tried_first_with_both_flags() {
    assert_eq!(
        DispositionRequest::strategy(0),
        Some(DispositionRequest::Extended { flags: 3 })
    );
    assert_eq!(
        DispositionRequest::strategy(0),
        Some(DispositionRequest::Extended {
            flags: FILE_DISPOSITION_FLAG_DELETE | FILE_DISPOSITION_FLAG_POSIX_SEMANTICS
        })
    );
}

#[test]
fn legacy_form_is_the_fallback() {
    assert_eq!(
        DispositionRequest::strategy(1),
        Some(DispositionRequest::Legacy { delete_file: true })
    );
}

#[test]
fn no_third_way_of_marking() {
    assert_eq!(STRATEGY_COUNT, 2);
    assert_eq!(DispositionRequest::strategy(2), None);
    assert_eq!(DispositionRequest::strategy(usize::MAX), None);
}

#[test]
fn disposition_flags_are_the_system_ones() {
    assert_eq!(DISPOSITION_FLAG_DELETE, FILE_DISPOSITION_FLAG_DELETE);
    assert_eq!(DISPOSITION_FLAG_POSIX_SEMANTICS, FILE_DISPOSITION_FLAG_POSIX_SEMANTICS);
}

#[test]
fn disposition_classes_are_the_system_ones() {
    assert_eq!(DISPOSITION_EX_INFORMATION_CLASS, 21);
    assert_eq!(DISPOSITION_INFORMATION_CLASS, 4);
    assert_eq!(DISPOSITION_EX_INFORMATION_CLASS, FileDispositionInfoEx);
    assert_eq!(DISPOSITION_INFORMATION_CLASS, FileDispositionInfo);
    let extended = DispositionRequest::strategy(0).unwrap();
    let legacy = DispositionRequest::strategy(1).unwrap();
    assert_eq!(extended.information_class(), FileDispositionInfoEx);
    assert_eq!(legacy.information_class(), FileDispositionInfo);
}

#[test]
fn extended_request_is_its_flags_word() {
    let bytes = DispositionRequest::strategy(0).unwrap().encode();
    assert_eq!(bytes, vec![3, 0, 0, 0]);
    assert_eq!(bytes.len(), std::mem::size_of::<FILE_DISPOSITION_INFO_EX>());
    let other = DispositionRequest::Extended { flags: 0x0102_0304 }.encode();
    assert_eq!(other, vec![4, 3, 2, 1]);
}

#[test]
fn legacy_request_is_one_byte() {
    let bytes = DispositionRequest::strategy(1).unwrap().encode();
    assert_eq!(bytes, vec![1]);
    assert_eq!(bytes.len(), std::mem::size_of::<FILE_DISPOSITION_INFO>());
    assert_eq!(DispositionRequest::Legacy { delete_file: false }.encode(), vec![0]);
}

#[test]
fn first_success_ends_the_search() {
    assert_eq!(mark_for_deletion(0, 1, 0), DispositionStep::Marked);
    assert_eq!(mark_for_deletion(0, -7, 5), DispositionStep::Marked);
    assert_eq!(mark_for_deletion(1, 1, 87), DispositionStep::Marked);
}

#[test]
fn rejected_extended_form_falls_back() {
    assert_eq!(mark_for_deletion(0, 0, 87), DispositionStep::Fallback { attempt: 1 });
    assert_eq!(mark_for_deletion(0, 0, 0), DispositionStep::Fallback { attempt: 1 });
}

#[test]
fn rejected_legacy_form_fails_with_its_code() {
    assert_eq!(
        mark_for_deletion(1, 0, 5),
        DispositionStep::Failed { error: SelfDeleteError::DispositionFailed(5) }
    );
    assert_eq!(
        mark_for_deletion(usize::MAX, 0, 32),
        DispositionStep::Failed { error: SelfDeleteError::DispositionFailed(32) }
    );
}
