//! The open that grants the right to delete, and the handle it yields.

use crate::error::SelfDeleteError;
use vstd::prelude::*;

verus! {

/// The access right to delete or rename a file, and no other.
pub const ACCESS_DELETE: u32 = 0x0001_0000;

/// A share mode that lets nobody else open the file meanwhile.
pub const SHARE_NONE: u32 = 0;

/// The creation disposition that opens a file only if it exists.
pub const OPEN_EXISTING: u32 = 3;

/// The attribute word of a file with no special attribute.
pub const ATTRIBUTE_NORMAL: u32 = 0x80;

/// What the open call returns in place of a handle when it fails.
pub const INVALID_HANDLE_VALUE: isize = -1;

/// The arguments of the open call, field by field.
#[derive(Clone, Copy, Debug, PartialEq, Eq, Structural)]
pub struct OpenRequest {
    pub desired_access: u32,
    pub share_mode: u32,
    pub creation_disposition: u32,
    pub flags_and_attributes: u32,
}

impl OpenRequest {
    /// The one request this library makes: the delete right alone, on a file
    /// that must exist already, with normal attributes.
    pub open spec fn delete_existing() -> OpenRequest {
        OpenRequest {
            desired_access: ACCESS_DELETE,
            share_mode: SHARE_NONE,
            creation_disposition: OPEN_EXISTING,
            flags_and_attributes: ATTRIBUTE_NORMAL,
        }
    }

    /// Builds the request for delete-only access to an existing file.
    pub fn for_deletion() -> (request: OpenRequest)
        ensures
            request == OpenRequest::delete_existing(),
    {
        OpenRequest {
            desired_access: ACCESS_DELETE,
            share_mode: SHARE_NONE,
            creation_disposition: OPEN_EXISTING,
            flags_and_attributes: ATTRIBUTE_NORMAL,
        }
    }
}

/// Whether a raw value names an open file: the open call reports failure
/// with the all-ones sentinel, and a null handle names no file either.
pub open spec fn is_valid_handle(raw: isize) -> bool {
    raw != 0 && raw != INVALID_HANDLE_VALUE
}

/// Whether a call that sets file information reported success: it returns
/// zero when it fails.
pub open spec fn call_succeeded(result: i32) -> bool {
    result != 0
}

/// An open file, held with the right to delete it.
///
/// A value exists only for a raw handle that the open call returned as
/// valid, and it cannot be copied: whoever holds it releases it, once.
#[derive(Debug)]
pub struct FileHandle {
    raw: isize,
}

impl View for FileHandle {
    type V = isize;

    closed spec fn view(&self) -> isize {
        self.raw
    }
}

impl FileHandle {
    #[verifier::type_invariant]
    spec fn names_a_file(self) -> bool {
        is_valid_handle(self.raw)
    }

    /// Decides what the open call yielded: a handle if `raw` names a file,
    /// else the failure with the error code that came with it.
    pub fn open_for_deletion(raw: isize, last_error: u32) -> (opened: Result<
        FileHandle,
        SelfDeleteError,
    >)
        ensures
            match opened {
                Ok(handle) => is_valid_handle(raw) && handle@ == raw,
                Err(error) => !is_valid_handle(raw) && error
                    == SelfDeleteError::HandleOpenFailed(last_error),
            },
    {
        if raw == 0 || raw == INVALID_HANDLE_VALUE {
            Err(SelfDeleteError::HandleOpenFailed(last_error))
        } else {
            Ok(FileHandle { raw })
        }
    }

    /// The raw handle, for a call made while the file stays open.
    pub fn raw(&self) -> (raw: isize)
        ensures
            raw == self@,
            is_valid_handle(raw),
    {
        proof {
            use_type_invariant(self);
        }
        self.raw
    }

    /// Gives the raw handle up for its release; the value is gone after.
    pub fn into_raw(self) -> (raw: isize)
        ensures
            raw == self@,
            is_valid_handle(raw),
    {
        proof {
            use_type_invariant(&self);
        }
        self.raw
    }
}

} // verus!
