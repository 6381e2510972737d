//! The two ways of marking an open file for deletion, and the order in
//! which they are tried.

use crate::error::SelfDeleteError;
use crate::handle::call_succeeded;
use crate::wide::{le_bytes_u32, push_u32_le};
use vstd::prelude::*;

verus! {

/// The flag that marks the file for deletion.
pub const DISPOSITION_FLAG_DELETE: u32 = 1;

/// The flag that asks for removal at once, whatever handles stay open.
pub const DISPOSITION_FLAG_POSIX_SEMANTICS: u32 = 2;

/// The information class of the extended disposition request.
pub const DISPOSITION_EX_INFORMATION_CLASS: i32 = 21;

/// The information class of the legacy disposition request.
pub const DISPOSITION_INFORMATION_CLASS: i32 = 4;

/// How many ways of marking a file there are to try.
pub const STRATEGY_COUNT: usize = 2;

/// A request to mark a file for deletion, in one of its two forms.
#[derive(Clone, Copy, Debug, PartialEq, Eq, Structural)]
pub enum DispositionRequest {
    /// A flags word; with both flags set the entry is unlinked at once.
    Extended { flags: u32 },
    /// A single truth value; the file goes when its last handle is closed.
    Legacy { delete_file: bool },
}

/// The flags of the extended request: delete, with removal at once.
pub open spec fn extended_flags() -> u32 {
    DISPOSITION_FLAG_DELETE | DISPOSITION_FLAG_POSIX_SEMANTICS
}

/// The ways of marking a file, in the order in which they are tried: the
/// extended form first, the legacy form as the fallback.
pub open spec fn strategies() -> Seq<DispositionRequest> {
    seq![
        DispositionRequest::Extended { flags: extended_flags() },
        DispositionRequest::Legacy { delete_file: true },
    ]
}

/// The bytes of a disposition request: the flags word, lowest byte first,
/// or the one byte of the truth value.
pub open spec fn disposition_info_bytes(request: DispositionRequest) -> Seq<u8> {
    match request {
        DispositionRequest::Extended { flags } => le_bytes_u32(flags),
        DispositionRequest::Legacy { delete_file } => seq![
            if delete_file {
                1u8
            } else {
                0u8
            },
        ],
    }
}

/// What follows an attempt to mark the file.
#[derive(Clone, Copy, Debug, PartialEq, Eq, Structural)]
pub enum DispositionStep {
    /// The file is marked; nothing more is tried.
    Marked,
    /// The attempt was rejected and another way is left: try that one.
    Fallback { attempt: usize },
    /// The last way was rejected too.
    Failed { error: SelfDeleteError },
}

/// What follows attempt number `attempt`, given what the call returned:
/// the first success ends the search, a rejection moves on to the next way,
/// and only the rejection of the last way is a failure, with its own code.
pub open spec fn disposition_step(attempt: nat, result: i32, last_error: u32) -> DispositionStep {
    if call_succeeded(result) {
        DispositionStep::Marked
    } else if attempt + 1 < strategies().len() {
        DispositionStep::Fallback { attempt: (attempt + 1) as usize }
    } else {
        DispositionStep::Failed { error: SelfDeleteError::DispositionFailed(last_error) }
    }
}

/// The extended request sets both flags and nothing else.
pub proof fn lemma_extended_flags()
    ensures
        extended_flags() == 3,
        extended_flags() & DISPOSITION_FLAG_DELETE == DISPOSITION_FLAG_DELETE,
        extended_flags() & DISPOSITION_FLAG_POSIX_SEMANTICS == DISPOSITION_FLAG_POSIX_SEMANTICS,
{
    assert(1u32 | 2u32 == 3u32) by (bit_vector);
    assert(3u32 & 1u32 == 1u32) by (bit_vector);
    assert(3u32 & 2u32 == 2u32) by (bit_vector);
}

impl DispositionRequest {
    /// The way to try as attempt number `attempt`, or nothing when every
    /// way has been tried.
    pub fn strategy(attempt: usize) -> (request: Option<DispositionRequest>)
        ensures
            match request {
                Some(r) => attempt < strategies().len() && r == strategies()[attempt as int],
                None => attempt >= strategies().len(),
            },
    {
        if attempt == 0 {
            Some(
                DispositionRequest::Extended {
                    flags: DISPOSITION_FLAG_DELETE | DISPOSITION_FLAG_POSIX_SEMANTICS,
                },
            )
        } else if attempt == 1 {
            Some(DispositionRequest::Legacy { delete_file: true })
        } else {
            None
        }
    }

    /// The information class under which the request is made.
    pub fn information_class(&self) -> (class: i32)
        ensures
            class == match *self {
                DispositionRequest::Extended { .. } => DISPOSITION_EX_INFORMATION_CLASS,
                DispositionRequest::Legacy { .. } => DISPOSITION_INFORMATION_CLASS,
            },
    {
        match self {
            DispositionRequest::Extended { .. } => DISPOSITION_EX_INFORMATION_CLASS,
            DispositionRequest::Legacy { .. } => DISPOSITION_INFORMATION_CLASS,
        }
    }

    /// Lays the request out as the bytes that the operating system reads.
    pub fn encode(&self) -> (bytes: Vec<u8>)
        ensures
            bytes@ == disposition_info_bytes(*self),
    {
        let mut bytes: Vec<u8> = Vec::new();
        match self {
            DispositionRequest::Extended { flags } => {
                push_u32_le(&mut bytes, *flags);
            },
            DispositionRequest::Legacy { delete_file } => {
                if *delete_file {
                    bytes.push(1u8);
                } else {
                    bytes.push(0u8);
                }
            },
        }
        bytes
    }
}

/// Decides what follows attempt number `attempt` of marking the file, given
/// what the call returned and the error code that came with it.
pub fn mark_for_deletion(attempt: usize, result: i32, last_error: u32) -> (step: DispositionStep)
    ensures
        step == disposition_step(attempt as nat, result, last_error),
{
    if result != 0 {
        DispositionStep::Marked
    } else if attempt < STRATEGY_COUNT - 1 {
        DispositionStep::Fallback { attempt: attempt + 1 }
    } else {
        DispositionStep::Failed { error: SelfDeleteError::DispositionFailed(last_error) }
    }
}

} // verus!
