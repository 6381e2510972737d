//! The rename that moves an open file onto an alternate data stream.

use crate::error::SelfDeleteError;
use crate::handle::call_succeeded;
use crate::wide::{
    encode_utf16, le_bytes_u32, lemma_utf16_len, lemma_utf16_push, push_u32_le, push_wide_le,
    push_zeros, utf16, wide_bytes, zeros,
};
use vstd::prelude::*;

verus! {

/// The stream that the file is renamed onto.
pub const STREAM_NAME: &'static str = ":12";

/// The information class of a rename request.
pub const RENAME_INFORMATION_CLASS: i32 = 3;

/// How many bytes a handle takes on the target machine.
#[derive(Clone, Copy, Debug, PartialEq, Eq, Structural)]
pub enum HandleWidth {
    Four,
    Eight,
}

impl HandleWidth {
    /// The width in bytes, as a number to reason with.
    pub open spec fn spec_bytes(self) -> nat {
        match self {
            HandleWidth::Four => 4,
            HandleWidth::Eight => 8,
        }
    }

    /// The width in bytes.
    pub fn bytes(self) -> (n: usize)
        ensures
            n == self.spec_bytes(),
    {
        match self {
            HandleWidth::Four => 4,
            HandleWidth::Eight => 8,
        }
    }
}

/// The code units of the stream name.
pub open spec fn stream_name_units() -> Seq<u16> {
    seq![0x3Au16, 0x31u16, 0x32u16]
}

/// The length in bytes of a name of wide characters, no terminator counted.
pub open spec fn name_byte_length(name: Seq<u16>) -> nat {
    2 * name.len()
}

/// Where the fixed fields of a rename request end and the name begins: after
/// the flag word (padded to the handle's alignment), the root directory
/// handle and the length word.
pub open spec fn rename_name_offset(width: HandleWidth) -> nat {
    2 * width.spec_bytes() + 4
}

/// The size of a rename request that holds a name of one code unit, which
/// is the least buffer that the operating system accepts: the fixed fields
/// and one code unit, rounded up to the handle's alignment.
pub open spec fn rename_info_size(width: HandleWidth) -> nat {
    match width {
        HandleWidth::Four => 16,
        HandleWidth::Eight => 24,
    }
}

/// The bytes of a rename request, field by field:
/// the flag word, clear (do not replace an existing target);
/// padding up to the handle's alignment;
/// the root directory handle, null;
/// the name's length in bytes;
/// the name;
/// and zero bytes up to the least size where the name is shorter.
pub open spec fn rename_info_bytes(name: Seq<u16>, width: HandleWidth) -> Seq<u8>
    recommends
        name_byte_length(name) <= u32::MAX,
{
    let fields = le_bytes_u32(0) + zeros((width.spec_bytes() - 4) as nat) + zeros(
        width.spec_bytes(),
    ) + le_bytes_u32(name_byte_length(name) as u32) + wide_bytes(name);
    if fields.len() < rename_info_size(width) {
        fields + zeros((rename_info_size(width) - fields.len()) as nat)
    } else {
        fields
    }
}

/// What a rename request holds: the target name and its length in bytes.
///
/// The length is computed from the name when the request is built and
/// cannot be set apart from it.
#[derive(Debug)]
pub struct RenameRequest {
    file_name: Vec<u16>,
    file_name_length: u32,
}

impl View for RenameRequest {
    type V = Seq<u16>;

    closed spec fn view(&self) -> Seq<u16> {
        self.file_name@
    }
}

impl RenameRequest {
    #[verifier::type_invariant]
    spec fn length_matches_name(self) -> bool {
        self.file_name_length == name_byte_length(self.file_name@)
    }

    /// Builds the request for a name whose length in bytes fits the length
    /// field.
    fn from_units(file_name: Vec<u16>) -> (request: RenameRequest)
        requires
            name_byte_length(file_name@) <= u32::MAX,
        ensures
            request@ == file_name@,
    {
        let file_name_length = (file_name.len() * 2) as u32;
        RenameRequest { file_name, file_name_length }
    }

    /// Builds the request that renames onto the stream `target`, or nothing
    /// if the name's length in bytes does not fit the length field; it
    /// fits for every name of less than 2^30 characters.
    pub fn for_stream(target: &str) -> (request: Option<RenameRequest>)
        ensures
            match request {
                Some(r) => r@ == utf16(target@) && name_byte_length(r@) <= u32::MAX,
                None => name_byte_length(utf16(target@)) > u32::MAX,
            },
            target@.len() < 0x4000_0000 ==> request is Some,
    {
        proof {
            lemma_utf16_len(target@);
        }
        let file_name = encode_utf16(target);
        if file_name.len() > 0x7FFF_FFFF {
            None
        } else {
            Some(RenameRequest::from_units(file_name))
        }
    }

    /// Builds the request that renames onto the stream `STREAM_NAME`.
    pub fn alternate_stream() -> (request: RenameRequest)
        ensures
            request@ == stream_name_units(),
            name_byte_length(request@) == 6,
    {
        let file_name = encode_utf16(STREAM_NAME);
        proof {
            lemma_stream_name_units();
        }
        RenameRequest::from_units(file_name)
    }

    /// The target name, as wide characters without a terminator.
    pub fn file_name(&self) -> (name: &Vec<u16>)
        ensures
            name@ == self@,
    {
        &self.file_name
    }

    /// The length of the target name in bytes: two for each code unit.
    pub fn file_name_length(&self) -> (length: u32)
        ensures
            length == name_byte_length(self@),
    {
        proof {
            use_type_invariant(self);
        }
        self.file_name_length
    }

    /// Lays the request out as the bytes that the operating system reads.
    pub fn encode(&self, width: HandleWidth) -> (bytes: Vec<u8>)
        ensures
            bytes@ == rename_info_bytes(self@, width),
    {
        proof {
            use_type_invariant(self);
        }
        let handle_bytes = width.bytes();
        let mut bytes: Vec<u8> = Vec::new();
        push_u32_le(&mut bytes, 0);
        push_zeros(&mut bytes, handle_bytes - 4);
        push_zeros(&mut bytes, handle_bytes);
        push_u32_le(&mut bytes, self.file_name_length);
        push_wide_le(&mut bytes, &self.file_name);
        let least = least_rename_size(width);
        if bytes.len() < least {
            let missing = least - bytes.len();
            push_zeros(&mut bytes, missing);
        }
        bytes
    }
}

/// The least size of a rename request, in bytes.
pub fn least_rename_size(width: HandleWidth) -> (size: usize)
    ensures
        size == rename_info_size(width),
{
    match width {
        HandleWidth::Four => 16,
        HandleWidth::Eight => 24,
    }
}

/// The least size is where a name of one code unit ends, rounded up to a
/// multiple of the handle's width.
pub proof fn lemma_rename_info_size(width: HandleWidth)
    ensures
        rename_info_size(width) % width.spec_bytes() == 0,
        rename_name_offset(width) + 2 <= rename_info_size(width) < rename_name_offset(width) + 2
            + width.spec_bytes(),
{
}

/// The stream name, encoded, is three code units: a colon, a one and a two.
pub proof fn lemma_stream_name_units()
    ensures
        utf16(STREAM_NAME@) == stream_name_units(),
        name_byte_length(utf16(STREAM_NAME@)) == 6,
{
    reveal_strlit(":12");
    let text = STREAM_NAME@;
    assert(text == seq![':', '1', '2']);
    lemma_utf16_push(seq![':', '1'], '2');
    lemma_utf16_push(seq![':'], '1');
    lemma_utf16_push(Seq::<char>::empty(), ':');
    assert(seq![':', '1'].push('2') == text);
    assert(seq![':'].push('1') == seq![':', '1']);
    assert(Seq::<char>::empty().push(':') == seq![':']);
    assert(utf16(Seq::<char>::empty()) == Seq::<u16>::empty());
    assert(':' as u32 == 0x3A && '1' as u32 == 0x31 && '2' as u32 == 0x32);
    assert(utf16(text) == stream_name_units());
}

/// A rename request is as long as its fixed fields and its name, and never
/// shorter than the least size.
pub proof fn lemma_rename_info_len(name: Seq<u16>, width: HandleWidth)
    ensures
        rename_info_bytes(name, width).len() == if rename_name_offset(width) + name_byte_length(
            name,
        ) < rename_info_size(width) {
            rename_info_size(width)
        } else {
            rename_name_offset(width) + name_byte_length(name)
        },
{
}

/// In a rename request the flag word and the root directory are zero, the
/// length word stands right before the name, and the name's bytes follow it
/// unchanged.
pub proof fn lemma_rename_info_fields(name: Seq<u16>, width: HandleWidth)
    requires
        name_byte_length(name) <= u32::MAX,
    ensures
        ({
            let bytes = rename_info_bytes(name, width);
            let handle = width.spec_bytes() as int;
            let start = rename_name_offset(width) as int;
            let end = start + name_byte_length(name);
            &&& bytes.subrange(0, 2 * handle) == zeros((2 * handle) as nat)
            &&& bytes.subrange(2 * handle, start) == le_bytes_u32(name_byte_length(name) as u32)
            &&& bytes.subrange(start, end) == wide_bytes(name)
            &&& bytes.subrange(end, bytes.len() as int) == zeros((bytes.len() - end) as nat)
        }),
{
}

/// Decides what the rename call yielded: success unless it returned zero,
/// else the failure with the error code that came with it.
pub fn rename_outcome(result: i32, last_error: u32) -> (outcome: Result<(), SelfDeleteError>)
    ensures
        match outcome {
            Ok(_) => call_succeeded(result),
            Err(error) => !call_succeeded(result) && error == SelfDeleteError::RenameFailed(
                last_error,
            ),
        },
{
    if result != 0 {
        Ok(())
    } else {
        Err(SelfDeleteError::RenameFailed(last_error))
    }
}

} // verus!
