//! The failures of a self-deletion sequence, and how they read.

use vstd::prelude::*;
use vstd::string::*;

verus! {

/// Why a self-deletion sequence stopped.
///
/// Every variant but the first carries the error code that the operating
/// system reported for the call that failed.
#[derive(Debug, Clone, Copy, PartialEq, Eq, Structural)]
pub enum SelfDeleteError {
    /// The operating system reported no path for the running image.
    PathResolutionFailed,
    /// The image file could not be opened with the right to delete it.
    HandleOpenFailed(u32),
    /// The rename onto the alternate data stream was rejected.
    RenameFailed(u32),
    /// Every way of marking the file for deletion was rejected.
    DispositionFailed(u32),
}

/// The character of a decimal digit.
pub open spec fn digit_char(d: nat) -> char {
    if d == 0 {
        '0'
    } else if d == 1 {
        '1'
    } else if d == 2 {
        '2'
    } else if d == 3 {
        '3'
    } else if d == 4 {
        '4'
    } else if d == 5 {
        '5'
    } else if d == 6 {
        '6'
    } else if d == 7 {
        '7'
    } else if d == 8 {
        '8'
    } else {
        '9'
    }
}

/// A number in decimal, most significant digit first, with no leading zero
/// but for zero itself.
pub open spec fn decimal(n: nat) -> Seq<char>
    decreases n,
{
    if n < 10 {
        seq![digit_char(n)]
    } else {
        decimal(n / 10).push(digit_char(n % 10))
    }
}

/// The text of one decimal digit.
fn digit_text(d: u32) -> (text: &'static str)
    requires
        d < 10,
    ensures
        text@ == seq![digit_char(d as nat)],
{
    proof {
        reveal_strlit("0");
        reveal_strlit("1");
        reveal_strlit("2");
        reveal_strlit("3");
        reveal_strlit("4");
        reveal_strlit("5");
        reveal_strlit("6");
        reveal_strlit("7");
        reveal_strlit("8");
        reveal_strlit("9");
    }
    if d == 0 {
        "0"
    } else if d == 1 {
        "1"
    } else if d == 2 {
        "2"
    } else if d == 3 {
        "3"
    } else if d == 4 {
        "4"
    } else if d == 5 {
        "5"
    } else if d == 6 {
        "6"
    } else if d == 7 {
        "7"
    } else if d == 8 {
        "8"
    } else {
        "9"
    }
}

/// Appends `n` in decimal.
fn push_decimal(text: &mut String, n: u32)
    ensures
        final(text)@ == old(text)@ + decimal(n as nat),
    decreases n,
{
    if n >= 10 {
        push_decimal(text, n / 10);
    }
    text.append(digit_text(n % 10));
}

impl SelfDeleteError {
    /// The error code that the operating system reported, where there is
    /// one: a failed path query reports none.
    pub open spec fn code(self) -> Option<u32> {
        match self {
            SelfDeleteError::PathResolutionFailed => None,
            SelfDeleteError::HandleOpenFailed(code) => Some(code),
            SelfDeleteError::RenameFailed(code) => Some(code),
            SelfDeleteError::DispositionFailed(code) => Some(code),
        }
    }

    /// What the failure reads as: what went wrong and, where the operating
    /// system reported one, the error code in decimal.
    pub open spec fn message_text(self) -> Seq<char> {
        match self {
            SelfDeleteError::PathResolutionFailed => "Could not retrieve module file path"@,
            SelfDeleteError::HandleOpenFailed(code) => "Failed to open file handle (error: "@
                + decimal(code as nat) + ")"@,
            SelfDeleteError::RenameFailed(code) => "Failed to rename file (error: "@ + decimal(
                code as nat,
            ) + ")"@,
            SelfDeleteError::DispositionFailed(code) => "Failed to set file disposition (error: "@
                + decimal(code as nat) + ")"@,
        }
    }

    /// The error code that the operating system reported, if any.
    pub fn os_code(&self) -> (code: Option<u32>)
        ensures
            code == self.code(),
    {
        match self {
            SelfDeleteError::PathResolutionFailed => None,
            SelfDeleteError::HandleOpenFailed(code) => Some(*code),
            SelfDeleteError::RenameFailed(code) => Some(*code),
            SelfDeleteError::DispositionFailed(code) => Some(*code),
        }
    }

    /// The failure as a line of text.
    pub fn message(&self) -> (text: String)
        ensures
            text@ == self.message_text(),
    {
        match self {
            SelfDeleteError::PathResolutionFailed => String::from_str(
                "Could not retrieve module file path",
            ),
            SelfDeleteError::HandleOpenFailed(code) => {
                let mut text = String::from_str("Failed to open file handle (error: ");
                push_decimal(&mut text, *code);
                text.append(")");
                text
            },
            SelfDeleteError::RenameFailed(code) => {
                let mut text = String::from_str("Failed to rename file (error: ");
                push_decimal(&mut text, *code);
                text.append(")");
                text
            },
            SelfDeleteError::DispositionFailed(code) => {
                let mut text = String::from_str("Failed to set file disposition (error: ");
                push_decimal(&mut text, *code);
                text.append(")");
                text
            },
        }
    }
}

} // verus!
