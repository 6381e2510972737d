//! The path of the running image, as the operating system reports it.

use crate::error::SelfDeleteError;
use vstd::prelude::*;

verus! {

/// The most code units that a path may have, the terminator not counted.
pub const MAX_PATH_LENGTH: usize = 500;

/// Whether the operating system reported a path: a length that is not
/// zero, within the bound and within the buffer it was written to.
pub open spec fn path_reported(buffer: Seq<u16>, length: u32) -> bool {
    0 < length <= MAX_PATH_LENGTH && length <= buffer.len()
}

/// The path of the running image: between one and `MAX_PATH_LENGTH` wide
/// characters, held without a terminator.
///
/// A path names the image at the moment it was resolved; after a rename it
/// is resolved anew.
#[derive(Debug)]
pub struct ExecutablePath {
    units: Vec<u16>,
}

impl View for ExecutablePath {
    type V = Seq<u16>;

    closed spec fn view(&self) -> Seq<u16> {
        self.units@
    }
}

impl ExecutablePath {
    #[verifier::type_invariant]
    spec fn bounded(self) -> bool {
        0 < self.units@.len() <= MAX_PATH_LENGTH
    }

    /// Decides what the path query yielded: the first `length` code units
    /// of `buffer` if a path was reported, else the failure.
    pub fn resolve(buffer: &[u16], length: u32) -> (resolved: Result<
        ExecutablePath,
        SelfDeleteError,
    >)
        ensures
            match resolved {
                Ok(path) => path_reported(buffer@, length) && path@ == buffer@.subrange(
                    0,
                    length as int,
                ),
                Err(error) => !path_reported(buffer@, length) && error
                    == SelfDeleteError::PathResolutionFailed,
            },
    {
        if length == 0 || length as usize > MAX_PATH_LENGTH || length as usize > buffer.len() {
            return Err(SelfDeleteError::PathResolutionFailed);
        }
        let count = length as usize;
        let mut units: Vec<u16> = Vec::new();
        let mut i: usize = 0;
        while i < count
            invariant
                i <= count <= buffer.len(),
                units@ == buffer@.subrange(0, i as int),
            decreases count - i,
        {
            units.push(buffer[i]);
            i += 1;
        }
        Ok(ExecutablePath { units })
    }

    /// The code units of the path, without a terminator.
    pub fn units(&self) -> (units: &Vec<u16>)
        ensures
            units@ == self@,
            0 < units@.len() <= MAX_PATH_LENGTH,
    {
        proof {
            use_type_invariant(self);
        }
        &self.units
    }

    /// The path followed by the terminator that the open call reads up to.
    pub fn to_wide_nul(&self) -> (wide: Vec<u16>)
        ensures
            wide@ == self@.push(0u16),
            wide@.len() <= MAX_PATH_LENGTH + 1,
    {
        proof {
            use_type_invariant(self);
        }
        let mut wide: Vec<u16> = Vec::new();
        let mut i: usize = 0;
        while i < self.units.len()
            invariant
                i <= self.units.len(),
                wide@ == self.units@.subrange(0, i as int),
            decreases self.units.len() - i,
        {
            wide.push(self.units[i]);
            i += 1;
        }
        proof {
            assert(self.units@.subrange(0, self.units.len() as int) == self.units@);
        }
        wide.push(0u16);
        wide
    }
}

} // verus!
