use vstd::prelude::*;

verus! {

/// The ways an operation of the editor's storage can fail.
#[derive(Debug, Clone, Copy, PartialEq, Eq, Structural)]
pub enum EditError {
    /// The file to open does not exist.
    NotFound,
    /// Reading or writing failed for another reason.
    IoError,
    /// The file's bytes are not valid text.
    DecodeError,
    /// An index lies beyond a container's logical length.
    OutOfBounds,
}

} // verus!
