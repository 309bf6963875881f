use vstd::prelude::*;

verus! {

/// Failures of the byte-level reading and writing itself.
#[derive(Debug, Clone, Copy, PartialEq, Eq, Structural)]
pub enum IoError {
    /// The input ended before the value was complete.
    UnexpectedEof,
    /// A field holds a value wider than its bit width on the wire.
    InvalidInput,
}

/// Combines byte-level failures with type-specific decoding errors.
#[derive(Debug, PartialEq, Eq)]
pub enum IOWrapError<E> {
    /// An error of the byte-level reading or writing.
    Io(IoError),
    /// A type-specific error produced during decoding or validation.
    Specific(E),
}

impl<E> IOWrapError<E> {
    /// Transforms the [`Self::Specific`] variant with `f`, leaving [`Self::Io`]
    /// unchanged.
    pub fn map_specific<F, NewE>(self, f: F) -> (r: IOWrapError<NewE>) where F: FnOnce(E) -> NewE
        requires
            self matches IOWrapError::Specific(e) ==> f.requires((e,)),
        ensures
            self matches IOWrapError::Io(k) ==> r == IOWrapError::<NewE>::Io(k),
            self matches IOWrapError::Specific(e) ==> (r matches IOWrapError::Specific(n) && f.ensures(
                (e,),
                n,
            )),
    {
        match self {
            Self::Io(e) => IOWrapError::Io(e),
            Self::Specific(e) => IOWrapError::Specific(f(e)),
        }
    }
}

} // verus!
