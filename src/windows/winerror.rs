//! The last error code of the calling thread, as reported by the system.
use vstd::prelude::*;

verus! {

/// A system error code; zero means success.
#[derive(Debug, Clone, Copy, PartialEq, Eq, Structural)]
pub struct WindowsError(pub u32);

impl WindowsError {
    /// Whether the code reports an error.
    pub fn is_error(&self) -> (r: bool)
        ensures
            r == (self.0 != 0),
    {
        self.0 != 0
    }

    /// `Ok` for success, the code itself as the error otherwise.
    pub fn check(&self) -> (r: Result<(), WindowsError>)
        ensures
            r == if self.0 != 0 {
                Err::<(), WindowsError>(*self)
            } else {
                Ok(())
            },
    {
        if self.is_error() {
            Err(*self)
        } else {
            Ok(())
        }
    }
}

} // verus!
