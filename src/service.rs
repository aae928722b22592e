use vstd::prelude::*;

use crate::error::VoidRes;

verus! {

/// The lifecycle that every supervised protocol service implements, over its
/// own message type `Mes`.
pub trait Server<Mes> {
    /// One-time setup; a failure here ends the service.
    fn start(&mut self) -> VoidRes;

    /// Releases what the service holds. The supervising loop never calls it,
    /// on any exit: a service cleans up after itself when it is dropped, and
    /// `stop` is for an owner that shuts it down by hand.
    fn stop(&mut self) -> VoidRes;

    /// Handles one message; a failure here is reported and the service goes on.
    fn process(&mut self, message: Mes) -> VoidRes;
}

} // verus!
