//! A stand-in for the `ctrlc` crate's interface, for builds (such as the
//! web one) where no console signal can reach the game: installing a
//! handler always succeeds and the handler is never called.
use vstd::prelude::*;

verus! {

/// The standard library's I/O error, carried opaque inside `Error::System`.
#[verifier::external_type_specification]
#[verifier::external_body]
pub struct ExIoError(std::io::Error);

/// A console signal, by number.
#[derive(Debug, Clone, PartialEq, Eq, Structural)]
pub struct Signal(i32);

/// Why a handler could not be installed.
#[derive(Debug)]
pub enum Error {
    NoSuchSignal(Signal),
    MultipleHandlers,
    System(std::io::Error),
}

impl Error {
    /// The text shown for any of these errors.
    pub fn message(&self) -> (text: String)
        ensures
            text@ == "ctrlc error"@,
    {
        String::from_str("ctrlc error")
    }
}

/// Installs a console-signal handler: here a no-op that always succeeds.
pub fn set_handler<F>(handler: F) -> (r: Result<(), Error>) where F: Fn() + 'static + Send
    ensures
        r is Ok,
{
    Ok(())
}

} // verus!
