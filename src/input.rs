use vstd::prelude::*;

verus! {

/// std's I/O error, carried through opaquely as the failure of a read.
#[verifier::external_type_specification]
#[verifier::external_body]
pub struct ExIoError(std::io::Error);

/// A source of raw lines of text typed by the players.
pub trait Input {
    /// Yields the next line, or the error that kept it from being read.
    fn read(&self) -> std::io::Result<String>;
}

/// An input source that yields the same fixed line on every read.
pub struct MockInput {
    pub input: String,
}

impl Input for MockInput {
    fn read(&self) -> (r: std::io::Result<String>)
        ensures
            r matches Ok(t) && t@ == self.input@,
    {
        Ok(self.input.clone())
    }
}

} // verus!
