use vstd::prelude::*;

verus! {

/// The failures that the client reports to its caller.
#[derive(Debug)]
pub enum Error {
    /// No voice in the list carries the requested name.
    VoiceNotFound,
    /// The request builder was asked to build before a method was set.
    MethodNotSet,
    /// The request builder was asked to build before a path was set.
    PathNotSet,
    /// The provider answered with a status outside 200..=299; its body is kept.
    Api { status: u16, body: Vec<u8> },
}

} // verus!
