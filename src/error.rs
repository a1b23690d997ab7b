use vstd::prelude::*;

verus! {

/// Why an operation failed.
#[derive(Debug)]
pub enum PantryError {
    /// The URL of the request could not be formed; holds the parser's reason.
    Request(url::ParseError),
    /// No reply came back (connection, name lookup, timeout); holds the cause.
    Transport(String),
    /// The service replied with a status outside 200..=299; holds the status
    /// and the body of the reply.
    Rejected(u16, String),
    /// The reply was a success but its body does not have the expected shape;
    /// holds what was wrong with it.
    Decode(String),
}

} // verus!
