//! What can go wrong.

use vstd::prelude::*;

verus! {

/// A failure of the transport under a lookup, as `ureq` reports it. The
/// library carries it to the caller and never looks inside.
#[verifier::external_type_specification]
#[verifier::external_body]
pub struct ExTransport(ureq::Transport);

/// The errors of this library.
#[derive(Debug)]
pub enum Error {
    /// The version field of an identifier names neither kind of player.
    InvalidUuid,
    /// The directory service turned a lookup down: it knows no such
    /// username, or no such identifier.
    InvalidUsername,
    /// The exchange with the directory service did not complete.
    Transport(ureq::Transport),
    /// The directory service answered, but not with a profile.
    Unknown,
}

} // verus!
