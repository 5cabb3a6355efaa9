//! Identifiers issued by the directory service, and the two lookups that
//! the service answers.

use crate::error::Error;
use crate::id::{hyphenated_text, Uuid};
use vstd::prelude::*;
use vstd::string::StringExecFns;

verus! {

/// The address of a lookup by username, up to the username.
pub const USERNAME_ENDPOINT: &'static str = "https://api.mojang.com/users/profiles/minecraft/";

/// The address of a lookup by identifier, up to the identifier.
pub const PROFILE_ENDPOINT: &'static str =
    "https://sessionserver.mojang.com/session/minecraft/profile/";

/// The profile in the body of a successful answer.
#[derive(Debug)]
pub struct OnlineUuidResponse {
    pub name: String,
    pub id: Uuid,
}

/// How one exchange with the directory service ended.
#[derive(Debug)]
pub enum LookupReply {
    /// The service answered with success, and the body held a profile.
    Profile(OnlineUuidResponse),
    /// The service answered with success, but the body held no profile.
    Malformed,
    /// The service answered with a status code that reports a failure.
    Status(u16),
    /// No answer came: the transport failed.
    Transport(ureq::Transport),
}

/// The identifier of an account that the directory service issued.
///
/// One that `PlayerUuid::new_with_uuid` made has version 4. One read out of
/// a reply of the directory service holds the identifier as the service gave
/// it: its version is not looked at.
#[derive(Copy, Clone, Debug, Hash, Eq, PartialEq, Ord, PartialOrd)]
pub struct OnlineUuid(Uuid);

impl OnlineUuid {
    /// The online identifier that holds `uuid`.
    pub closed spec fn of(uuid: Uuid) -> OnlineUuid {
        OnlineUuid(uuid)
    }

    /// The identifier held.
    pub closed spec fn uuid(&self) -> Uuid {
        self.0
    }

    /// `of` and `uuid` undo each other.
    pub broadcast proof fn lemma_of_uuid(uuid: Uuid)
        ensures
            (#[trigger] Self::of(uuid)).uuid() == uuid,
    {
    }

    /// An online identifier is the one that holds its identifier.
    pub broadcast proof fn lemma_uuid_of(self)
        ensures
            Self::of(#[trigger] self.uuid()) == self,
    {
    }

    /// Takes an identifier as an online identifier.
    pub(crate) fn new(uuid: Uuid) -> (id: OnlineUuid)
        ensures
            id == Self::of(uuid),
    {
        OnlineUuid(uuid)
    }

    /// Returns the inner identifier.
    pub fn as_uuid(&self) -> (uuid: &Uuid)
        ensures
            *uuid == self.uuid(),
    {
        &self.0
    }

    /// Returns the inner identifier as its sixteen bytes.
    pub fn as_bytes(&self) -> (bytes: &[u8; 16])
        ensures
            bytes@ == self.uuid()@,
    {
        self.0.as_bytes()
    }

    /// The address at which the directory service tells the username that
    /// belongs to this identifier: the endpoint, then the identifier in its
    /// grouped textual form.
    pub fn username_url(&self) -> (url: String)
        ensures
            url@ == PROFILE_ENDPOINT@ + hyphenated_text(self.uuid()@),
    {
        let mut url = String::from_str(PROFILE_ENDPOINT);
        let text = self.0.hyphenated();
        url.append(text.as_str());
        url
    }

    /// Reads the username out of the reply to a lookup by identifier. A
    /// profile gives its name, whatever identifier it names; a reply without
    /// a profile gives `Unknown`; a status that reports a failure gives
    /// `InvalidUsername`; a failure of the transport is handed on.
    pub fn get_username(reply: LookupReply) -> (name: Result<String, Error>)
        ensures
            name == match reply {
                LookupReply::Profile(profile) => Ok::<String, Error>(profile.name),
                LookupReply::Malformed => Err(Error::Unknown),
                LookupReply::Status(_) => Err(Error::InvalidUsername),
                LookupReply::Transport(failure) => Err(Error::Transport(failure)),
            },
    {
        match reply {
            LookupReply::Profile(profile) => Ok(profile.name),
            LookupReply::Malformed => Err(Error::Unknown),
            LookupReply::Status(_) => Err(Error::InvalidUsername),
            LookupReply::Transport(failure) => Err(Error::Transport(failure)),
        }
    }
}

} // verus!
