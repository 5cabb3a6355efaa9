//! The value that holds a player identifier of either kind.

use crate::digest::md5_compute;
use crate::error::Error;
use crate::id::{Uuid, VARIANT_RFC4122, VERSION_NAME_HASH, VERSION_RANDOM};
use crate::offline::{offline_input, offline_uuid, OfflineUuid, OFFLINE_PREFIX};
use crate::online::{LookupReply, OnlineUuid, USERNAME_ENDPOINT};
use vstd::prelude::*;
use vstd::string::StringExecFns;

verus! {

/// The identifier of a player of either kind.
#[derive(Copy, Clone, Debug, Hash, Eq, PartialEq, Ord, PartialOrd)]
pub enum PlayerUuid {
    Online(OnlineUuid),
    Offline(OfflineUuid),
}

/// What `PlayerUuid::new_with_uuid` makes of an identifier: its version
/// decides. Version 4 is an online identifier, version 3 an offline one, and
/// every other version is turned down.
pub open spec fn classify(uuid: Uuid) -> Result<PlayerUuid, Error> {
    if uuid.version() == VERSION_RANDOM {
        Ok(PlayerUuid::Online(OnlineUuid::of(uuid)))
    } else if uuid.version() == VERSION_NAME_HASH {
        Ok(PlayerUuid::Offline(OfflineUuid::of(uuid)))
    } else {
        Err(Error::InvalidUuid)
    }
}

impl PlayerUuid {
    /// The identifier held, whichever the kind.
    pub open spec fn uuid(&self) -> Uuid {
        match *self {
            PlayerUuid::Online(id) => id.uuid(),
            PlayerUuid::Offline(id) => id.uuid(),
        }
    }

    /// The tag agrees with the version of the identifier held.
    pub open spec fn well_tagged(&self) -> bool {
        match *self {
            PlayerUuid::Online(id) => id.uuid().version() == VERSION_RANDOM,
            PlayerUuid::Offline(id) => id.uuid().version() == VERSION_NAME_HASH,
        }
    }

    /// Creates the identifier of the offline player called `username`: the
    /// MD5 digest of the prefix and the username, stamped with version 3 and
    /// the RFC 4122 variant. The username is taken byte for byte as it is.
    pub fn new_with_offline_username(username: &str) -> (id: PlayerUuid)
        ensures
            id == PlayerUuid::Offline(OfflineUuid::of(offline_uuid(username@))),
            id.uuid().version() == VERSION_NAME_HASH,
            id.uuid().variant() == VARIANT_RFC4122,
    {
        let mut input: Vec<u8> = Vec::new();
        input.extend_from_slice(OFFLINE_PREFIX.as_bytes());
        input.extend_from_slice(username.as_bytes());
        assert(input@ =~= offline_input(username@));
        let digest = md5_compute(input.as_slice());
        PlayerUuid::Offline(OfflineUuid::from_digest(digest))
    }

    /// The address at which the directory service tells the identifier that
    /// belongs to `username`: the endpoint, then the username as it is.
    pub fn online_username_url(username: &str) -> (url: String)
        ensures
            url@ == USERNAME_ENDPOINT@ + username@,
    {
        let mut url = String::from_str(USERNAME_ENDPOINT);
        url.append(username);
        url
    }

    /// Creates an instance from the reply to a lookup by username. A profile
    /// gives an online identifier that holds the profile's identifier as it
    /// came, whatever its version; a reply without a profile gives `Unknown`;
    /// a status that reports a failure gives `InvalidUsername`; a failure of
    /// the transport is handed on.
    pub fn new_with_online_username(reply: LookupReply) -> (id: Result<PlayerUuid, Error>)
        ensures
            id == match reply {
                LookupReply::Profile(profile) => Ok::<PlayerUuid, Error>(
                    PlayerUuid::Online(OnlineUuid::of(profile.id)),
                ),
                LookupReply::Malformed => Err(Error::Unknown),
                LookupReply::Status(_) => Err(Error::InvalidUsername),
                LookupReply::Transport(failure) => Err(Error::Transport(failure)),
            },
    {
        match reply {
            LookupReply::Profile(profile) => Ok(PlayerUuid::Online(OnlineUuid::new(profile.id))),
            LookupReply::Malformed => Err(Error::Unknown),
            LookupReply::Status(_) => Err(Error::InvalidUsername),
            LookupReply::Transport(failure) => Err(Error::Transport(failure)),
        }
    }

    /// Creates an instance from an identifier that exists already, going by
    /// its version.
    pub fn new_with_uuid(uuid: Uuid) -> (id: Result<PlayerUuid, Error>)
        ensures
            id == classify(uuid),
            id matches Ok(player) ==> player.uuid() == uuid && player.well_tagged(),
    {
        broadcast use {OnlineUuid::lemma_of_uuid, OfflineUuid::lemma_of_uuid};

        let version = uuid.get_version_num();
        if version == VERSION_RANDOM {
            Ok(PlayerUuid::Online(OnlineUuid::new(uuid)))
        } else if version == VERSION_NAME_HASH {
            Ok(PlayerUuid::Offline(OfflineUuid::new(uuid)))
        } else {
            Err(Error::InvalidUuid)
        }
    }

    /// Returns the inner identifier.
    pub fn as_uuid(&self) -> (uuid: &Uuid)
        ensures
            *uuid == self.uuid(),
    {
        match self {
            PlayerUuid::Online(id) => id.as_uuid(),
            PlayerUuid::Offline(id) => id.as_uuid(),
        }
    }

    /// Returns the inner identifier as its sixteen bytes.
    pub fn as_bytes(&self) -> (bytes: &[u8; 16])
        ensures
            bytes@ == self.uuid()@,
    {
        self.as_uuid().as_bytes()
    }

    /// Returns the offline identifier inside. Only for a value that holds
    /// one.
    pub fn unwrap_offline(self) -> (id: OfflineUuid)
        requires
            self is Offline,
        ensures
            self == PlayerUuid::Offline(id),
    {
        match self {
            PlayerUuid::Online(_) => vstd::pervasive::unreached(),
            PlayerUuid::Offline(id) => id,
        }
    }

    /// Returns the online identifier inside. Only for a value that holds
    /// one.
    pub fn unwrap_online(self) -> (id: OnlineUuid)
        requires
            self is Online,
        ensures
            self == PlayerUuid::Online(id),
    {
        match self {
            PlayerUuid::Online(id) => id,
            PlayerUuid::Offline(_) => vstd::pervasive::unreached(),
        }
    }
}

} // verus!
