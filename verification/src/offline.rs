//! Identifiers derived from a username alone.

use crate::digest::md5_digest;
use crate::id::{Uuid, VARIANT_RFC4122, VERSION_NAME_HASH};
use vstd::prelude::*;
use vstd::utf8::encode_utf8;

verus! {

/// What stands before the username in the text that an offline identifier
/// is the digest of.
pub const OFFLINE_PREFIX: &'static str = "OfflinePlayer:";

/// The identifier of a player who is known by a username alone. Its version
/// is always 3.
#[derive(Copy, Clone, Debug, Hash, Eq, PartialEq, Ord, PartialOrd)]
pub struct OfflineUuid(Uuid);

/// The bytes that are hashed for `username`: the bytes of the prefix, then
/// those of the username as they are.
pub open spec fn offline_input(username: Seq<char>) -> Seq<u8> {
    encode_utf8(OFFLINE_PREFIX@) + encode_utf8(username)
}

/// A digest with the version and the variant stamped on it: the high half of
/// byte 6 becomes 3, the two high bits of byte 8 become `10`, and every other
/// bit stays.
pub open spec fn stamped(digest: Seq<u8>) -> Seq<u8> {
    Seq::new(
        16,
        |i: int|
            if i == 6 {
                digest[6] & 0x0f | 0x30
            } else if i == 8 {
                digest[8] & 0x3f | 0x80
            } else {
                digest[i]
            },
    )
}

/// The identifier of the offline player called `username`.
pub open spec fn offline_uuid(username: Seq<char>) -> Uuid {
    Uuid::of_bytes(stamped(md5_digest(offline_input(username))))
}

impl OfflineUuid {
    #[verifier::type_invariant]
    spec fn name_hashed(self) -> bool {
        self.0.version() == VERSION_NAME_HASH
    }

    /// The offline identifier that holds `uuid`.
    pub closed spec fn of(uuid: Uuid) -> OfflineUuid {
        OfflineUuid(uuid)
    }

    /// The identifier held.
    pub closed spec fn uuid(&self) -> Uuid {
        self.0
    }

    /// `of` and `uuid` undo each other.
    pub broadcast proof fn lemma_of_uuid(uuid: Uuid)
        ensures
            (#[trigger] Self::of(uuid)).uuid() == uuid,
    {
    }

    /// An offline identifier is the one that holds its identifier.
    pub broadcast proof fn lemma_uuid_of(self)
        ensures
            Self::of(#[trigger] self.uuid()) == self,
    {
    }

    /// Takes an identifier of version 3 as an offline identifier.
    pub(crate) fn new(uuid: Uuid) -> (id: OfflineUuid)
        requires
            uuid.version() == VERSION_NAME_HASH,
        ensures
            id == Self::of(uuid),
    {
        OfflineUuid(uuid)
    }

    /// Stamps version 3 and the RFC 4122 variant on a digest and takes the
    /// result as an offline identifier.
    pub fn from_digest(digest: [u8; 16]) -> (id: OfflineUuid)
        ensures
            id == Self::of(Uuid::of_bytes(stamped(digest@))),
            id.uuid()@ == stamped(digest@),
            id.uuid().version() == VERSION_NAME_HASH,
            id.uuid().variant() == VARIANT_RFC4122,
    {
        let mut hash = digest;
        let b6: u8 = hash[6];
        let b8: u8 = hash[8];
        hash[6] = b6 & 0x0f | 0x30;
        hash[8] = b8 & 0x3f | 0x80;
        assert((b6 & 0x0f | 0x30) >> 4 == 3) by (bit_vector);
        assert((b8 & 0x3f | 0x80) >> 6 == 2) by (bit_vector);
        assert(hash@ =~= stamped(digest@));
        let uuid = Uuid::from_bytes(hash);
        OfflineUuid(uuid)
    }

    /// Returns the inner identifier, whose version is 3.
    pub fn as_uuid(&self) -> (uuid: &Uuid)
        ensures
            *uuid == self.uuid(),
            uuid.version() == VERSION_NAME_HASH,
    {
        proof {
            use_type_invariant(self);
        }
        &self.0
    }

    /// Returns the inner identifier as its sixteen bytes.
    pub fn as_bytes(&self) -> (bytes: &[u8; 16])
        ensures
            bytes@ == self.uuid()@,
    {
        self.0.as_bytes()
    }
}

} // verus!
