//! What holds of every username and every identifier, proved once.

use crate::error::Error;
use crate::id::{Uuid, VARIANT_RFC4122, VERSION_NAME_HASH, VERSION_RANDOM};
use crate::offline::{offline_uuid, stamped, OfflineUuid};
use crate::online::OnlineUuid;
use crate::player::{classify, PlayerUuid};
use vstd::prelude::*;

verus! {

/// The offline identifier depends on the username alone: whatever two calls
/// of `PlayerUuid::new_with_offline_username` return for one username, it is
/// the same value.
pub proof fn lemma_offline_deterministic(username: Seq<char>, first: PlayerUuid, second: PlayerUuid)
    requires
        first == PlayerUuid::Offline(OfflineUuid::of(offline_uuid(username))),
        second == PlayerUuid::Offline(OfflineUuid::of(offline_uuid(username))),
    ensures
        first == second,
        first.uuid() == second.uuid(),
        first.uuid()@ == second.uuid()@,
{
}

/// Whatever the digest, a stamped digest has sixteen bytes, version 3 and the
/// RFC 4122 variant, and apart from those six bits it is the digest.
pub proof fn lemma_stamped(digest: Seq<u8>)
    ensures
        stamped(digest).len() == 16,
        stamped(digest)[6] >> 4 == VERSION_NAME_HASH,
        stamped(digest)[8] >> 6 == VARIANT_RFC4122,
        stamped(digest)[6] & 0x0f == digest[6] & 0x0f,
        stamped(digest)[8] & 0x3f == digest[8] & 0x3f,
        forall|i: int| 0 <= i < 16 && i != 6 && i != 8 ==> stamped(digest)[i] == digest[i],
{
    let b6 = digest[6];
    let b8 = digest[8];
    assert((b6 & 0x0f | 0x30) >> 4 == 3) by (bit_vector);
    assert((b8 & 0x3f | 0x80) >> 6 == 2) by (bit_vector);
    assert((b6 & 0x0f | 0x30) & 0x0f == b6 & 0x0f) by (bit_vector);
    assert((b8 & 0x3f | 0x80) & 0x3f == b8 & 0x3f) by (bit_vector);
}

/// The offline identifier of every username has version 3 and the RFC 4122
/// variant, whatever the digest was.
pub proof fn lemma_offline_version(username: Seq<char>)
    ensures
        offline_uuid(username).version() == VERSION_NAME_HASH,
        offline_uuid(username).variant() == VARIANT_RFC4122,
{
    let digest = crate::digest::md5_digest(crate::offline::offline_input(username));
    lemma_stamped(digest);
    Uuid::lemma_of_bytes_view(stamped(digest));
}

/// An offline identifier goes through the classification unchanged: the
/// identifier derived from any username is classified as the offline
/// identifier that holds exactly it.
pub proof fn lemma_classify_offline(username: Seq<char>)
    ensures
        classify(offline_uuid(username)) == Ok::<PlayerUuid, Error>(
            PlayerUuid::Offline(OfflineUuid::of(offline_uuid(username))),
        ),
{
    lemma_offline_version(username);
}

/// An identifier of version 4 is classified as the online identifier that
/// holds exactly it.
pub proof fn lemma_classify_online(uuid: Uuid)
    requires
        uuid.version() == VERSION_RANDOM,
    ensures
        classify(uuid) == Ok::<PlayerUuid, Error>(PlayerUuid::Online(OnlineUuid::of(uuid))),
{
}

/// An identifier whose version is neither 3 nor 4 is turned down, versions
/// 1, 2 and 5 among them; and no identifier of version 3 or 4 is.
pub proof fn lemma_classify_rejects(uuid: Uuid)
    ensures
        classify(uuid) == Err::<PlayerUuid, Error>(Error::InvalidUuid) <==> uuid.version()
            != VERSION_NAME_HASH && uuid.version() != VERSION_RANDOM,
        uuid.version() == 1 || uuid.version() == 2 || uuid.version() == 5 ==> classify(uuid) == Err::<
            PlayerUuid,
            Error,
        >(Error::InvalidUuid),
{
}

/// What the classification accepts carries the tag of its version and holds
/// the identifier it was given.
pub proof fn lemma_classify_well_tagged(uuid: Uuid)
    ensures
        classify(uuid) matches Ok(player) ==> player.well_tagged() && player.uuid() == uuid,
{
    OnlineUuid::lemma_of_uuid(uuid);
    OfflineUuid::lemma_of_uuid(uuid);
}

/// A player identifier is known by its tag and the identifier it holds.
pub proof fn lemma_player_uuid_eq(first: PlayerUuid, second: PlayerUuid)
    requires
        first is Online <==> second is Online,
        first.uuid() == second.uuid(),
    ensures
        first == second,
{
    match (first, second) {
        (PlayerUuid::Online(a), PlayerUuid::Online(b)) => {
            a.lemma_uuid_of();
            b.lemma_uuid_of();
        },
        (PlayerUuid::Offline(a), PlayerUuid::Offline(b)) => {
            a.lemma_uuid_of();
            b.lemma_uuid_of();
        },
        _ => {},
    }
}

} // verus!
