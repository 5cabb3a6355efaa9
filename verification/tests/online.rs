use uuid_mc::online::{PROFILE_ENDPOINT, USERNAME_ENDPOINT};
use uuid_mc::{Error, LookupReply, OnlineUuid, OnlineUuidResponse, PlayerUuid, Uuid};

fn parse(text: &str) -> Uuid {
    Uuid::from_bytes(uuid::Uuid::try_parse(text).unwrap().into_bytes())
}

fn profile(name: &str, id: &str) -> LookupReply {
    LookupReply::Profile(OnlineUuidResponse { name: name.to_string(), id: parse(id) })
}

fn transport_failure() -> ureq::Transport {
    match ureq::get("no scheme, no host").call() {
        Err(ureq::Error::Transport(failure)) => failure,
        other => panic!("expected a transport failure, got {:?}", other),
    }
}

#[test]
fn online_uuids() {
    let values = vec![
        ("Notch", "Notch", "069a79f4-44e9-4726-a5be-fca90e38aaf5"),
        ("dinnerbone", "Dinnerbone", "61699b2e-d327-4a01-9f1e-0ea8c3f06bc6"),
        ("Dinnerbone", "Dinnerbone", "61699b2e-d327-4a01-9f1e-0ea8c3f06bc6"),
    ];

    for (username, name, uuid) in values {
        assert_eq!(
            PlayerUuid::online_username_url(username),
            format!("https://api.mojang.com/users/profiles/minecraft/{}", username)
        );
        let uuid1 = *PlayerUuid::new_with_online_username(profile(name, uuid)).unwrap().as_uuid();
        let uuid2 = parse(uuid);
        assert_eq!(uuid1, uuid2);
    }
}

#[test]
fn online_uuids_to_names() {
    let values = vec![
        ("Notch", "069a79f4-44e9-4726-a5be-fca90e38aaf5"),
        ("Dinnerbone", "61699b2e-d327-4a01-9f1e-0ea8c3f06bc6"),
    ];

    for (username, uuid) in values {
        let online = PlayerUuid::new_with_uuid(parse(uuid)).unwrap().unwrap_online();
        assert_eq!(
            online.username_url(),
            format!("https://sessionserver.mojang.com/session/minecraft/profile/{}", uuid)
        );
        let name = OnlineUuid::get_username(profile(username, uuid)).unwrap();
        assert_eq!(username, name);
    }
}

#[test]
fn endpoints_are_spelled_out() {
    assert_eq!(USERNAME_ENDPOINT, "https://api.mojang.com/users/profiles/minecraft/");
    assert_eq!(PROFILE_ENDPOINT, "https://sessionserver.mojang.com/session/minecraft/profile/");
}

#[test]
fn username_goes_into_the_url_as_it_is() {
    assert_eq!(PlayerUuid::online_username_url(""), USERNAME_ENDPOINT);
    assert_eq!(
        PlayerUuid::online_username_url("a b/ż"),
        "https://api.mojang.com/users/profiles/minecraft/a b/ż"
    );
}

#[test]
fn unknown_username_is_invalid_username() {
    for status in [400_u16, 404, 429, 500] {
        let by_name = PlayerUuid::new_with_online_username(LookupReply::Status(status));
        assert!(matches!(by_name, Err(Error::InvalidUsername)));
        let by_id = OnlineUuid::get_username(LookupReply::Status(status));
        assert!(matches!(by_id, Err(Error::InvalidUsername)));
    }
}

#[test]
fn reply_without_profile_is_unknown() {
    assert!(matches!(
        PlayerUuid::new_with_online_username(LookupReply::Malformed),
        Err(Error::Unknown)
    ));
    assert!(matches!(OnlineUuid::get_username(LookupReply::Malformed), Err(Error::Unknown)));
}

#[test]
fn transport_failure_is_handed_on() {
    let by_name = PlayerUuid::new_with_online_username(LookupReply::Transport(transport_failure()));
    match by_name {
        Err(Error::Transport(failure)) => assert_eq!(failure.kind(), ureq::ErrorKind::InvalidUrl),
        other => panic!("expected a transport error, got {:?}", other),
    }
    let by_id = OnlineUuid::get_username(LookupReply::Transport(transport_failure()));
    match by_id {
        Err(Error::Transport(failure)) => assert_eq!(failure.kind(), ureq::ErrorKind::InvalidUrl),
        other => panic!("expected a transport error, got {:?}", other),
    }
}

#[test]
fn profile_is_taken_as_it_comes() {
    // The directory's identifier is not classified: one of version 3 is
    // still held as an online identifier.
    let reply = profile("boolean_coercion", "db62bdfb-eddc-3acc-a14e-c703aba52549");
    let id = PlayerUuid::new_with_online_username(reply).unwrap();
    assert!(matches!(id, PlayerUuid::Online(_)));
    assert_eq!(id.as_uuid(), &parse("db62bdfb-eddc-3acc-a14e-c703aba52549"));
    assert_eq!(id.as_uuid().get_version_num(), 3);
}

#[test]
fn name_is_read_whatever_the_identifier() {
    let reply = profile("Dinnerbone", "069a79f4-44e9-4726-a5be-fca90e38aaf5");
    assert_eq!(OnlineUuid::get_username(reply).unwrap(), "Dinnerbone");
}

#[test]
fn unwrap_online_gives_the_inner_uuid() {
    let uuid = parse("069a79f4-44e9-4726-a5be-fca90e38aaf5");
    let id = PlayerUuid::new_with_uuid(uuid).unwrap();
    let inner = id.unwrap_online();
    assert_eq!(inner.as_uuid(), &uuid);
    assert_eq!(inner.as_bytes(), uuid.as_bytes());
    assert_eq!(PlayerUuid::Online(inner), id);
}
