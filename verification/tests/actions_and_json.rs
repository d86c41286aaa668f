use panda::entities::{Embed, User};
use panda::json::{get_bool, get_opt_str, get_str, get_u64, JsonValue};
use panda::message::{Message, MessageKind, RestAction};

fn s(x: &str) -> JsonValue {
    JsonValue::Str(x.to_string())
}

fn obj(pairs: Vec<(&str, JsonValue)>) -> JsonValue {
    JsonValue::Obj(pairs.into_iter().map(|(k, v)| (k.to_string(), v)).collect())
}

fn sample_message() -> Message {
    Message {
        id: "m-77".to_string(),
        channel_id: "c-12".to_string(),
        guild_id: None,
        author: User { id: "u-1".to_string(), username: "kay".to_string() },
        member: None,
        content: "hello".to_string(),
        timestamp: "t0".to_string(),
        edited_timestamp: None,
        tts: false,
        mention_everyone: false,
        mentions: vec![],
        mention_roles: vec![],
        mentions_channels: vec![],
        attachments: vec![],
        embed: vec![],
        reactions: vec![],
        nonce: None,
        pinned: false,
        webhook_id: None,
        kind: Some(MessageKind::Regular),
        application: None,
        message_reference: None,
        flags: None,
    }
}

#[test]
fn send_builds_create_message_request() {
    let m = sample_message();
    assert_eq!(
        m.send("hi there"),
        RestAction::CreateMessage {
            channel_id: "c-12".to_string(),
            content: "hi there".to_string(),
        }
    );
}

#[test]
fn send_embed_builds_create_embed_request() {
    let m = sample_message();
    let e = Embed { title: Some("news".to_string()), description: None, url: None };
    assert_eq!(
        m.send_embed(e),
        RestAction::CreateEmbed {
            channel_id: "c-12".to_string(),
            embed: Embed { title: Some("news".to_string()), description: None, url: None },
        }
    );
}

#[test]
fn add_reaction_targets_this_message() {
    let m = sample_message();
    assert_eq!(
        m.add_reaction("👍"),
        RestAction::AddReaction {
            channel_id: "c-12".to_string(),
            message_id: "m-77".to_string(),
            emoji: "👍".to_string(),
        }
    );
}

#[test]
fn add_reaction_to_message_targets_sibling() {
    let m = sample_message();
    assert_eq!(
        m.add_reaction_to_message("m-90", "👀"),
        RestAction::AddReaction {
            channel_id: "c-12".to_string(),
            message_id: "m-90".to_string(),
            emoji: "👀".to_string(),
        }
    );
}

#[test]
fn remove_pin_and_unpin_carry_both_identifiers() {
    let m = sample_message();
    assert_eq!(
        m.remove(),
        RestAction::DeleteMessage {
            channel_id: "c-12".to_string(),
            message_id: "m-77".to_string(),
        }
    );
    assert_eq!(
        m.pin(),
        RestAction::PinMessage { channel_id: "c-12".to_string(), message_id: "m-77".to_string() }
    );
    assert_eq!(
        m.unpin(),
        RestAction::UnpinMessage { channel_id: "c-12".to_string(), message_id: "m-77".to_string() }
    );
}

#[test]
fn pin_leaves_the_local_value_unchanged() {
    let m = sample_message();
    let _ = m.pin();
    assert!(!m.pinned);
}

#[test]
fn message_kind_wire_codes_round_trip() {
    assert_eq!(MessageKind::from_u64(0), Some(MessageKind::Regular));
    assert_eq!(MessageKind::from_u64(3), Some(MessageKind::Call));
    assert_eq!(MessageKind::from_u64(12), Some(MessageKind::ChannelFollowAdd));
    assert_eq!(MessageKind::from_u64(14), Some(MessageKind::GuildDiscoveryDisqualified));
    assert_eq!(MessageKind::from_u64(15), Some(MessageKind::GuildDiscoveryRequalified));
}

#[test]
fn message_kind_rejects_unassigned_codes() {
    assert_eq!(MessageKind::from_u64(13), None);
    assert_eq!(MessageKind::from_u64(16), None);
    assert_eq!(MessageKind::from_u64(255), None);
}

#[test]
fn object_lookup_takes_the_first_duplicate() {
    let v = obj(vec![("id", s("first")), ("id", s("second"))]);
    assert_eq!(get_str(&v, "id"), Some("first".to_string()));
}

#[test]
fn getters_are_strict_about_types() {
    let v = obj(vec![("n", JsonValue::UInt(7)), ("b", JsonValue::Bool(true)), ("t", s("x"))]);
    assert_eq!(get_u64(&v, "n"), Some(7));
    assert_eq!(get_bool(&v, "b"), Some(true));
    assert_eq!(get_str(&v, "t"), Some("x".to_string()));
    assert_eq!(get_u64(&v, "t"), None);
    assert_eq!(get_bool(&v, "n"), None);
    assert_eq!(get_str(&v, "missing"), None);
}

#[test]
fn optional_getter_tells_absent_from_wrong_shape() {
    let v = obj(vec![("a", JsonValue::Null), ("b", s("x")), ("c", JsonValue::UInt(1))]);
    assert_eq!(get_opt_str(&v, "a"), Some(None));
    assert_eq!(get_opt_str(&v, "missing"), Some(None));
    assert_eq!(get_opt_str(&v, "b"), Some(Some("x".to_string())));
    assert_eq!(get_opt_str(&v, "c"), None);
}
