use panda::events::{DispatchEvent, Event};
use panda::error::PandaError;
use panda::json::JsonValue;
use panda::payload::Payload;

fn s(x: &str) -> JsonValue {
    JsonValue::Str(x.to_string())
}

fn obj(pairs: Vec<(&str, JsonValue)>) -> JsonValue {
    JsonValue::Obj(pairs.into_iter().map(|(k, v)| (k.to_string(), v)).collect())
}

fn user() -> JsonValue {
    obj(vec![("id", s("u1")), ("username", s("kay"))])
}

fn dispatch(tag: &str, body: JsonValue) -> Payload {
    Payload { op: 0, d: Some(body), s: None, t: Some(tag.to_string()) }
}

/// A minimal body that decodes under the given tag.
fn minimal_body(tag: &str) -> JsonValue {
    match tag {
        "READY" => obj(vec![("v", JsonValue::UInt(6)), ("session_id", s("sess"))]),
        "RESUMED" | "RECONNECT" => obj(vec![]),
        "CHANNEL_CREATE" | "CHANNEL_UPDATE" | "CHANNEL_DELETE" => obj(vec![("id", s("c1"))]),
        "CHANNEL_PINS_UPDATE" => obj(vec![("channel_id", s("c1"))]),
        "GUILD_CREATE" | "GUILD_UPDATE" | "GUILD_DELETE" => obj(vec![("id", s("g1"))]),
        "GUILD_BAN_ADD" | "GUILD_BAN_REMOVE" | "GUILD_MEMBER_ADD" | "GUILD_MEMBER_REMOVE" => {
            obj(vec![("guild_id", s("g1")), ("user", user())])
        },
        "GUILD_EMOJIS_UPDATE" => obj(vec![("guild_id", s("g1")), ("emojis", JsonValue::Arr(vec![]))]),
        "GUILD_INTEGRATIONS_UPDATE" => obj(vec![("guild_id", s("g1"))]),
        "GUILD_MEMBER_UPDATE" => obj(vec![
            ("guild_id", s("g1")),
            ("user", user()),
            ("roles", JsonValue::Arr(vec![])),
        ]),
        "GUILD_MEMBER_CHUNK" => obj(vec![
            ("guild_id", s("g1")),
            ("members", JsonValue::Arr(vec![])),
        ]),
        "GUILD_ROLE_CREATE" | "GUILD_ROLE_UPDATE" => obj(vec![
            ("guild_id", s("g1")),
            ("role", obj(vec![("id", s("r1")), ("name", s("mods"))])),
        ]),
        "GUILD_ROLE_DELETE" => obj(vec![("guild_id", s("g1")), ("role_id", s("r1"))]),
        "MESSAGE_CREATE" => obj(vec![
            ("id", s("m1")),
            ("channel_id", s("c1")),
            ("author", user()),
            ("content", s("hi")),
            ("timestamp", s("t0")),
            ("tts", JsonValue::Bool(false)),
            ("mention_everyone", JsonValue::Bool(false)),
            ("mentions", JsonValue::Arr(vec![])),
            ("mention_roles", JsonValue::Arr(vec![])),
            ("attachments", JsonValue::Arr(vec![])),
            ("pinned", JsonValue::Bool(false)),
        ]),
        "MESSAGE_UPDATE" | "MESSAGE_DELETE" => obj(vec![("id", s("m1")), ("channel_id", s("c1"))]),
        "MESSAGE_DELETE_BULK" => obj(vec![
            ("ids", JsonValue::Arr(vec![s("m1"), s("m2")])),
            ("channel_id", s("c1")),
        ]),
        "MESSAGE_REACTION_ADD" | "MESSAGE_REACTION_REMOVE" => obj(vec![
            ("user_id", s("u1")),
            ("channel_id", s("c1")),
            ("message_id", s("m1")),
            ("emoji", obj(vec![("name", s("ok"))])),
        ]),
        "MESSAGE_REACTION_REMOVE_ALL" => obj(vec![
            ("channel_id", s("c1")),
            ("message_id", s("m1")),
        ]),
        "MESSAGE_REACTION_REMOVE_EMOJI" => obj(vec![
            ("channel_id", s("c1")),
            ("message_id", s("m1")),
            ("emoji", obj(vec![("name", s("ok"))])),
        ]),
        "PRESENCE_UPDATE" => obj(vec![("user", user()), ("status", s("online"))]),
        "TYPING_START" => obj(vec![
            ("channel_id", s("c1")),
            ("user_id", s("u1")),
            ("timestamp", JsonValue::UInt(1)),
        ]),
        "USER_UPDATE" => user(),
        "VOICE_STATE_UPDATE" => obj(vec![("user_id", s("u1")), ("session_id", s("sess"))]),
        "VOICE_SERVER_UPDATE" => obj(vec![("token", s("tok")), ("guild_id", s("g1"))]),
        other => panic!("no minimal body defined for {}", other),
    }
}

/// The tag a decoded dispatch event answers to.
fn tag_of(ev: &DispatchEvent) -> &'static str {
    match ev {
        DispatchEvent::Ready(_) => "READY",
        DispatchEvent::Resumed => "RESUMED",
        DispatchEvent::Reconnect => "RECONNECT",
        DispatchEvent::ChannelCreate(_) => "CHANNEL_CREATE",
        DispatchEvent::ChannelUpdate(_) => "CHANNEL_UPDATE",
        DispatchEvent::ChannelDelete(_) => "CHANNEL_DELETE",
        DispatchEvent::ChannelPinsUpdate(_) => "CHANNEL_PINS_UPDATE",
        DispatchEvent::GuildCreate(_) => "GUILD_CREATE",
        DispatchEvent::GuildUpdate(_) => "GUILD_UPDATE",
        DispatchEvent::GuildDelete(_) => "GUILD_DELETE",
        DispatchEvent::GuildBanAdd(_) => "GUILD_BAN_ADD",
        DispatchEvent::GuildBanRemove(_) => "GUILD_BAN_REMOVE",
        DispatchEvent::GuildEmojisUpdate(_) => "GUILD_EMOJIS_UPDATE",
        DispatchEvent::GuildIntegrationsUpdate(_) => "GUILD_INTEGRATIONS_UPDATE",
        DispatchEvent::GuildMemberAdd(_) => "GUILD_MEMBER_ADD",
        DispatchEvent::GuildMemberRemove(_) => "GUILD_MEMBER_REMOVE",
        DispatchEvent::GuildMemberUpdate(_) => "GUILD_MEMBER_UPDATE",
        DispatchEvent::GuildMembersChunk(_) => "GUILD_MEMBER_CHUNK",
        DispatchEvent::GuildRoleCreate(_) => "GUILD_ROLE_CREATE",
        DispatchEvent::GuildRoleUpdate(_) => "GUILD_ROLE_UPDATE",
        DispatchEvent::GuildRoleDelete(_) => "GUILD_ROLE_DELETE",
        DispatchEvent::MessageCreate(_) => "MESSAGE_CREATE",
        DispatchEvent::MessageUpdate(_) => "MESSAGE_UPDATE",
        DispatchEvent::MessageDelete(_) => "MESSAGE_DELETE",
        DispatchEvent::MessageDeleteBulk(_) => "MESSAGE_DELETE_BULK",
        DispatchEvent::MessageReactionAdd(_) => "MESSAGE_REACTION_ADD",
        DispatchEvent::MessageReactionRemove(_) => "MESSAGE_REACTION_REMOVE",
        DispatchEvent::MessageReactionRemoveAll(_) => "MESSAGE_REACTION_REMOVE_ALL",
        DispatchEvent::MessageReactionRemoveEmoji(_) => "MESSAGE_REACTION_REMOVE_EMOJI",
        DispatchEvent::PresenceUpdate(_) => "PRESENCE_UPDATE",
        DispatchEvent::TypingStart(_) => "TYPING_START",
        DispatchEvent::UserUpdate(_) => "USER_UPDATE",
        DispatchEvent::VoiceStateUpdate(_) => "VOICE_STATE_UPDATE",
        DispatchEvent::VoiceServerUpdate(_) => "VOICE_SERVER_UPDATE",
    }
}

const ALL_TAGS: [&str; 34] = [
    "READY",
    "RESUMED",
    "RECONNECT",
    "CHANNEL_CREATE",
    "CHANNEL_UPDATE",
    "CHANNEL_DELETE",
    "CHANNEL_PINS_UPDATE",
    "GUILD_CREATE",
    "GUILD_UPDATE",
    "GUILD_DELETE",
    "GUILD_BAN_ADD",
    "GUILD_BAN_REMOVE",
    "GUILD_EMOJIS_UPDATE",
    "GUILD_INTEGRATIONS_UPDATE",
    "GUILD_MEMBER_ADD",
    "GUILD_MEMBER_UPDATE",
    "GUILD_MEMBER_REMOVE",
    "GUILD_MEMBER_CHUNK",
    "GUILD_ROLE_CREATE",
    "GUILD_ROLE_UPDATE",
    "GUILD_ROLE_DELETE",
    "MESSAGE_CREATE",
    "MESSAGE_UPDATE",
    "MESSAGE_DELETE",
    "MESSAGE_DELETE_BULK",
    "MESSAGE_REACTION_ADD",
    "MESSAGE_REACTION_REMOVE",
    "MESSAGE_REACTION_REMOVE_ALL",
    "MESSAGE_REACTION_REMOVE_EMOJI",
    "PRESENCE_UPDATE",
    "TYPING_START",
    "USER_UPDATE",
    "VOICE_STATE_UPDATE",
    "VOICE_SERVER_UPDATE",
];

#[test]
fn every_recognized_tag_decodes_its_minimal_body() {
    for tag in ALL_TAGS {
        let p = dispatch(tag, minimal_body(tag));
        match Event::try_from(&p) {
            Ok(Event::Dispatch(ev)) => assert_eq!(tag_of(&ev), tag),
            other => panic!("tag {} did not decode: {:?}", tag, other),
        }
    }
}

#[test]
fn every_decoding_tag_blames_itself_on_a_bad_body() {
    for tag in ALL_TAGS {
        if tag == "RESUMED" || tag == "RECONNECT" {
            continue;  // these carry no body to decode
        }
        let p = dispatch(tag, JsonValue::UInt(7));
        assert_eq!(
            Event::try_from(&p),
            Err(PandaError::InvalidPayloadFormat(tag.to_string())),
            "tag {}",
            tag
        );
    }
}
