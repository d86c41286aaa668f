use panda::dispatch::{Channel, GuildMembersChunk, Ready, TypingStart, VoiceServerUpdate};
use panda::entities::{Emoji, User};
use panda::error::PandaError;
use panda::events::{handle_dispatch, DispatchEvent, Event};
use panda::json::JsonValue;
use panda::payload::Payload;

fn s(x: &str) -> JsonValue {
    JsonValue::Str(x.to_string())
}

fn obj(pairs: Vec<(&str, JsonValue)>) -> JsonValue {
    JsonValue::Obj(pairs.into_iter().map(|(k, v)| (k.to_string(), v)).collect())
}

fn fmt_err(name: &str) -> PandaError {
    PandaError::InvalidPayloadFormat(name.to_string())
}

fn frame(op: u64, d: Option<JsonValue>, t: Option<&str>) -> Payload {
    Payload { op, d, s: None, t: t.map(|x| x.to_string()) }
}

fn minimal_message_body() -> JsonValue {
    obj(vec![
        ("id", s("41771983429993937")),
        ("channel_id", s("41771983423143937")),
        ("author", obj(vec![("id", s("53908099506183680")), ("username", s("Mason"))])),
        ("content", s("Supa Hot")),
        ("timestamp", s("2017-07-11T17:27:07.299000+00:00")),
        ("tts", JsonValue::Bool(false)),
        ("mention_everyone", JsonValue::Bool(false)),
        ("mentions", JsonValue::Arr(vec![])),
        ("mention_roles", JsonValue::Arr(vec![])),
        ("attachments", JsonValue::Arr(vec![])),
        ("pinned", JsonValue::Bool(false)),
    ])
}

// Each recognized opcode, given a minimal valid frame, yields its outcome and
// never a format error.

#[test]
fn dispatch_opcode_yields_dispatch_event() {
    let p = frame(0, Some(obj(vec![])), Some("RESUMED"));
    assert_eq!(Event::try_from(&p), Ok(Event::Dispatch(DispatchEvent::Resumed)));
}

#[test]
fn reconnect_opcode_yields_reconnect() {
    let p = frame(7, None, None);
    assert_eq!(Event::try_from(&p), Ok(Event::Reconnect));
}

#[test]
fn invalid_session_opcode_yields_signal() {
    let p = frame(9, Some(JsonValue::Bool(false)), None);
    assert_eq!(Event::try_from(&p), Ok(Event::InvalidSession(false)));
}

#[test]
fn hello_opcode_yields_interval() {
    let p = frame(10, Some(obj(vec![("heartbeat_interval", JsonValue::UInt(41250))])), None);
    assert_eq!(Event::try_from(&p), Ok(Event::Hello(41250)));
}

#[test]
fn heartbeat_ack_opcode_yields_ack() {
    let p = frame(11, None, None);
    assert_eq!(Event::try_from(&p), Ok(Event::HeartbeatACK));
}

// A dispatch frame must carry both `d` and `t`; the missing field is named.

#[test]
fn dispatch_without_t_names_t() {
    let p = frame(0, Some(obj(vec![])), None);
    assert_eq!(Event::try_from(&p), Err(fmt_err("t")));
}

#[test]
fn dispatch_without_d_names_d() {
    let p = frame(0, None, Some("READY"));
    assert_eq!(Event::try_from(&p), Err(fmt_err("d")));
}

// Invalid-session payloads must be exactly a boolean.

#[test]
fn invalid_session_true_is_resumable() {
    let p = frame(9, Some(JsonValue::Bool(true)), None);
    assert_eq!(Event::try_from(&p), Ok(Event::InvalidSession(true)));
}

#[test]
fn invalid_session_wrong_type_fails() {
    let p = frame(9, Some(s("x")), None);
    assert_eq!(Event::try_from(&p), Err(fmt_err("INVALID SESSION DATA")));
}

#[test]
fn invalid_session_missing_body_fails() {
    let p = frame(9, None, None);
    assert_eq!(Event::try_from(&p), Err(fmt_err("INVALID SESSION DATA")));
}

// Hello payloads must carry the heartbeat interval.

#[test]
fn hello_empty_object_fails() {
    let p = frame(10, Some(obj(vec![])), None);
    assert_eq!(Event::try_from(&p), Err(fmt_err("HELLO")));
}

#[test]
fn hello_missing_body_fails() {
    let p = frame(10, None, None);
    assert_eq!(Event::try_from(&p), Err(fmt_err("HELLO")));
}

#[test]
fn hello_non_object_body_fails() {
    let p = frame(10, Some(s("soon")), None);
    assert_eq!(Event::try_from(&p), Err(fmt_err("HELLO")));
}

// Message creation: required fields are carried over exactly and the
// omittable sequences default to empty.

#[test]
fn message_create_minimal_body_decodes() {
    let p = frame(0, Some(minimal_message_body()), Some("MESSAGE_CREATE"));
    match Event::try_from(&p) {
        Ok(Event::Dispatch(DispatchEvent::MessageCreate(m))) => {
            assert_eq!(m.id, "41771983429993937");
            assert_eq!(m.channel_id, "41771983423143937");
            assert_eq!(
                m.author,
                User { id: "53908099506183680".to_string(), username: "Mason".to_string() }
            );
            assert_eq!(m.content, "Supa Hot");
            assert_eq!(m.timestamp, "2017-07-11T17:27:07.299000+00:00");
            assert!(!m.tts);
            assert!(!m.mention_everyone);
            assert!(!m.pinned);
            assert!(m.embed.is_empty());
            assert!(m.reactions.is_empty());
            assert!(m.mentions_channels.is_empty());
            assert_eq!(m.guild_id, None);
            assert_eq!(m.kind, None);
            assert_eq!(m.flags, None);
        },
        other => panic!("expected a message-create event, got {:?}", other),
    }
}

#[test]
fn message_create_with_kind_and_flags() {
    let body = obj(vec![
        ("id", s("1")),
        ("channel_id", s("2")),
        ("guild_id", s("3")),
        ("author", obj(vec![("id", s("4")), ("username", s("nick"))])),
        ("content", s("hi")),
        ("timestamp", s("t0")),
        ("tts", JsonValue::Bool(true)),
        ("mention_everyone", JsonValue::Bool(true)),
        ("mentions", JsonValue::Arr(vec![obj(vec![("id", s("9")), ("username", s("amy"))])])),
        ("mention_roles", JsonValue::Arr(vec![s("role-a"), s("role-b")])),
        ("attachments", JsonValue::Arr(vec![])),
        ("pinned", JsonValue::Bool(true)),
        ("type", JsonValue::UInt(6)),
        ("flags", JsonValue::UInt(4)),
        ("nonce", s("n0")),
    ]);
    let p = frame(0, Some(body), Some("MESSAGE_CREATE"));
    match Event::try_from(&p) {
        Ok(Event::Dispatch(DispatchEvent::MessageCreate(m))) => {
            assert_eq!(m.guild_id.as_deref(), Some("3"));
            assert_eq!(m.kind, Some(panda::message::MessageKind::ChannelPinnedMessage));
            assert_eq!(m.flags, Some(4));
            assert_eq!(m.nonce.as_deref(), Some("n0"));
            assert_eq!(m.mentions.len(), 1);
            assert_eq!(m.mentions[0].username, "amy");
            assert_eq!(m.mention_roles, vec!["role-a".to_string(), "role-b".to_string()]);
            assert!(m.tts && m.mention_everyone && m.pinned);
        },
        other => panic!("expected a message-create event, got {:?}", other),
    }
}

#[test]
fn message_create_null_optional_reads_as_absent() {
    let body = obj(vec![
        ("id", s("1")),
        ("channel_id", s("2")),
        ("guild_id", JsonValue::Null),
        ("author", obj(vec![("id", s("4")), ("username", s("nick"))])),
        ("content", s("hi")),
        ("timestamp", s("t0")),
        ("tts", JsonValue::Bool(false)),
        ("mention_everyone", JsonValue::Bool(false)),
        ("mentions", JsonValue::Arr(vec![])),
        ("mention_roles", JsonValue::Arr(vec![])),
        ("attachments", JsonValue::Arr(vec![])),
        ("pinned", JsonValue::Bool(false)),
    ]);
    let p = frame(0, Some(body), Some("MESSAGE_CREATE"));
    match Event::try_from(&p) {
        Ok(Event::Dispatch(DispatchEvent::MessageCreate(m))) => {
            assert_eq!(m.guild_id, None);
        },
        other => panic!("expected a message-create event, got {:?}", other),
    }
}

#[test]
fn message_create_wrong_optional_type_fails_naming_tag() {
    let body = obj(vec![
        ("id", s("1")),
        ("channel_id", s("2")),
        ("guild_id", JsonValue::UInt(3)),
        ("author", obj(vec![("id", s("4")), ("username", s("nick"))])),
        ("content", s("hi")),
        ("timestamp", s("t0")),
        ("tts", JsonValue::Bool(false)),
        ("mention_everyone", JsonValue::Bool(false)),
        ("mentions", JsonValue::Arr(vec![])),
        ("mention_roles", JsonValue::Arr(vec![])),
        ("attachments", JsonValue::Arr(vec![])),
        ("pinned", JsonValue::Bool(false)),
    ]);
    let p = frame(0, Some(body), Some("MESSAGE_CREATE"));
    assert_eq!(Event::try_from(&p), Err(fmt_err("MESSAGE_CREATE")));
}

// Unknown tags are surfaced with their exact text.

#[test]
fn unknown_tag_is_surfaced() {
    let p = frame(0, Some(obj(vec![])), Some("SOME_FUTURE_EVENT"));
    assert_eq!(
        Event::try_from(&p),
        Err(PandaError::UnrecognizedDispatch("SOME_FUTURE_EVENT".to_string()))
    );
}

#[test]
fn tag_match_is_case_sensitive() {
    let p = frame(0, Some(obj(vec![])), Some("resumed"));
    assert_eq!(
        Event::try_from(&p),
        Err(PandaError::UnrecognizedDispatch("resumed".to_string()))
    );
}

// A recognized tag whose body fails decoding is blamed on that tag.

#[test]
fn channel_update_bad_body_names_channel_update() {
    let p = frame(0, Some(obj(vec![])), Some("CHANNEL_UPDATE"));
    assert_eq!(Event::try_from(&p), Err(fmt_err("CHANNEL_UPDATE")));
}

#[test]
fn guild_role_update_bad_body_names_guild_role_update() {
    let p = frame(0, Some(obj(vec![])), Some("GUILD_ROLE_UPDATE"));
    assert_eq!(Event::try_from(&p), Err(fmt_err("GUILD_ROLE_UPDATE")));
}

// Decoding is repeatable: the same envelope resolves to equal events.

#[test]
fn decoding_twice_yields_equal_events() {
    let p = frame(0, Some(minimal_message_body()), Some("MESSAGE_CREATE"));
    let first = Event::try_from(&p);
    let second = Event::try_from(&p);
    assert_eq!(first, second);
    assert!(matches!(first, Ok(Event::Dispatch(DispatchEvent::MessageCreate(_)))));
}

#[test]
fn failing_twice_yields_equal_errors() {
    let p = frame(9, Some(s("x")), None);
    assert_eq!(Event::try_from(&p), Event::try_from(&p));
}

// Opcodes outside the known set always fail as unexpected.

#[test]
fn unexpected_opcodes_fail_for_any_payload_shape() {
    let samples = vec![
        frame(2, None, None),
        frame(4, Some(JsonValue::Bool(true)), None),
        frame(5, Some(obj(vec![("heartbeat_interval", JsonValue::UInt(1))])), Some("READY")),
        frame(12, Some(s("x")), None),
        frame(255, Some(JsonValue::Arr(vec![])), Some("MESSAGE_CREATE")),
    ];
    for p in &samples {
        assert_eq!(Event::try_from(p), Err(PandaError::UnexpectedPayloadReceived));
    }
}

#[test]
fn heartbeat_request_opcode_is_unexpected_here() {
    let p = frame(1, None, None);
    assert_eq!(Event::try_from(&p), Err(PandaError::UnexpectedPayloadReceived));
}

// A sample of the dispatch table.

#[test]
fn ready_decodes() {
    let body = obj(vec![("v", JsonValue::UInt(6)), ("session_id", s("abc123"))]);
    let p = frame(0, Some(body), Some("READY"));
    assert_eq!(
        Event::try_from(&p),
        Ok(Event::Dispatch(DispatchEvent::Ready(Ready { v: 6, session_id: "abc123".to_string() })))
    );
}

#[test]
fn channel_create_decodes() {
    let body = obj(vec![("id", s("c1")), ("guild_id", s("g1")), ("name", s("general"))]);
    let p = frame(0, Some(body), Some("CHANNEL_CREATE"));
    assert_eq!(
        Event::try_from(&p),
        Ok(Event::Dispatch(DispatchEvent::ChannelCreate(Channel {
            id: "c1".to_string(),
            guild_id: Some("g1".to_string()),
            name: Some("general".to_string()),
        })))
    );
}

#[test]
fn guild_member_chunk_tag_decodes() {
    let body = obj(vec![
        ("guild_id", s("g1")),
        (
            "members",
            JsonValue::Arr(vec![obj(vec![("id", s("u1")), ("username", s("kay"))])]),
        ),
    ]);
    let p = frame(0, Some(body), Some("GUILD_MEMBER_CHUNK"));
    assert_eq!(
        Event::try_from(&p),
        Ok(Event::Dispatch(DispatchEvent::GuildMembersChunk(GuildMembersChunk {
            guild_id: "g1".to_string(),
            members: vec![User { id: "u1".to_string(), username: "kay".to_string() }],
        })))
    );
}

#[test]
fn typing_start_decodes() {
    let body = obj(vec![
        ("channel_id", s("c1")),
        ("user_id", s("u1")),
        ("timestamp", JsonValue::UInt(1586110815)),
    ]);
    let p = frame(0, Some(body), Some("TYPING_START"));
    assert_eq!(
        Event::try_from(&p),
        Ok(Event::Dispatch(DispatchEvent::TypingStart(TypingStart {
            channel_id: "c1".to_string(),
            user_id: "u1".to_string(),
            timestamp: 1586110815,
            guild_id: None,
        })))
    );
}

#[test]
fn voice_server_update_decodes() {
    let body = obj(vec![
        ("token", s("tok")),
        ("guild_id", s("g1")),
        ("endpoint", s("smart.loyal.example:80")),
    ]);
    let p = frame(0, Some(body), Some("VOICE_SERVER_UPDATE"));
    assert_eq!(
        Event::try_from(&p),
        Ok(Event::Dispatch(DispatchEvent::VoiceServerUpdate(VoiceServerUpdate {
            token: "tok".to_string(),
            guild_id: "g1".to_string(),
            endpoint: Some("smart.loyal.example:80".to_string()),
        })))
    );
}

#[test]
fn message_reaction_add_decodes_emoji() {
    let body = obj(vec![
        ("user_id", s("u1")),
        ("channel_id", s("c1")),
        ("message_id", s("m1")),
        ("emoji", obj(vec![("id", JsonValue::Null), ("name", s("🔥"))])),
    ]);
    let p = frame(0, Some(body), Some("MESSAGE_REACTION_ADD"));
    match Event::try_from(&p) {
        Ok(Event::Dispatch(DispatchEvent::MessageReactionAdd(x))) => {
            assert_eq!(x.message_id, "m1");
            assert_eq!(x.emoji, Emoji { id: None, name: "🔥".to_string() });
        },
        other => panic!("expected a reaction-add event, got {:?}", other),
    }
}

#[test]
fn resumed_body_is_ignored() {
    let p = frame(0, Some(s("anything")), Some("RESUMED"));
    assert_eq!(Event::try_from(&p), Ok(Event::Dispatch(DispatchEvent::Resumed)));
}

#[test]
fn handle_dispatch_reports_missing_fields_itself() {
    let p = frame(0, None, None);
    assert_eq!(handle_dispatch(&p), Err(fmt_err("d")));
    let q = frame(0, Some(obj(vec![])), None);
    assert_eq!(handle_dispatch(&q), Err(fmt_err("t")));
}
