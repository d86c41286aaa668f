//! The payload-to-event resolution pipeline.
//!
//! [`Event::try_from`] classifies a frame by its operation code; dispatch
//! frames are resolved further by [`handle_dispatch`], which matches the
//! event-type tag against the closed table of recognized tags and decodes the
//! body into the tag's payload type.  Both functions are pure: their whole
//! behaviour is a function of the frame handed in, stated by [`resolves_to`]
//! and [`dispatches_to`].

use vstd::prelude::*;

use crate::dispatch::{
    channel_eq, channel_matches, channel_ok, decode_channel, decode_emojis_update, decode_guild,
    decode_guild_ban, decode_guild_delete, decode_integrations_update, decode_member_change,
    decode_member_update, decode_members_chunk, decode_message_delete, decode_message_delete_bulk,
    decode_message_update, decode_pins_update, decode_presence_update, decode_reaction_remove_all,
    decode_reaction_remove_emoji, decode_reaction_update, decode_ready, decode_role_change,
    decode_role_delete, decode_typing_start, decode_voice_server, decode_voice_state,
    emojis_update_eq, emojis_update_matches, emojis_update_ok, guild_ban_eq, guild_ban_matches,
    guild_ban_ok, guild_delete_eq, guild_delete_matches, guild_delete_ok, guild_eq, guild_matches,
    guild_ok, integrations_update_eq, integrations_update_matches, integrations_update_ok,
    member_change_eq, member_change_matches, member_change_ok, member_update_eq,
    member_update_matches, member_update_ok, members_chunk_eq, members_chunk_matches,
    members_chunk_ok, message_delete_bulk_eq, message_delete_bulk_matches, message_delete_bulk_ok,
    message_delete_eq, message_delete_matches, message_delete_ok, message_update_eq,
    message_update_matches, message_update_ok, pins_update_eq, pins_update_matches,
    pins_update_ok, presence_update_eq, presence_update_matches, presence_update_ok,
    reaction_remove_all_eq, reaction_remove_all_matches, reaction_remove_all_ok,
    reaction_remove_emoji_eq, reaction_remove_emoji_matches, reaction_remove_emoji_ok,
    reaction_update_eq, reaction_update_matches, reaction_update_ok, ready_eq, ready_matches,
    ready_ok, role_change_eq, role_change_matches, role_change_ok, role_delete_eq,
    role_delete_matches, role_delete_ok, typing_start_eq, typing_start_matches, typing_start_ok,
    voice_server_eq, voice_server_matches, voice_server_ok, voice_state_eq, voice_state_matches,
    voice_state_ok, Channel, ChannelPinsUpdate, Guild, GuildBan, GuildDelete, GuildEmojisUpdate,
    GuildIntegrationsUpdate, GuildMemberChange, GuildMemberUpdate, GuildMembersChunk,
    GuildRoleChange, GuildRoleDelete, MessageDelete, MessageDeleteBulk, MessageReactionRemoveAll,
    MessageReactionRemoveEmoji, MessageUpdate, PresenceUpdate, ReactionUpdate, Ready, TypingStart,
    VoiceServerUpdate, VoiceStateUpdate,
};
use crate::entities::{decode_user, user_eq, user_matches, user_ok, User};
use crate::error::{error_eq, is_format_error, PandaError};
use crate::json::{get_u64, json_u64, string_is, JsonValue};
use crate::message::{decode_message, message_eq, message_matches, message_ok, Message};
use crate::payload::{
    known_opcode, Payload, OP_DISPATCH, OP_HEARTBEAT_ACK, OP_HELLO, OP_INVALID_SESSION,
    OP_RECONNECT,
};

verus! {

/// One application-level event, resolved from a dispatch frame's tag.
#[derive(Debug, PartialEq)]
pub enum DispatchEvent {
    Ready(Ready),
    Resumed,
    Reconnect,
    ChannelCreate(Channel),
    ChannelUpdate(Channel),
    ChannelDelete(Channel),
    ChannelPinsUpdate(ChannelPinsUpdate),
    GuildCreate(Guild),
    GuildUpdate(Guild),
    GuildDelete(GuildDelete),
    GuildBanAdd(GuildBan),
    GuildBanRemove(GuildBan),
    GuildEmojisUpdate(GuildEmojisUpdate),
    GuildIntegrationsUpdate(GuildIntegrationsUpdate),
    GuildMemberAdd(GuildMemberChange),
    GuildMemberRemove(GuildMemberChange),
    GuildMemberUpdate(GuildMemberUpdate),
    GuildMembersChunk(GuildMembersChunk),
    GuildRoleCreate(GuildRoleChange),
    GuildRoleUpdate(GuildRoleChange),
    GuildRoleDelete(GuildRoleDelete),
    MessageCreate(Message),
    MessageUpdate(MessageUpdate),
    MessageDelete(MessageDelete),
    MessageDeleteBulk(MessageDeleteBulk),
    MessageReactionAdd(ReactionUpdate),
    MessageReactionRemove(ReactionUpdate),
    MessageReactionRemoveAll(MessageReactionRemoveAll),
    MessageReactionRemoveEmoji(MessageReactionRemoveEmoji),
    PresenceUpdate(PresenceUpdate),
    TypingStart(TypingStart),
    UserUpdate(User),
    VoiceStateUpdate(VoiceStateUpdate),
    VoiceServerUpdate(VoiceServerUpdate),
}

/// What a frame resolves to: a control signal, a dispatch event, or a
/// classified failure carried as the error of a `Result`.
#[derive(Debug, PartialEq)]
pub enum Event {
    Dispatch(DispatchEvent),
    Reconnect,
    InvalidSession(bool),
    Hello(u64),
    HeartbeatACK,
}

/// The closed table of recognized event-type tags.
pub open spec fn tag_known(t: Seq<char>) -> bool {
    ||| t == "READY"@
    ||| t == "RESUMED"@
    ||| t == "RECONNECT"@
    ||| t == "CHANNEL_CREATE"@
    ||| t == "CHANNEL_UPDATE"@
    ||| t == "CHANNEL_DELETE"@
    ||| t == "CHANNEL_PINS_UPDATE"@
    ||| t == "GUILD_CREATE"@
    ||| t == "GUILD_UPDATE"@
    ||| t == "GUILD_DELETE"@
    ||| t == "GUILD_BAN_ADD"@
    ||| t == "GUILD_BAN_REMOVE"@
    ||| t == "GUILD_EMOJIS_UPDATE"@
    ||| t == "GUILD_INTEGRATIONS_UPDATE"@
    ||| t == "GUILD_MEMBER_ADD"@
    ||| t == "GUILD_MEMBER_UPDATE"@
    ||| t == "GUILD_MEMBER_REMOVE"@
    ||| t == "GUILD_MEMBER_CHUNK"@
    ||| t == "GUILD_ROLE_CREATE"@
    ||| t == "GUILD_ROLE_UPDATE"@
    ||| t == "GUILD_ROLE_DELETE"@
    ||| t == "MESSAGE_CREATE"@
    ||| t == "MESSAGE_UPDATE"@
    ||| t == "MESSAGE_DELETE"@
    ||| t == "MESSAGE_DELETE_BULK"@
    ||| t == "MESSAGE_REACTION_ADD"@
    ||| t == "MESSAGE_REACTION_REMOVE"@
    ||| t == "MESSAGE_REACTION_REMOVE_ALL"@
    ||| t == "MESSAGE_REACTION_REMOVE_EMOJI"@
    ||| t == "PRESENCE_UPDATE"@
    ||| t == "TYPING_START"@
    ||| t == "USER_UPDATE"@
    ||| t == "VOICE_STATE_UPDATE"@
    ||| t == "VOICE_SERVER_UPDATE"@
}

/// Whether the body `d` decodes under the recognized tag `t`.
pub open spec fn dispatch_body_ok(t: Seq<char>, d: JsonValue) -> bool {
    if t == "READY"@ {
        ready_ok(d)
    } else if t == "RESUMED"@ {
        true
    } else if t == "RECONNECT"@ {
        true
    } else if t == "CHANNEL_CREATE"@ {
        channel_ok(d)
    } else if t == "CHANNEL_UPDATE"@ {
        channel_ok(d)
    } else if t == "CHANNEL_DELETE"@ {
        channel_ok(d)
    } else if t == "CHANNEL_PINS_UPDATE"@ {
        pins_update_ok(d)
    } else if t == "GUILD_CREATE"@ {
        guild_ok(d)
    } else if t == "GUILD_UPDATE"@ {
        guild_ok(d)
    } else if t == "GUILD_DELETE"@ {
        guild_delete_ok(d)
    } else if t == "GUILD_BAN_ADD"@ {
        guild_ban_ok(d)
    } else if t == "GUILD_BAN_REMOVE"@ {
        guild_ban_ok(d)
    } else if t == "GUILD_EMOJIS_UPDATE"@ {
        emojis_update_ok(d)
    } else if t == "GUILD_INTEGRATIONS_UPDATE"@ {
        integrations_update_ok(d)
    } else if t == "GUILD_MEMBER_ADD"@ {
        member_change_ok(d)
    } else if t == "GUILD_MEMBER_UPDATE"@ {
        member_update_ok(d)
    } else if t == "GUILD_MEMBER_REMOVE"@ {
        member_change_ok(d)
    } else if t == "GUILD_MEMBER_CHUNK"@ {
        members_chunk_ok(d)
    } else if t == "GUILD_ROLE_CREATE"@ {
        role_change_ok(d)
    } else if t == "GUILD_ROLE_UPDATE"@ {
        role_change_ok(d)
    } else if t == "GUILD_ROLE_DELETE"@ {
        role_delete_ok(d)
    } else if t == "MESSAGE_CREATE"@ {
        message_ok(d)
    } else if t == "MESSAGE_UPDATE"@ {
        message_update_ok(d)
    } else if t == "MESSAGE_DELETE"@ {
        message_delete_ok(d)
    } else if t == "MESSAGE_DELETE_BULK"@ {
        message_delete_bulk_ok(d)
    } else if t == "MESSAGE_REACTION_ADD"@ {
        reaction_update_ok(d)
    } else if t == "MESSAGE_REACTION_REMOVE"@ {
        reaction_update_ok(d)
    } else if t == "MESSAGE_REACTION_REMOVE_ALL"@ {
        reaction_remove_all_ok(d)
    } else if t == "MESSAGE_REACTION_REMOVE_EMOJI"@ {
        reaction_remove_emoji_ok(d)
    } else if t == "PRESENCE_UPDATE"@ {
        presence_update_ok(d)
    } else if t == "TYPING_START"@ {
        typing_start_ok(d)
    } else if t == "USER_UPDATE"@ {
        user_ok(d)
    } else if t == "VOICE_STATE_UPDATE"@ {
        voice_state_ok(d)
    } else if t == "VOICE_SERVER_UPDATE"@ {
        voice_server_ok(d)
    } else {
        false
    }
}

/// The event `ev` is the decoding of body `d` under the recognized tag `t`:
/// the right variant, with every payload field pinned to the body.
pub open spec fn dispatch_matches(t: Seq<char>, d: JsonValue, ev: DispatchEvent) -> bool {
    if t == "READY"@ {
        ev matches DispatchEvent::Ready(x) && ready_matches(d, x)
    } else if t == "RESUMED"@ {
        ev == DispatchEvent::Resumed
    } else if t == "RECONNECT"@ {
        ev == DispatchEvent::Reconnect
    } else if t == "CHANNEL_CREATE"@ {
        ev matches DispatchEvent::ChannelCreate(x) && channel_matches(d, x)
    } else if t == "CHANNEL_UPDATE"@ {
        ev matches DispatchEvent::ChannelUpdate(x) && channel_matches(d, x)
    } else if t == "CHANNEL_DELETE"@ {
        ev matches DispatchEvent::ChannelDelete(x) && channel_matches(d, x)
    } else if t == "CHANNEL_PINS_UPDATE"@ {
        ev matches DispatchEvent::ChannelPinsUpdate(x) && pins_update_matches(d, x)
    } else if t == "GUILD_CREATE"@ {
        ev matches DispatchEvent::GuildCreate(x) && guild_matches(d, x)
    } else if t == "GUILD_UPDATE"@ {
        ev matches DispatchEvent::GuildUpdate(x) && guild_matches(d, x)
    } else if t == "GUILD_DELETE"@ {
        ev matches DispatchEvent::GuildDelete(x) && guild_delete_matches(d, x)
    } else if t == "GUILD_BAN_ADD"@ {
        ev matches DispatchEvent::GuildBanAdd(x) && guild_ban_matches(d, x)
    } else if t == "GUILD_BAN_REMOVE"@ {
        ev matches DispatchEvent::GuildBanRemove(x) && guild_ban_matches(d, x)
    } else if t == "GUILD_EMOJIS_UPDATE"@ {
        ev matches DispatchEvent::GuildEmojisUpdate(x) && emojis_update_matches(d, x)
    } else if t == "GUILD_INTEGRATIONS_UPDATE"@ {
        ev matches DispatchEvent::GuildIntegrationsUpdate(x) && integrations_update_matches(d, x)
    } else if t == "GUILD_MEMBER_ADD"@ {
        ev matches DispatchEvent::GuildMemberAdd(x) && member_change_matches(d, x)
    } else if t == "GUILD_MEMBER_UPDATE"@ {
        ev matches DispatchEvent::GuildMemberUpdate(x) && member_update_matches(d, x)
    } else if t == "GUILD_MEMBER_REMOVE"@ {
        ev matches DispatchEvent::GuildMemberRemove(x) && member_change_matches(d, x)
    } else if t == "GUILD_MEMBER_CHUNK"@ {
        ev matches DispatchEvent::GuildMembersChunk(x) && members_chunk_matches(d, x)
    } else if t == "GUILD_ROLE_CREATE"@ {
        ev matches DispatchEvent::GuildRoleCreate(x) && role_change_matches(d, x)
    } else if t == "GUILD_ROLE_UPDATE"@ {
        ev matches DispatchEvent::GuildRoleUpdate(x) && role_change_matches(d, x)
    } else if t == "GUILD_ROLE_DELETE"@ {
        ev matches DispatchEvent::GuildRoleDelete(x) && role_delete_matches(d, x)
    } else if t == "MESSAGE_CREATE"@ {
        ev matches DispatchEvent::MessageCreate(x) && message_matches(d, x)
    } else if t == "MESSAGE_UPDATE"@ {
        ev matches DispatchEvent::MessageUpdate(x) && message_update_matches(d, x)
    } else if t == "MESSAGE_DELETE"@ {
        ev matches DispatchEvent::MessageDelete(x) && message_delete_matches(d, x)
    } else if t == "MESSAGE_DELETE_BULK"@ {
        ev matches DispatchEvent::MessageDeleteBulk(x) && message_delete_bulk_matches(d, x)
    } else if t == "MESSAGE_REACTION_ADD"@ {
        ev matches DispatchEvent::MessageReactionAdd(x) && reaction_update_matches(d, x)
    } else if t == "MESSAGE_REACTION_REMOVE"@ {
        ev matches DispatchEvent::MessageReactionRemove(x) && reaction_update_matches(d, x)
    } else if t == "MESSAGE_REACTION_REMOVE_ALL"@ {
        ev matches DispatchEvent::MessageReactionRemoveAll(x) && reaction_remove_all_matches(d, x)
    } else if t == "MESSAGE_REACTION_REMOVE_EMOJI"@ {
        ev matches DispatchEvent::MessageReactionRemoveEmoji(x) && reaction_remove_emoji_matches(
            d,
            x,
        )
    } else if t == "PRESENCE_UPDATE"@ {
        ev matches DispatchEvent::PresenceUpdate(x) && presence_update_matches(d, x)
    } else if t == "TYPING_START"@ {
        ev matches DispatchEvent::TypingStart(x) && typing_start_matches(d, x)
    } else if t == "USER_UPDATE"@ {
        ev matches DispatchEvent::UserUpdate(x) && user_matches(d, x)
    } else if t == "VOICE_STATE_UPDATE"@ {
        ev matches DispatchEvent::VoiceStateUpdate(x) && voice_state_matches(d, x)
    } else if t == "VOICE_SERVER_UPDATE"@ {
        ev matches DispatchEvent::VoiceServerUpdate(x) && voice_server_matches(d, x)
    } else {
        false
    }
}

/// Full behaviour of [`handle_dispatch`] on a frame: which field a missing
/// part is blamed on, when the unknown tag is surfaced, and what a successful
/// decoding holds.
pub open spec fn dispatches_to(p: Payload, r: Result<DispatchEvent, PandaError>) -> bool {
    match (p.d, p.t) {
        (Option::None, _) => r matches Err(e) && is_format_error(e, "d"@),
        (Option::Some(_), Option::None) => r matches Err(e) && is_format_error(e, "t"@),
        (Option::Some(d), Option::Some(t)) => if !tag_known(t@) {
            r matches Err(e) && e matches PandaError::UnrecognizedDispatch(u) && u@ == t@
        } else if dispatch_body_ok(t@, d) {
            r matches Ok(ev) && dispatch_matches(t@, d, ev)
        } else {
            r matches Err(e) && is_format_error(e, t@)
        },
    }
}

/// Resolves a dispatch frame's tag and body into one event.
///
/// The tag is matched exactly and case-sensitively against the closed table;
/// an unknown tag is surfaced with its text, and a recognized tag whose body
/// fails structural decoding is blamed on that tag, not on a generic parse
/// failure.
pub fn handle_dispatch(p: &Payload) -> (r: Result<DispatchEvent, PandaError>)
    ensures
        dispatches_to(*p, r),
{
    let d = match &p.d {
        Some(d) => d,
        None => {
            return Err(PandaError::InvalidPayloadFormat("d".to_owned()));
        },
    };
    let t = match &p.t {
        Some(t) => t,
        None => {
            return Err(PandaError::InvalidPayloadFormat("t".to_owned()));
        },
    };
    if string_is(t, "READY") {
        match decode_ready(d) {
            Some(x) => Ok(DispatchEvent::Ready(x)),
            None => Err(PandaError::InvalidPayloadFormat(t.clone())),
        }
    } else if string_is(t, "RESUMED") {
        Ok(DispatchEvent::Resumed)
    } else if string_is(t, "RECONNECT") {
        Ok(DispatchEvent::Reconnect)
    } else if string_is(t, "CHANNEL_CREATE") {
        match decode_channel(d) {
            Some(x) => Ok(DispatchEvent::ChannelCreate(x)),
            None => Err(PandaError::InvalidPayloadFormat(t.clone())),
        }
    } else if string_is(t, "CHANNEL_UPDATE") {
        match decode_channel(d) {
            Some(x) => Ok(DispatchEvent::ChannelUpdate(x)),
            None => Err(PandaError::InvalidPayloadFormat(t.clone())),
        }
    } else if string_is(t, "CHANNEL_DELETE") {
        match decode_channel(d) {
            Some(x) => Ok(DispatchEvent::ChannelDelete(x)),
            None => Err(PandaError::InvalidPayloadFormat(t.clone())),
        }
    } else if string_is(t, "CHANNEL_PINS_UPDATE") {
        match decode_pins_update(d) {
            Some(x) => Ok(DispatchEvent::ChannelPinsUpdate(x)),
            None => Err(PandaError::InvalidPayloadFormat(t.clone())),
        }
    } else if string_is(t, "GUILD_CREATE") {
        match decode_guild(d) {
            Some(x) => Ok(DispatchEvent::GuildCreate(x)),
            None => Err(PandaError::InvalidPayloadFormat(t.clone())),
        }
    } else if string_is(t, "GUILD_UPDATE") {
        match decode_guild(d) {
            Some(x) => Ok(DispatchEvent::GuildUpdate(x)),
            None => Err(PandaError::InvalidPayloadFormat(t.clone())),
        }
    } else if string_is(t, "GUILD_DELETE") {
        match decode_guild_delete(d) {
            Some(x) => Ok(DispatchEvent::GuildDelete(x)),
            None => Err(PandaError::InvalidPayloadFormat(t.clone())),
        }
    } else if string_is(t, "GUILD_BAN_ADD") {
        match decode_guild_ban(d) {
            Some(x) => Ok(DispatchEvent::GuildBanAdd(x)),
            None => Err(PandaError::InvalidPayloadFormat(t.clone())),
        }
    } else if string_is(t, "GUILD_BAN_REMOVE") {
        match decode_guild_ban(d) {
            Some(x) => Ok(DispatchEvent::GuildBanRemove(x)),
            None => Err(PandaError::InvalidPayloadFormat(t.clone())),
        }
    } else if string_is(t, "GUILD_EMOJIS_UPDATE") {
        match decode_emojis_update(d) {
            Some(x) => Ok(DispatchEvent::GuildEmojisUpdate(x)),
            None => Err(PandaError::InvalidPayloadFormat(t.clone())),
        }
    } else if string_is(t, "GUILD_INTEGRATIONS_UPDATE") {
        match decode_integrations_update(d) {
            Some(x) => Ok(DispatchEvent::GuildIntegrationsUpdate(x)),
            None => Err(PandaError::InvalidPayloadFormat(t.clone())),
        }
    } else if string_is(t, "GUILD_MEMBER_ADD") {
        match decode_member_change(d) {
            Some(x) => Ok(DispatchEvent::GuildMemberAdd(x)),
            None => Err(PandaError::InvalidPayloadFormat(t.clone())),
        }
    } else if string_is(t, "GUILD_MEMBER_UPDATE") {
        match decode_member_update(d) {
            Some(x) => Ok(DispatchEvent::GuildMemberUpdate(x)),
            None => Err(PandaError::InvalidPayloadFormat(t.clone())),
        }
    } else if string_is(t, "GUILD_MEMBER_REMOVE") {
        match decode_member_change(d) {
            Some(x) => Ok(DispatchEvent::GuildMemberRemove(x)),
            None => Err(PandaError::InvalidPayloadFormat(t.clone())),
        }
    } else if string_is(t, "GUILD_MEMBER_CHUNK") {
        match decode_members_chunk(d) {
            Some(x) => Ok(DispatchEvent::GuildMembersChunk(x)),
            None => Err(PandaError::InvalidPayloadFormat(t.clone())),
        }
    } else if string_is(t, "GUILD_ROLE_CREATE") {
        match decode_role_change(d) {
            Some(x) => Ok(DispatchEvent::GuildRoleCreate(x)),
            None => Err(PandaError::InvalidPayloadFormat(t.clone())),
        }
    } else if string_is(t, "GUILD_ROLE_UPDATE") {
        match decode_role_change(d) {
            Some(x) => Ok(DispatchEvent::GuildRoleUpdate(x)),
            None => Err(PandaError::InvalidPayloadFormat(t.clone())),
        }
    } else if string_is(t, "GUILD_ROLE_DELETE") {
        match decode_role_delete(d) {
            Some(x) => Ok(DispatchEvent::GuildRoleDelete(x)),
            None => Err(PandaError::InvalidPayloadFormat(t.clone())),
        }
    } else if string_is(t, "MESSAGE_CREATE") {
        match decode_message(d) {
            Some(x) => Ok(DispatchEvent::MessageCreate(x)),
            None => Err(PandaError::InvalidPayloadFormat(t.clone())),
        }
    } else if string_is(t, "MESSAGE_UPDATE") {
        match decode_message_update(d) {
            Some(x) => Ok(DispatchEvent::MessageUpdate(x)),
            None => Err(PandaError::InvalidPayloadFormat(t.clone())),
        }
    } else if string_is(t, "MESSAGE_DELETE") {
        match decode_message_delete(d) {
            Some(x) => Ok(DispatchEvent::MessageDelete(x)),
            None => Err(PandaError::InvalidPayloadFormat(t.clone())),
        }
    } else if string_is(t, "MESSAGE_DELETE_BULK") {
        match decode_message_delete_bulk(d) {
            Some(x) => Ok(DispatchEvent::MessageDeleteBulk(x)),
            None => Err(PandaError::InvalidPayloadFormat(t.clone())),
        }
    } else if string_is(t, "MESSAGE_REACTION_ADD") {
        match decode_reaction_update(d) {
            Some(x) => Ok(DispatchEvent::MessageReactionAdd(x)),
            None => Err(PandaError::InvalidPayloadFormat(t.clone())),
        }
    } else if string_is(t, "MESSAGE_REACTION_REMOVE") {
        match decode_reaction_update(d) {
            Some(x) => Ok(DispatchEvent::MessageReactionRemove(x)),
            None => Err(PandaError::InvalidPayloadFormat(t.clone())),
        }
    } else if string_is(t, "MESSAGE_REACTION_REMOVE_ALL") {
        match decode_reaction_remove_all(d) {
            Some(x) => Ok(DispatchEvent::MessageReactionRemoveAll(x)),
            None => Err(PandaError::InvalidPayloadFormat(t.clone())),
        }
    } else if string_is(t, "MESSAGE_REACTION_REMOVE_EMOJI") {
        match decode_reaction_remove_emoji(d) {
            Some(x) => Ok(DispatchEvent::MessageReactionRemoveEmoji(x)),
            None => Err(PandaError::InvalidPayloadFormat(t.clone())),
        }
    } else if string_is(t, "PRESENCE_UPDATE") {
        match decode_presence_update(d) {
            Some(x) => Ok(DispatchEvent::PresenceUpdate(x)),
            None => Err(PandaError::InvalidPayloadFormat(t.clone())),
        }
    } else if string_is(t, "TYPING_START") {
        match decode_typing_start(d) {
            Some(x) => Ok(DispatchEvent::TypingStart(x)),
            None => Err(PandaError::InvalidPayloadFormat(t.clone())),
        }
    } else if string_is(t, "USER_UPDATE") {
        match decode_user(d) {
            Some(x) => Ok(DispatchEvent::UserUpdate(x)),
            None => Err(PandaError::InvalidPayloadFormat(t.clone())),
        }
    } else if string_is(t, "VOICE_STATE_UPDATE") {
        match decode_voice_state(d) {
            Some(x) => Ok(DispatchEvent::VoiceStateUpdate(x)),
            None => Err(PandaError::InvalidPayloadFormat(t.clone())),
        }
    } else if string_is(t, "VOICE_SERVER_UPDATE") {
        match decode_voice_server(d) {
            Some(x) => Ok(DispatchEvent::VoiceServerUpdate(x)),
            None => Err(PandaError::InvalidPayloadFormat(t.clone())),
        }
    } else {
        Err(PandaError::UnrecognizedDispatch(t.clone()))
    }
}

/// The heartbeat interval a hello body carries, when it is well-formed.
pub open spec fn hello_interval_of(d: JsonValue) -> Option<u64> {
    json_u64(d, "heartbeat_interval"@)
}

/// Full behaviour of [`Event::try_from`] on a frame.
pub open spec fn resolves_to(p: Payload, r: Result<Event, PandaError>) -> bool {
    if p.op == OP_DISPATCH {
        match r {
            Result::Ok(ev) => ev matches Event::Dispatch(de) && dispatches_to(p, Ok(de)),
            Result::Err(e) => dispatches_to(p, Err(e)),
        }
    } else if p.op == OP_RECONNECT {
        r == Ok::<Event, PandaError>(Event::Reconnect)
    } else if p.op == OP_INVALID_SESSION {
        match p.d {
            Some(JsonValue::Bool(b)) => r == Ok::<Event, PandaError>(Event::InvalidSession(b)),
            _ => r matches Err(e) && is_format_error(e, "INVALID SESSION DATA"@),
        }
    } else if p.op == OP_HELLO {
        match p.d {
            Some(d) => match hello_interval_of(d) {
                Some(n) => r == Ok::<Event, PandaError>(Event::Hello(n)),
                None => r matches Err(e) && is_format_error(e, "HELLO"@),
            },
            None => r matches Err(e) && is_format_error(e, "HELLO"@),
        }
    } else if p.op == OP_HEARTBEAT_ACK {
        r == Ok::<Event, PandaError>(Event::HeartbeatACK)
    } else {
        r == Err::<Event, PandaError>(PandaError::UnexpectedPayloadReceived)
    }
}

impl Event {
    /// Classifies one frame by its operation code.
    ///
    /// Dispatch frames are handed on to [`handle_dispatch`]; the four control
    /// opcodes yield their signals after checking the payload shape each
    /// demands; every other opcode fails as unexpected rather than being
    /// silently ignored.
    pub fn try_from(p: &Payload) -> (r: Result<Event, PandaError>)
        ensures
            resolves_to(*p, r),
    {
        if p.op == OP_DISPATCH {
            match handle_dispatch(p) {
                Ok(de) => Ok(Event::Dispatch(de)),
                Err(e) => Err(e),
            }
        } else if p.op == OP_RECONNECT {
            Ok(Event::Reconnect)
        } else if p.op == OP_INVALID_SESSION {
            match &p.d {
                Some(JsonValue::Bool(b)) => Ok(Event::InvalidSession(*b)),
                _ => Err(PandaError::InvalidPayloadFormat("INVALID SESSION DATA".to_owned())),
            }
        } else if p.op == OP_HELLO {
            match &p.d {
                Some(d) => match get_u64(d, "heartbeat_interval") {
                    Some(n) => Ok(Event::Hello(n)),
                    None => Err(PandaError::InvalidPayloadFormat("HELLO".to_owned())),
                },
                None => Err(PandaError::InvalidPayloadFormat("HELLO".to_owned())),
            }
        } else if p.op == OP_HEARTBEAT_ACK {
            Ok(Event::HeartbeatACK)
        } else {
            Err(PandaError::UnexpectedPayloadReceived)
        }
    }
}

} // verus!
