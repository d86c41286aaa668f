//! Library-wide laws, proved once over the contracts of the pipeline.

use vstd::prelude::*;

use crate::dispatch::{
    channel_eq, emojis_update_eq, guild_ban_eq, guild_delete_eq, guild_eq, integrations_update_eq,
    member_change_eq, member_update_eq, members_chunk_eq, message_delete_bulk_eq,
    message_delete_eq, message_update_eq, pins_update_eq, presence_update_eq,
    reaction_remove_all_eq, reaction_remove_emoji_eq, reaction_update_eq, ready_eq,
    role_change_eq, role_delete_eq, typing_start_eq, voice_server_eq, voice_state_eq,
};
use crate::entities::{
    attachment_matches, attachments_eq, attachments_match, embed_matches, embeds_eq, embeds_match,
    emoji_matches, emojis_eq, emojis_match, member_eq, member_matches, mention_channel_matches,
    mention_channels_eq, mention_channels_match, reaction_matches, reactions_eq, reactions_match,
    strings_eq, strings_match, user_eq, user_matches, users_eq, users_match, Attachment, Embed,
    Emoji, GuildMember, MentionChannel, Reaction, User,
};
use crate::error::{error_eq, PandaError};
use crate::events::{
    dispatch_body_ok, dispatch_matches, dispatches_to, resolves_to, tag_known, DispatchEvent,
    Event,
};
use crate::json::{json_arr, json_get, JsonValue};
use crate::message::{
    message_eq, message_kind_code, message_matches, Message,
};
use crate::payload::{known_opcode, Payload, OP_DISPATCH};

verus! {

/// Two dispatch events read the same: the same variant, with payloads that
/// read the same field for field.
pub open spec fn dispatch_event_eq(a: DispatchEvent, b: DispatchEvent) -> bool {
    match (a, b) {
        (DispatchEvent::Ready(x), DispatchEvent::Ready(y)) => ready_eq(x, y),
        (DispatchEvent::Resumed, DispatchEvent::Resumed) => true,
        (DispatchEvent::Reconnect, DispatchEvent::Reconnect) => true,
        (DispatchEvent::ChannelCreate(x), DispatchEvent::ChannelCreate(y)) => channel_eq(x, y),
        (DispatchEvent::ChannelUpdate(x), DispatchEvent::ChannelUpdate(y)) => channel_eq(x, y),
        (DispatchEvent::ChannelDelete(x), DispatchEvent::ChannelDelete(y)) => channel_eq(x, y),
        (DispatchEvent::ChannelPinsUpdate(x), DispatchEvent::ChannelPinsUpdate(y)) =>
            pins_update_eq(x, y),
        (DispatchEvent::GuildCreate(x), DispatchEvent::GuildCreate(y)) => guild_eq(x, y),
        (DispatchEvent::GuildUpdate(x), DispatchEvent::GuildUpdate(y)) => guild_eq(x, y),
        (DispatchEvent::GuildDelete(x), DispatchEvent::GuildDelete(y)) => guild_delete_eq(x, y),
        (DispatchEvent::GuildBanAdd(x), DispatchEvent::GuildBanAdd(y)) => guild_ban_eq(x, y),
        (DispatchEvent::GuildBanRemove(x), DispatchEvent::GuildBanRemove(y)) => guild_ban_eq(x, y),
        (DispatchEvent::GuildEmojisUpdate(x), DispatchEvent::GuildEmojisUpdate(y)) =>
            emojis_update_eq(x, y),
        (DispatchEvent::GuildIntegrationsUpdate(x), DispatchEvent::GuildIntegrationsUpdate(y)) =>
            integrations_update_eq(x, y),
        (DispatchEvent::GuildMemberAdd(x), DispatchEvent::GuildMemberAdd(y)) => member_change_eq(
            x,
            y,
        ),
        (DispatchEvent::GuildMemberRemove(x), DispatchEvent::GuildMemberRemove(y)) =>
            member_change_eq(x, y),
        (DispatchEvent::GuildMemberUpdate(x), DispatchEvent::GuildMemberUpdate(y)) =>
            member_update_eq(x, y),
        (DispatchEvent::GuildMembersChunk(x), DispatchEvent::GuildMembersChunk(y)) =>
            members_chunk_eq(x, y),
        (DispatchEvent::GuildRoleCreate(x), DispatchEvent::GuildRoleCreate(y)) => role_change_eq(
            x,
            y,
        ),
        (DispatchEvent::GuildRoleUpdate(x), DispatchEvent::GuildRoleUpdate(y)) => role_change_eq(
            x,
            y,
        ),
        (DispatchEvent::GuildRoleDelete(x), DispatchEvent::GuildRoleDelete(y)) => role_delete_eq(
            x,
            y,
        ),
        (DispatchEvent::MessageCreate(x), DispatchEvent::MessageCreate(y)) => message_eq(x, y),
        (DispatchEvent::MessageUpdate(x), DispatchEvent::MessageUpdate(y)) => message_update_eq(
            x,
            y,
        ),
        (DispatchEvent::MessageDelete(x), DispatchEvent::MessageDelete(y)) => message_delete_eq(
            x,
            y,
        ),
        (DispatchEvent::MessageDeleteBulk(x), DispatchEvent::MessageDeleteBulk(y)) =>
            message_delete_bulk_eq(x, y),
        (DispatchEvent::MessageReactionAdd(x), DispatchEvent::MessageReactionAdd(y)) =>
            reaction_update_eq(x, y),
        (DispatchEvent::MessageReactionRemove(x), DispatchEvent::MessageReactionRemove(y)) =>
            reaction_update_eq(x, y),
        (
            DispatchEvent::MessageReactionRemoveAll(x),
            DispatchEvent::MessageReactionRemoveAll(y),
        ) => reaction_remove_all_eq(x, y),
        (
            DispatchEvent::MessageReactionRemoveEmoji(x),
            DispatchEvent::MessageReactionRemoveEmoji(y),
        ) => reaction_remove_emoji_eq(x, y),
        (DispatchEvent::PresenceUpdate(x), DispatchEvent::PresenceUpdate(y)) => presence_update_eq(
            x,
            y,
        ),
        (DispatchEvent::TypingStart(x), DispatchEvent::TypingStart(y)) => typing_start_eq(x, y),
        (DispatchEvent::UserUpdate(x), DispatchEvent::UserUpdate(y)) => user_eq(x, y),
        (DispatchEvent::VoiceStateUpdate(x), DispatchEvent::VoiceStateUpdate(y)) => voice_state_eq(
            x,
            y,
        ),
        (DispatchEvent::VoiceServerUpdate(x), DispatchEvent::VoiceServerUpdate(y)) =>
            voice_server_eq(x, y),
        _ => false,
    }
}

/// Two resolved events read the same.
pub open spec fn event_eq(a: Event, b: Event) -> bool {
    match (a, b) {
        (Event::Dispatch(x), Event::Dispatch(y)) => dispatch_event_eq(x, y),
        (Event::Reconnect, Event::Reconnect) => true,
        (Event::InvalidSession(x), Event::InvalidSession(y)) => x == y,
        (Event::Hello(x), Event::Hello(y)) => x == y,
        (Event::HeartbeatACK, Event::HeartbeatACK) => true,
        _ => false,
    }
}

/// Two decode outcomes read the same: equal events or equal failures.
pub open spec fn outcome_eq(a: Result<Event, PandaError>, b: Result<Event, PandaError>) -> bool {
    match (a, b) {
        (Result::Ok(x), Result::Ok(y)) => event_eq(x, y),
        (Result::Err(x), Result::Err(y)) => error_eq(x, y),
        _ => false,
    }
}

proof fn lemma_strings_functional(a: Seq<JsonValue>, x: Seq<String>, y: Seq<String>)
    requires
        strings_match(a, x),
        strings_match(a, y),
    ensures
        strings_eq(x, y),
{
    assert forall|i: int| 0 <= i < x.len() implies x[i]@ == y[i]@ by {
        assert(a[i] is Str);
    }
}

proof fn lemma_users_functional(a: Seq<JsonValue>, x: Seq<User>, y: Seq<User>)
    requires
        users_match(a, x),
        users_match(a, y),
    ensures
        users_eq(x, y),
{
    assert forall|i: int| 0 <= i < x.len() implies user_eq(x[i], y[i]) by {
        assert(user_matches(a[i], x[i]));
        assert(user_matches(a[i], y[i]));
    }
}

proof fn lemma_emojis_functional(a: Seq<JsonValue>, x: Seq<Emoji>, y: Seq<Emoji>)
    requires
        emojis_match(a, x),
        emojis_match(a, y),
    ensures
        emojis_eq(x, y),
{
    assert forall|i: int| 0 <= i < x.len() implies crate::entities::emoji_eq(x[i], y[i]) by {
        assert(emoji_matches(a[i], x[i]));
        assert(emoji_matches(a[i], y[i]));
    }
}

proof fn lemma_mention_channels_functional(
    a: Seq<JsonValue>,
    x: Seq<MentionChannel>,
    y: Seq<MentionChannel>,
)
    requires
        mention_channels_match(a, x),
        mention_channels_match(a, y),
    ensures
        mention_channels_eq(x, y),
{
    assert forall|i: int| 0 <= i < x.len() implies crate::entities::mention_channel_eq(
        x[i],
        y[i],
    ) by {
        assert(mention_channel_matches(a[i], x[i]));
        assert(mention_channel_matches(a[i], y[i]));
    }
}

proof fn lemma_attachments_functional(a: Seq<JsonValue>, x: Seq<Attachment>, y: Seq<Attachment>)
    requires
        attachments_match(a, x),
        attachments_match(a, y),
    ensures
        attachments_eq(x, y),
{
    assert forall|i: int| 0 <= i < x.len() implies crate::entities::attachment_eq(x[i], y[i]) by {
        assert(attachment_matches(a[i], x[i]));
        assert(attachment_matches(a[i], y[i]));
    }
}

proof fn lemma_embeds_functional(a: Seq<JsonValue>, x: Seq<Embed>, y: Seq<Embed>)
    requires
        embeds_match(a, x),
        embeds_match(a, y),
    ensures
        embeds_eq(x, y),
{
    assert forall|i: int| 0 <= i < x.len() implies crate::entities::embed_eq(x[i], y[i]) by {
        assert(embed_matches(a[i], x[i]));
        assert(embed_matches(a[i], y[i]));
    }
}

proof fn lemma_reactions_functional(a: Seq<JsonValue>, x: Seq<Reaction>, y: Seq<Reaction>)
    requires
        reactions_match(a, x),
        reactions_match(a, y),
    ensures
        reactions_eq(x, y),
{
    assert forall|i: int| 0 <= i < x.len() implies crate::entities::reaction_eq(x[i], y[i]) by {
        assert(reaction_matches(a[i], x[i]));
        assert(reaction_matches(a[i], y[i]));
    }
}

proof fn lemma_member_functional(v: JsonValue, x: GuildMember, y: GuildMember)
    requires
        member_matches(v, x),
        member_matches(v, y),
    ensures
        member_eq(x, y),
{
    match json_arr(v, "roles"@) {
        Option::Some(a) => lemma_strings_functional(a, x.roles@, y.roles@),
        Option::None => {},
    }
}

/// Two decodings of the same message body read the same, field for field.
pub proof fn lemma_message_functional(v: JsonValue, x: Message, y: Message)
    requires
        message_matches(v, x),
        message_matches(v, y),
    ensures
        message_eq(x, y),
{
    match json_arr(v, "mentions"@) {
        Option::Some(a) => lemma_users_functional(a, x.mentions@, y.mentions@),
        Option::None => {},
    }
    match json_arr(v, "mention_roles"@) {
        Option::Some(a) => lemma_strings_functional(a, x.mention_roles@, y.mention_roles@),
        Option::None => {},
    }
    match json_arr(v, "attachments"@) {
        Option::Some(a) => lemma_attachments_functional(a, x.attachments@, y.attachments@),
        Option::None => {},
    }
    match json_get(v, "mentions_channels"@) {
        Option::Some(JsonValue::Arr(a)) => lemma_mention_channels_functional(
            a@,
            x.mentions_channels@,
            y.mentions_channels@,
        ),
        _ => {},
    }
    match json_get(v, "embed"@) {
        Option::Some(JsonValue::Arr(a)) => lemma_embeds_functional(a@, x.embed@, y.embed@),
        _ => {},
    }
    match json_get(v, "reactions"@) {
        Option::Some(JsonValue::Arr(a)) => lemma_reactions_functional(a@, x.reactions@, y.reactions@),
        _ => {},
    }
    match json_get(v, "member"@) {
        Option::Some(JsonValue::Null) => {},
        Option::Some(j) => {
            match (x.member, y.member) {
                (Option::Some(gx), Option::Some(gy)) => lemma_member_functional(j, gx, gy),
                _ => {},
            }
        },
        Option::None => {},
    }
    match (x.kind, y.kind) {
        (Option::Some(k1), Option::Some(k2)) => {
            assert(message_kind_code(k1) == message_kind_code(k2));
            assert(k1 == k2);
        },
        _ => {},
    }
}

/// Two resolutions of the same recognized dispatch body read the same.
pub proof fn lemma_dispatch_functional(
    t: Seq<char>,
    d: JsonValue,
    a: DispatchEvent,
    b: DispatchEvent,
)
    requires
        dispatch_matches(t, d, a),
        dispatch_matches(t, d, b),
    ensures
        dispatch_event_eq(a, b),
{
    if t == "GUILD_EMOJIS_UPDATE"@ {
        match (a, b) {
            (DispatchEvent::GuildEmojisUpdate(x), DispatchEvent::GuildEmojisUpdate(y)) => {
                match json_arr(d, "emojis"@) {
                    Option::Some(arr) => lemma_emojis_functional(arr, x.emojis@, y.emojis@),
                    Option::None => {},
                }
            },
            _ => {},
        }
    } else if t == "GUILD_MEMBER_UPDATE"@ {
        match (a, b) {
            (DispatchEvent::GuildMemberUpdate(x), DispatchEvent::GuildMemberUpdate(y)) => {
                match json_arr(d, "roles"@) {
                    Option::Some(arr) => lemma_strings_functional(arr, x.roles@, y.roles@),
                    Option::None => {},
                }
            },
            _ => {},
        }
    } else if t == "GUILD_MEMBER_CHUNK"@ {
        match (a, b) {
            (DispatchEvent::GuildMembersChunk(x), DispatchEvent::GuildMembersChunk(y)) => {
                match json_arr(d, "members"@) {
                    Option::Some(arr) => lemma_users_functional(arr, x.members@, y.members@),
                    Option::None => {},
                }
            },
            _ => {},
        }
    } else if t == "MESSAGE_CREATE"@ {
        match (a, b) {
            (DispatchEvent::MessageCreate(x), DispatchEvent::MessageCreate(y)) => {
                lemma_message_functional(d, x, y);
            },
            _ => {},
        }
    } else if t == "MESSAGE_DELETE_BULK"@ {
        match (a, b) {
            (DispatchEvent::MessageDeleteBulk(x), DispatchEvent::MessageDeleteBulk(y)) => {
                match json_arr(d, "ids"@) {
                    Option::Some(arr) => lemma_strings_functional(arr, x.ids@, y.ids@),
                    Option::None => {},
                }
            },
            _ => {},
        }
    }
}

/// Decoding is free of hidden state: two resolutions of the same frame
/// envelope read the same, event or failure alike.
pub proof fn lemma_resolve_deterministic(
    p: Payload,
    r1: Result<Event, PandaError>,
    r2: Result<Event, PandaError>,
)
    requires
        resolves_to(p, r1),
        resolves_to(p, r2),
    ensures
        outcome_eq(r1, r2),
{
    if p.op == OP_DISPATCH {
        match (p.d, p.t) {
            (Option::Some(d), Option::Some(t)) => {
                if tag_known(t@) && dispatch_body_ok(t@, d) {
                    match (r1, r2) {
                        (
                            Result::Ok(Event::Dispatch(a)),
                            Result::Ok(Event::Dispatch(b)),
                        ) => lemma_dispatch_functional(t@, d, a, b),
                        _ => {},
                    }
                }
            },
            _ => {},
        }
    }
}

/// An operation code outside the known control/dispatch set fails as an
/// unexpected opcode, whatever shape the rest of the frame has.
pub proof fn lemma_unknown_opcode_rejected(p: Payload, r: Result<Event, PandaError>)
    requires
        resolves_to(p, r),
        !known_opcode(p.op),
    ensures
        r == Err::<Event, PandaError>(PandaError::UnexpectedPayloadReceived),
{
}

} // verus!
