//! Typed payloads of the dispatch events, with their decoders.
//!
//! Same discipline as the message entities: an `_ok` predicate, a `_matches`
//! relation pinning every field, an `_eq` relation for the determinism law,
//! and an executable decoder proved against the first two.

use vstd::prelude::*;

use crate::entities::{
    decode_emoji, decode_emojis, decode_strings, decode_user, decode_users, emoji_eq,
    emoji_matches, emoji_ok, emojis_eq, emojis_match, emojis_ok, opt_str_matches, opt_string_eq,
    strings_eq, strings_match, strings_ok, user_eq, user_matches, user_ok, users_eq, users_match,
    users_ok, Emoji, User,
};
use crate::json::{
    get_arr, get_bool, get_field, get_opt_str, get_str, get_u64, json_arr, json_bool, json_get,
    json_opt_str, json_str, json_u64, JsonValue,
};

verus! {

// ---------------------------------------------------------------------------
// Ready
// ---------------------------------------------------------------------------

/// Opening dispatch of a session: protocol version and session identifier.
#[derive(Debug, PartialEq)]
pub struct Ready {
    pub v: u64,
    pub session_id: String,
}

pub open spec fn ready_ok(d: JsonValue) -> bool {
    &&& json_u64(d, "v"@) is Some
    &&& json_str(d, "session_id"@) is Some
}

pub open spec fn ready_matches(d: JsonValue, r: Ready) -> bool {
    &&& json_u64(d, "v"@) == Some(r.v)
    &&& json_str(d, "session_id"@) == Some(r.session_id@)
}

pub open spec fn ready_eq(a: Ready, b: Ready) -> bool {
    a.v == b.v && a.session_id@ == b.session_id@
}

/// Decodes a session-ready body: integer `v`, string `session_id`.
pub fn decode_ready(d: &JsonValue) -> (r: Option<Ready>)
    ensures
        r is Some <==> ready_ok(*d),
        r matches Some(x) ==> ready_matches(*d, x),
{
    let v = match get_u64(d, "v") {
        Some(n) => n,
        None => {
            return None;
        },
    };
    let session_id = match get_str(d, "session_id") {
        Some(s) => s,
        None => {
            return None;
        },
    };
    Some(Ready { v, session_id })
}

// ---------------------------------------------------------------------------
// Channel
// ---------------------------------------------------------------------------

/// A channel, as carried by the channel lifecycle events.
#[derive(Debug, PartialEq)]
pub struct Channel {
    pub id: String,
    pub guild_id: Option<String>,
    pub name: Option<String>,
}

pub open spec fn channel_ok(d: JsonValue) -> bool {
    &&& json_str(d, "id"@) is Some
    &&& json_opt_str(d, "guild_id"@) is Some
    &&& json_opt_str(d, "name"@) is Some
}

pub open spec fn channel_matches(d: JsonValue, c: Channel) -> bool {
    &&& json_str(d, "id"@) == Some(c.id@)
    &&& opt_str_matches(json_opt_str(d, "guild_id"@), c.guild_id)
    &&& opt_str_matches(json_opt_str(d, "name"@), c.name)
}

pub open spec fn channel_eq(a: Channel, b: Channel) -> bool {
    a.id@ == b.id@ && opt_string_eq(a.guild_id, b.guild_id) && opt_string_eq(a.name, b.name)
}

/// Decodes a channel body: required string `id`, optional `guild_id` and
/// `name`.
pub fn decode_channel(d: &JsonValue) -> (r: Option<Channel>)
    ensures
        r is Some <==> channel_ok(*d),
        r matches Some(c) ==> channel_matches(*d, c),
{
    let id = match get_str(d, "id") {
        Some(s) => s,
        None => {
            return None;
        },
    };
    let guild_id = match get_opt_str(d, "guild_id") {
        Some(o) => o,
        None => {
            return None;
        },
    };
    let name = match get_opt_str(d, "name") {
        Some(o) => o,
        None => {
            return None;
        },
    };
    Some(Channel { id, guild_id, name })
}

// ---------------------------------------------------------------------------
// ChannelPinsUpdate
// ---------------------------------------------------------------------------

/// A change of a channel's pinned messages.
#[derive(Debug, PartialEq)]
pub struct ChannelPinsUpdate {
    pub channel_id: String,
    pub guild_id: Option<String>,
    pub last_pin_timestamp: Option<String>,
}

pub open spec fn pins_update_ok(d: JsonValue) -> bool {
    &&& json_str(d, "channel_id"@) is Some
    &&& json_opt_str(d, "guild_id"@) is Some
    &&& json_opt_str(d, "last_pin_timestamp"@) is Some
}

pub open spec fn pins_update_matches(d: JsonValue, c: ChannelPinsUpdate) -> bool {
    &&& json_str(d, "channel_id"@) == Some(c.channel_id@)
    &&& opt_str_matches(json_opt_str(d, "guild_id"@), c.guild_id)
    &&& opt_str_matches(json_opt_str(d, "last_pin_timestamp"@), c.last_pin_timestamp)
}

pub open spec fn pins_update_eq(a: ChannelPinsUpdate, b: ChannelPinsUpdate) -> bool {
    &&& a.channel_id@ == b.channel_id@
    &&& opt_string_eq(a.guild_id, b.guild_id)
    &&& opt_string_eq(a.last_pin_timestamp, b.last_pin_timestamp)
}

/// Decodes a channel-pins-update body.
pub fn decode_pins_update(d: &JsonValue) -> (r: Option<ChannelPinsUpdate>)
    ensures
        r is Some <==> pins_update_ok(*d),
        r matches Some(c) ==> pins_update_matches(*d, c),
{
    let channel_id = match get_str(d, "channel_id") {
        Some(s) => s,
        None => {
            return None;
        },
    };
    let guild_id = match get_opt_str(d, "guild_id") {
        Some(o) => o,
        None => {
            return None;
        },
    };
    let last_pin_timestamp = match get_opt_str(d, "last_pin_timestamp") {
        Some(o) => o,
        None => {
            return None;
        },
    };
    Some(ChannelPinsUpdate { channel_id, guild_id, last_pin_timestamp })
}

// ---------------------------------------------------------------------------
// Guild
// ---------------------------------------------------------------------------

/// A guild, as carried by the guild create and update events.
#[derive(Debug, PartialEq)]
pub struct Guild {
    pub id: String,
    pub name: Option<String>,
}

pub open spec fn guild_ok(d: JsonValue) -> bool {
    &&& json_str(d, "id"@) is Some
    &&& json_opt_str(d, "name"@) is Some
}

pub open spec fn guild_matches(d: JsonValue, g: Guild) -> bool {
    &&& json_str(d, "id"@) == Some(g.id@)
    &&& opt_str_matches(json_opt_str(d, "name"@), g.name)
}

pub open spec fn guild_eq(a: Guild, b: Guild) -> bool {
    a.id@ == b.id@ && opt_string_eq(a.name, b.name)
}

/// Decodes a guild body: required string `id`, optional `name`.
pub fn decode_guild(d: &JsonValue) -> (r: Option<Guild>)
    ensures
        r is Some <==> guild_ok(*d),
        r matches Some(g) ==> guild_matches(*d, g),
{
    let id = match get_str(d, "id") {
        Some(s) => s,
        None => {
            return None;
        },
    };
    let name = match get_opt_str(d, "name") {
        Some(o) => o,
        None => {
            return None;
        },
    };
    Some(Guild { id, name })
}

// ---------------------------------------------------------------------------
// GuildDelete
// ---------------------------------------------------------------------------

/// A guild becoming unavailable or leaving the session's view.
#[derive(Debug, PartialEq)]
pub struct GuildDelete {
    pub id: String,
    pub unavailable: Option<bool>,
}

pub open spec fn guild_delete_ok(d: JsonValue) -> bool {
    &&& json_str(d, "id"@) is Some
    &&& crate::json::json_opt_bool(d, "unavailable"@) is Some
}

pub open spec fn guild_delete_matches(d: JsonValue, g: GuildDelete) -> bool {
    &&& json_str(d, "id"@) == Some(g.id@)
    &&& crate::json::json_opt_bool(d, "unavailable"@) == Some(g.unavailable)
}

pub open spec fn guild_delete_eq(a: GuildDelete, b: GuildDelete) -> bool {
    a.id@ == b.id@ && a.unavailable == b.unavailable
}

/// Decodes a guild-delete body: required string `id`, optional boolean
/// `unavailable`.
pub fn decode_guild_delete(d: &JsonValue) -> (r: Option<GuildDelete>)
    ensures
        r is Some <==> guild_delete_ok(*d),
        r matches Some(g) ==> guild_delete_matches(*d, g),
{
    let id = match get_str(d, "id") {
        Some(s) => s,
        None => {
            return None;
        },
    };
    let unavailable = match crate::json::get_opt_bool(d, "unavailable") {
        Some(o) => o,
        None => {
            return None;
        },
    };
    Some(GuildDelete { id, unavailable })
}

// ---------------------------------------------------------------------------
// GuildBan
// ---------------------------------------------------------------------------

/// A ban being added to or lifted from a user in a guild.
#[derive(Debug, PartialEq)]
pub struct GuildBan {
    pub guild_id: String,
    pub user: User,
}

pub open spec fn guild_ban_ok(d: JsonValue) -> bool {
    &&& json_str(d, "guild_id"@) is Some
    &&& json_get(d, "user"@) matches Some(u) && user_ok(u)
}

pub open spec fn guild_ban_matches(d: JsonValue, g: GuildBan) -> bool {
    &&& json_str(d, "guild_id"@) == Some(g.guild_id@)
    &&& json_get(d, "user"@) matches Some(u) && user_matches(u, g.user)
}

pub open spec fn guild_ban_eq(a: GuildBan, b: GuildBan) -> bool {
    a.guild_id@ == b.guild_id@ && user_eq(a.user, b.user)
}

/// Decodes a guild-ban body: string `guild_id` and an embedded user object.
pub fn decode_guild_ban(d: &JsonValue) -> (r: Option<GuildBan>)
    ensures
        r is Some <==> guild_ban_ok(*d),
        r matches Some(g) ==> guild_ban_matches(*d, g),
{
    let guild_id = match get_str(d, "guild_id") {
        Some(s) => s,
        None => {
            return None;
        },
    };
    let user_val = match get_field(d, "user") {
        Some(u) => u,
        None => {
            return None;
        },
    };
    let user = match decode_user(user_val) {
        Some(u) => u,
        None => {
            return None;
        },
    };
    Some(GuildBan { guild_id, user })
}

// ---------------------------------------------------------------------------
// GuildEmojisUpdate
// ---------------------------------------------------------------------------

/// A guild's emoji set being replaced.
#[derive(Debug, PartialEq)]
pub struct GuildEmojisUpdate {
    pub guild_id: String,
    pub emojis: Vec<Emoji>,
}

pub open spec fn emojis_update_ok(d: JsonValue) -> bool {
    &&& json_str(d, "guild_id"@) is Some
    &&& json_arr(d, "emojis"@) matches Some(a) && emojis_ok(a)
}

pub open spec fn emojis_update_matches(d: JsonValue, g: GuildEmojisUpdate) -> bool {
    &&& json_str(d, "guild_id"@) == Some(g.guild_id@)
    &&& json_arr(d, "emojis"@) matches Some(a) && emojis_match(a, g.emojis@)
}

pub open spec fn emojis_update_eq(a: GuildEmojisUpdate, b: GuildEmojisUpdate) -> bool {
    a.guild_id@ == b.guild_id@ && emojis_eq(a.emojis@, b.emojis@)
}

/// Decodes a guild-emojis-update body: string `guild_id` and an array of
/// emoji objects.
pub fn decode_emojis_update(d: &JsonValue) -> (r: Option<GuildEmojisUpdate>)
    ensures
        r is Some <==> emojis_update_ok(*d),
        r matches Some(g) ==> emojis_update_matches(*d, g),
{
    let guild_id = match get_str(d, "guild_id") {
        Some(s) => s,
        None => {
            return None;
        },
    };
    let emojis = match get_arr(d, "emojis") {
        Some(a) => match decode_emojis(a) {
            Some(es) => es,
            None => {
                return None;
            },
        },
        None => {
            return None;
        },
    };
    Some(GuildEmojisUpdate { guild_id, emojis })
}

// ---------------------------------------------------------------------------
// GuildIntegrationsUpdate
// ---------------------------------------------------------------------------

/// A guild's integrations being updated.
#[derive(Debug, PartialEq)]
pub struct GuildIntegrationsUpdate {
    pub guild_id: String,
}

pub open spec fn integrations_update_ok(d: JsonValue) -> bool {
    json_str(d, "guild_id"@) is Some
}

pub open spec fn integrations_update_matches(d: JsonValue, g: GuildIntegrationsUpdate) -> bool {
    json_str(d, "guild_id"@) == Some(g.guild_id@)
}

pub open spec fn integrations_update_eq(a: GuildIntegrationsUpdate, b: GuildIntegrationsUpdate) -> bool {
    a.guild_id@ == b.guild_id@
}

/// Decodes a guild-integrations-update body: string `guild_id`.
pub fn decode_integrations_update(d: &JsonValue) -> (r: Option<GuildIntegrationsUpdate>)
    ensures
        r is Some <==> integrations_update_ok(*d),
        r matches Some(g) ==> integrations_update_matches(*d, g),
{
    let guild_id = match get_str(d, "guild_id") {
        Some(s) => s,
        None => {
            return None;
        },
    };
    Some(GuildIntegrationsUpdate { guild_id })
}

// ---------------------------------------------------------------------------
// GuildMemberChange (add / remove)
// ---------------------------------------------------------------------------

/// A user entering or leaving a guild.
#[derive(Debug, PartialEq)]
pub struct GuildMemberChange {
    pub guild_id: String,
    pub user: User,
}

pub open spec fn member_change_ok(d: JsonValue) -> bool {
    &&& json_str(d, "guild_id"@) is Some
    &&& json_get(d, "user"@) matches Some(u) && user_ok(u)
}

pub open spec fn member_change_matches(d: JsonValue, g: GuildMemberChange) -> bool {
    &&& json_str(d, "guild_id"@) == Some(g.guild_id@)
    &&& json_get(d, "user"@) matches Some(u) && user_matches(u, g.user)
}

pub open spec fn member_change_eq(a: GuildMemberChange, b: GuildMemberChange) -> bool {
    a.guild_id@ == b.guild_id@ && user_eq(a.user, b.user)
}

/// Decodes a guild-member add or remove body: string `guild_id` and an
/// embedded user object.
pub fn decode_member_change(d: &JsonValue) -> (r: Option<GuildMemberChange>)
    ensures
        r is Some <==> member_change_ok(*d),
        r matches Some(g) ==> member_change_matches(*d, g),
{
    let guild_id = match get_str(d, "guild_id") {
        Some(s) => s,
        None => {
            return None;
        },
    };
    let user_val = match get_field(d, "user") {
        Some(u) => u,
        None => {
            return None;
        },
    };
    let user = match decode_user(user_val) {
        Some(u) => u,
        None => {
            return None;
        },
    };
    Some(GuildMemberChange { guild_id, user })
}

// ---------------------------------------------------------------------------
// GuildMemberUpdate
// ---------------------------------------------------------------------------

/// A guild member's roles or nickname changing.
#[derive(Debug, PartialEq)]
pub struct GuildMemberUpdate {
    pub guild_id: String,
    pub user: User,
    pub nick: Option<String>,
    pub roles: Vec<String>,
}

pub open spec fn member_update_ok(d: JsonValue) -> bool {
    &&& json_str(d, "guild_id"@) is Some
    &&& json_get(d, "user"@) matches Some(u) && user_ok(u)
    &&& json_opt_str(d, "nick"@) is Some
    &&& json_arr(d, "roles"@) matches Some(a) && strings_ok(a)
}

pub open spec fn member_update_matches(d: JsonValue, g: GuildMemberUpdate) -> bool {
    &&& json_str(d, "guild_id"@) == Some(g.guild_id@)
    &&& json_get(d, "user"@) matches Some(u) && user_matches(u, g.user)
    &&& opt_str_matches(json_opt_str(d, "nick"@), g.nick)
    &&& json_arr(d, "roles"@) matches Some(a) && strings_match(a, g.roles@)
}

pub open spec fn member_update_eq(a: GuildMemberUpdate, b: GuildMemberUpdate) -> bool {
    &&& a.guild_id@ == b.guild_id@
    &&& user_eq(a.user, b.user)
    &&& opt_string_eq(a.nick, b.nick)
    &&& strings_eq(a.roles@, b.roles@)
}

/// Decodes a guild-member-update body.
pub fn decode_member_update(d: &JsonValue) -> (r: Option<GuildMemberUpdate>)
    ensures
        r is Some <==> member_update_ok(*d),
        r matches Some(g) ==> member_update_matches(*d, g),
{
    let guild_id = match get_str(d, "guild_id") {
        Some(s) => s,
        None => {
            return None;
        },
    };
    let user_val = match get_field(d, "user") {
        Some(u) => u,
        None => {
            return None;
        },
    };
    let user = match decode_user(user_val) {
        Some(u) => u,
        None => {
            return None;
        },
    };
    let nick = match get_opt_str(d, "nick") {
        Some(o) => o,
        None => {
            return None;
        },
    };
    let roles = match get_arr(d, "roles") {
        Some(a) => match decode_strings(a) {
            Some(rs) => rs,
            None => {
                return None;
            },
        },
        None => {
            return None;
        },
    };
    Some(GuildMemberUpdate { guild_id, user, nick, roles })
}

// ---------------------------------------------------------------------------
// GuildMembersChunk
// ---------------------------------------------------------------------------

/// One chunk of a requested guild member listing.
#[derive(Debug, PartialEq)]
pub struct GuildMembersChunk {
    pub guild_id: String,
    pub members: Vec<User>,
}

pub open spec fn members_chunk_ok(d: JsonValue) -> bool {
    &&& json_str(d, "guild_id"@) is Some
    &&& json_arr(d, "members"@) matches Some(a) && users_ok(a)
}

pub open spec fn members_chunk_matches(d: JsonValue, g: GuildMembersChunk) -> bool {
    &&& json_str(d, "guild_id"@) == Some(g.guild_id@)
    &&& json_arr(d, "members"@) matches Some(a) && users_match(a, g.members@)
}

pub open spec fn members_chunk_eq(a: GuildMembersChunk, b: GuildMembersChunk) -> bool {
    a.guild_id@ == b.guild_id@ && users_eq(a.members@, b.members@)
}

/// Decodes a guild-members-chunk body: string `guild_id` and an array of user
/// objects.
pub fn decode_members_chunk(d: &JsonValue) -> (r: Option<GuildMembersChunk>)
    ensures
        r is Some <==> members_chunk_ok(*d),
        r matches Some(g) ==> members_chunk_matches(*d, g),
{
    let guild_id = match get_str(d, "guild_id") {
        Some(s) => s,
        None => {
            return None;
        },
    };
    let members = match get_arr(d, "members") {
        Some(a) => match decode_users(a) {
            Some(us) => us,
            None => {
                return None;
            },
        },
        None => {
            return None;
        },
    };
    Some(GuildMembersChunk { guild_id, members })
}

// ---------------------------------------------------------------------------
// Roles
// ---------------------------------------------------------------------------

/// A guild role.
#[derive(Debug, PartialEq)]
pub struct Role {
    pub id: String,
    pub name: String,
}

pub open spec fn role_ok(v: JsonValue) -> bool {
    &&& json_str(v, "id"@) is Some
    &&& json_str(v, "name"@) is Some
}

pub open spec fn role_matches(v: JsonValue, x: Role) -> bool {
    &&& json_str(v, "id"@) == Some(x.id@)
    &&& json_str(v, "name"@) == Some(x.name@)
}

pub open spec fn role_eq(a: Role, b: Role) -> bool {
    a.id@ == b.id@ && a.name@ == b.name@
}

/// Decodes a role object: `id` and `name` are required strings.
pub fn decode_role(v: &JsonValue) -> (r: Option<Role>)
    ensures
        r is Some <==> role_ok(*v),
        r matches Some(x) ==> role_matches(*v, x),
{
    let id = match get_str(v, "id") {
        Some(s) => s,
        None => {
            return None;
        },
    };
    let name = match get_str(v, "name") {
        Some(s) => s,
        None => {
            return None;
        },
    };
    Some(Role { id, name })
}

/// A role being created or updated in a guild.
#[derive(Debug, PartialEq)]
pub struct GuildRoleChange {
    pub guild_id: String,
    pub role: Role,
}

pub open spec fn role_change_ok(d: JsonValue) -> bool {
    &&& json_str(d, "guild_id"@) is Some
    &&& json_get(d, "role"@) matches Some(x) && role_ok(x)
}

pub open spec fn role_change_matches(d: JsonValue, g: GuildRoleChange) -> bool {
    &&& json_str(d, "guild_id"@) == Some(g.guild_id@)
    &&& json_get(d, "role"@) matches Some(x) && role_matches(x, g.role)
}

pub open spec fn role_change_eq(a: GuildRoleChange, b: GuildRoleChange) -> bool {
    a.guild_id@ == b.guild_id@ && role_eq(a.role, b.role)
}

/// Decodes a guild-role create or update body: string `guild_id` and an
/// embedded role object.
pub fn decode_role_change(d: &JsonValue) -> (r: Option<GuildRoleChange>)
    ensures
        r is Some <==> role_change_ok(*d),
        r matches Some(g) ==> role_change_matches(*d, g),
{
    let guild_id = match get_str(d, "guild_id") {
        Some(s) => s,
        None => {
            return None;
        },
    };
    let role_val = match get_field(d, "role") {
        Some(x) => x,
        None => {
            return None;
        },
    };
    let role = match decode_role(role_val) {
        Some(x) => x,
        None => {
            return None;
        },
    };
    Some(GuildRoleChange { guild_id, role })
}

/// A role being deleted from a guild.
#[derive(Debug, PartialEq)]
pub struct GuildRoleDelete {
    pub guild_id: String,
    pub role_id: String,
}

pub open spec fn role_delete_ok(d: JsonValue) -> bool {
    &&& json_str(d, "guild_id"@) is Some
    &&& json_str(d, "role_id"@) is Some
}

pub open spec fn role_delete_matches(d: JsonValue, g: GuildRoleDelete) -> bool {
    &&& json_str(d, "guild_id"@) == Some(g.guild_id@)
    &&& json_str(d, "role_id"@) == Some(g.role_id@)
}

pub open spec fn role_delete_eq(a: GuildRoleDelete, b: GuildRoleDelete) -> bool {
    a.guild_id@ == b.guild_id@ && a.role_id@ == b.role_id@
}

/// Decodes a guild-role-delete body: string `guild_id` and `role_id`.
pub fn decode_role_delete(d: &JsonValue) -> (r: Option<GuildRoleDelete>)
    ensures
        r is Some <==> role_delete_ok(*d),
        r matches Some(g) ==> role_delete_matches(*d, g),
{
    let guild_id = match get_str(d, "guild_id") {
        Some(s) => s,
        None => {
            return None;
        },
    };
    let role_id = match get_str(d, "role_id") {
        Some(s) => s,
        None => {
            return None;
        },
    };
    Some(GuildRoleDelete { guild_id, role_id })
}

// ---------------------------------------------------------------------------
// Message lifecycle
// ---------------------------------------------------------------------------

/// An edit of an existing message; the body is partial, so only the
/// identifiers are required.
#[derive(Debug, PartialEq)]
pub struct MessageUpdate {
    pub id: String,
    pub channel_id: String,
    pub content: Option<String>,
    pub edited_timestamp: Option<String>,
}

pub open spec fn message_update_ok(d: JsonValue) -> bool {
    &&& json_str(d, "id"@) is Some
    &&& json_str(d, "channel_id"@) is Some
    &&& json_opt_str(d, "content"@) is Some
    &&& json_opt_str(d, "edited_timestamp"@) is Some
}

pub open spec fn message_update_matches(d: JsonValue, m: MessageUpdate) -> bool {
    &&& json_str(d, "id"@) == Some(m.id@)
    &&& json_str(d, "channel_id"@) == Some(m.channel_id@)
    &&& opt_str_matches(json_opt_str(d, "content"@), m.content)
    &&& opt_str_matches(json_opt_str(d, "edited_timestamp"@), m.edited_timestamp)
}

pub open spec fn message_update_eq(a: MessageUpdate, b: MessageUpdate) -> bool {
    &&& a.id@ == b.id@
    &&& a.channel_id@ == b.channel_id@
    &&& opt_string_eq(a.content, b.content)
    &&& opt_string_eq(a.edited_timestamp, b.edited_timestamp)
}

/// Decodes a message-update body.
pub fn decode_message_update(d: &JsonValue) -> (r: Option<MessageUpdate>)
    ensures
        r is Some <==> message_update_ok(*d),
        r matches Some(m) ==> message_update_matches(*d, m),
{
    let id = match get_str(d, "id") {
        Some(s) => s,
        None => {
            return None;
        },
    };
    let channel_id = match get_str(d, "channel_id") {
        Some(s) => s,
        None => {
            return None;
        },
    };
    let content = match get_opt_str(d, "content") {
        Some(o) => o,
        None => {
            return None;
        },
    };
    let edited_timestamp = match get_opt_str(d, "edited_timestamp") {
        Some(o) => o,
        None => {
            return None;
        },
    };
    Some(MessageUpdate { id, channel_id, content, edited_timestamp })
}

/// A single message being deleted.
#[derive(Debug, PartialEq)]
pub struct MessageDelete {
    pub id: String,
    pub channel_id: String,
    pub guild_id: Option<String>,
}

pub open spec fn message_delete_ok(d: JsonValue) -> bool {
    &&& json_str(d, "id"@) is Some
    &&& json_str(d, "channel_id"@) is Some
    &&& json_opt_str(d, "guild_id"@) is Some
}

pub open spec fn message_delete_matches(d: JsonValue, m: MessageDelete) -> bool {
    &&& json_str(d, "id"@) == Some(m.id@)
    &&& json_str(d, "channel_id"@) == Some(m.channel_id@)
    &&& opt_str_matches(json_opt_str(d, "guild_id"@), m.guild_id)
}

pub open spec fn message_delete_eq(a: MessageDelete, b: MessageDelete) -> bool {
    &&& a.id@ == b.id@
    &&& a.channel_id@ == b.channel_id@
    &&& opt_string_eq(a.guild_id, b.guild_id)
}

/// Decodes a message-delete body.
pub fn decode_message_delete(d: &JsonValue) -> (r: Option<MessageDelete>)
    ensures
        r is Some <==> message_delete_ok(*d),
        r matches Some(m) ==> message_delete_matches(*d, m),
{
    let id = match get_str(d, "id") {
        Some(s) => s,
        None => {
            return None;
        },
    };
    let channel_id = match get_str(d, "channel_id") {
        Some(s) => s,
        None => {
            return None;
        },
    };
    let guild_id = match get_opt_str(d, "guild_id") {
        Some(o) => o,
        None => {
            return None;
        },
    };
    Some(MessageDelete { id, channel_id, guild_id })
}

/// Several messages being deleted at once.
#[derive(Debug, PartialEq)]
pub struct MessageDeleteBulk {
    pub ids: Vec<String>,
    pub channel_id: String,
    pub guild_id: Option<String>,
}

pub open spec fn message_delete_bulk_ok(d: JsonValue) -> bool {
    &&& json_arr(d, "ids"@) matches Some(a) && strings_ok(a)
    &&& json_str(d, "channel_id"@) is Some
    &&& json_opt_str(d, "guild_id"@) is Some
}

pub open spec fn message_delete_bulk_matches(d: JsonValue, m: MessageDeleteBulk) -> bool {
    &&& json_arr(d, "ids"@) matches Some(a) && strings_match(a, m.ids@)
    &&& json_str(d, "channel_id"@) == Some(m.channel_id@)
    &&& opt_str_matches(json_opt_str(d, "guild_id"@), m.guild_id)
}

pub open spec fn message_delete_bulk_eq(a: MessageDeleteBulk, b: MessageDeleteBulk) -> bool {
    &&& strings_eq(a.ids@, b.ids@)
    &&& a.channel_id@ == b.channel_id@
    &&& opt_string_eq(a.guild_id, b.guild_id)
}

/// Decodes a bulk message-delete body.
pub fn decode_message_delete_bulk(d: &JsonValue) -> (r: Option<MessageDeleteBulk>)
    ensures
        r is Some <==> message_delete_bulk_ok(*d),
        r matches Some(m) ==> message_delete_bulk_matches(*d, m),
{
    let ids = match get_arr(d, "ids") {
        Some(a) => match decode_strings(a) {
            Some(xs) => xs,
            None => {
                return None;
            },
        },
        None => {
            return None;
        },
    };
    let channel_id = match get_str(d, "channel_id") {
        Some(s) => s,
        None => {
            return None;
        },
    };
    let guild_id = match get_opt_str(d, "guild_id") {
        Some(o) => o,
        None => {
            return None;
        },
    };
    Some(MessageDeleteBulk { ids, channel_id, guild_id })
}

// ---------------------------------------------------------------------------
// Reactions
// ---------------------------------------------------------------------------

/// A reaction being added to or removed from a message.
#[derive(Debug, PartialEq)]
pub struct ReactionUpdate {
    pub user_id: String,
    pub channel_id: String,
    pub message_id: String,
    pub guild_id: Option<String>,
    pub emoji: Emoji,
}

pub open spec fn reaction_update_ok(d: JsonValue) -> bool {
    &&& json_str(d, "user_id"@) is Some
    &&& json_str(d, "channel_id"@) is Some
    &&& json_str(d, "message_id"@) is Some
    &&& json_opt_str(d, "guild_id"@) is Some
    &&& json_get(d, "emoji"@) matches Some(e) && emoji_ok(e)
}

pub open spec fn reaction_update_matches(d: JsonValue, x: ReactionUpdate) -> bool {
    &&& json_str(d, "user_id"@) == Some(x.user_id@)
    &&& json_str(d, "channel_id"@) == Some(x.channel_id@)
    &&& json_str(d, "message_id"@) == Some(x.message_id@)
    &&& opt_str_matches(json_opt_str(d, "guild_id"@), x.guild_id)
    &&& json_get(d, "emoji"@) matches Some(e) && emoji_matches(e, x.emoji)
}

pub open spec fn reaction_update_eq(a: ReactionUpdate, b: ReactionUpdate) -> bool {
    &&& a.user_id@ == b.user_id@
    &&& a.channel_id@ == b.channel_id@
    &&& a.message_id@ == b.message_id@
    &&& opt_string_eq(a.guild_id, b.guild_id)
    &&& emoji_eq(a.emoji, b.emoji)
}

/// Decodes a reaction add or remove body.
pub fn decode_reaction_update(d: &JsonValue) -> (r: Option<ReactionUpdate>)
    ensures
        r is Some <==> reaction_update_ok(*d),
        r matches Some(x) ==> reaction_update_matches(*d, x),
{
    let user_id = match get_str(d, "user_id") {
        Some(s) => s,
        None => {
            return None;
        },
    };
    let channel_id = match get_str(d, "channel_id") {
        Some(s) => s,
        None => {
            return None;
        },
    };
    let message_id = match get_str(d, "message_id") {
        Some(s) => s,
        None => {
            return None;
        },
    };
    let guild_id = match get_opt_str(d, "guild_id") {
        Some(o) => o,
        None => {
            return None;
        },
    };
    let emoji_val = match get_field(d, "emoji") {
        Some(e) => e,
        None => {
            return None;
        },
    };
    let emoji = match decode_emoji(emoji_val) {
        Some(e) => e,
        None => {
            return None;
        },
    };
    Some(ReactionUpdate { user_id, channel_id, message_id, guild_id, emoji })
}

/// Every reaction being removed from a message.
#[derive(Debug, PartialEq)]
pub struct MessageReactionRemoveAll {
    pub channel_id: String,
    pub message_id: String,
    pub guild_id: Option<String>,
}

pub open spec fn reaction_remove_all_ok(d: JsonValue) -> bool {
    &&& json_str(d, "channel_id"@) is Some
    &&& json_str(d, "message_id"@) is Some
    &&& json_opt_str(d, "guild_id"@) is Some
}

pub open spec fn reaction_remove_all_matches(d: JsonValue, x: MessageReactionRemoveAll) -> bool {
    &&& json_str(d, "channel_id"@) == Some(x.channel_id@)
    &&& json_str(d, "message_id"@) == Some(x.message_id@)
    &&& opt_str_matches(json_opt_str(d, "guild_id"@), x.guild_id)
}

pub open spec fn reaction_remove_all_eq(a: MessageReactionRemoveAll, b: MessageReactionRemoveAll) -> bool {
    &&& a.channel_id@ == b.channel_id@
    &&& a.message_id@ == b.message_id@
    &&& opt_string_eq(a.guild_id, b.guild_id)
}

/// Decodes a reaction-remove-all body.
pub fn decode_reaction_remove_all(d: &JsonValue) -> (r: Option<MessageReactionRemoveAll>)
    ensures
        r is Some <==> reaction_remove_all_ok(*d),
        r matches Some(x) ==> reaction_remove_all_matches(*d, x),
{
    let channel_id = match get_str(d, "channel_id") {
        Some(s) => s,
        None => {
            return None;
        },
    };
    let message_id = match get_str(d, "message_id") {
        Some(s) => s,
        None => {
            return None;
        },
    };
    let guild_id = match get_opt_str(d, "guild_id") {
        Some(o) => o,
        None => {
            return None;
        },
    };
    Some(MessageReactionRemoveAll { channel_id, message_id, guild_id })
}

/// One emoji's reactions being removed from a message.
#[derive(Debug, PartialEq)]
pub struct MessageReactionRemoveEmoji {
    pub channel_id: String,
    pub message_id: String,
    pub guild_id: Option<String>,
    pub emoji: Emoji,
}

pub open spec fn reaction_remove_emoji_ok(d: JsonValue) -> bool {
    &&& json_str(d, "channel_id"@) is Some
    &&& json_str(d, "message_id"@) is Some
    &&& json_opt_str(d, "guild_id"@) is Some
    &&& json_get(d, "emoji"@) matches Some(e) && emoji_ok(e)
}

pub open spec fn reaction_remove_emoji_matches(
    d: JsonValue,
    x: MessageReactionRemoveEmoji,
) -> bool {
    &&& json_str(d, "channel_id"@) == Some(x.channel_id@)
    &&& json_str(d, "message_id"@) == Some(x.message_id@)
    &&& opt_str_matches(json_opt_str(d, "guild_id"@), x.guild_id)
    &&& json_get(d, "emoji"@) matches Some(e) && emoji_matches(e, x.emoji)
}

pub open spec fn reaction_remove_emoji_eq(
    a: MessageReactionRemoveEmoji,
    b: MessageReactionRemoveEmoji,
) -> bool {
    &&& a.channel_id@ == b.channel_id@
    &&& a.message_id@ == b.message_id@
    &&& opt_string_eq(a.guild_id, b.guild_id)
    &&& emoji_eq(a.emoji, b.emoji)
}

/// Decodes a reaction-remove-emoji body.
pub fn decode_reaction_remove_emoji(d: &JsonValue) -> (r: Option<MessageReactionRemoveEmoji>)
    ensures
        r is Some <==> reaction_remove_emoji_ok(*d),
        r matches Some(x) ==> reaction_remove_emoji_matches(*d, x),
{
    let channel_id = match get_str(d, "channel_id") {
        Some(s) => s,
        None => {
            return None;
        },
    };
    let message_id = match get_str(d, "message_id") {
        Some(s) => s,
        None => {
            return None;
        },
    };
    let guild_id = match get_opt_str(d, "guild_id") {
        Some(o) => o,
        None => {
            return None;
        },
    };
    let emoji_val = match get_field(d, "emoji") {
        Some(e) => e,
        None => {
            return None;
        },
    };
    let emoji = match decode_emoji(emoji_val) {
        Some(e) => e,
        None => {
            return None;
        },
    };
    Some(MessageReactionRemoveEmoji { channel_id, message_id, guild_id, emoji })
}

// ---------------------------------------------------------------------------
// Presence, typing, voice
// ---------------------------------------------------------------------------

/// A user's presence changing.
#[derive(Debug, PartialEq)]
pub struct PresenceUpdate {
    pub user: User,
    pub status: String,
    pub guild_id: Option<String>,
}

pub open spec fn presence_update_ok(d: JsonValue) -> bool {
    &&& json_get(d, "user"@) matches Some(u) && user_ok(u)
    &&& json_str(d, "status"@) is Some
    &&& json_opt_str(d, "guild_id"@) is Some
}

pub open spec fn presence_update_matches(d: JsonValue, x: PresenceUpdate) -> bool {
    &&& json_get(d, "user"@) matches Some(u) && user_matches(u, x.user)
    &&& json_str(d, "status"@) == Some(x.status@)
    &&& opt_str_matches(json_opt_str(d, "guild_id"@), x.guild_id)
}

pub open spec fn presence_update_eq(a: PresenceUpdate, b: PresenceUpdate) -> bool {
    &&& user_eq(a.user, b.user)
    &&& a.status@ == b.status@
    &&& opt_string_eq(a.guild_id, b.guild_id)
}

/// Decodes a presence-update body.
pub fn decode_presence_update(d: &JsonValue) -> (r: Option<PresenceUpdate>)
    ensures
        r is Some <==> presence_update_ok(*d),
        r matches Some(x) ==> presence_update_matches(*d, x),
{
    let user_val = match get_field(d, "user") {
        Some(u) => u,
        None => {
            return None;
        },
    };
    let user = match decode_user(user_val) {
        Some(u) => u,
        None => {
            return None;
        },
    };
    let status = match get_str(d, "status") {
        Some(s) => s,
        None => {
            return None;
        },
    };
    let guild_id = match get_opt_str(d, "guild_id") {
        Some(o) => o,
        None => {
            return None;
        },
    };
    Some(PresenceUpdate { user, status, guild_id })
}

/// A user starting to type in a channel.
#[derive(Debug, PartialEq)]
pub struct TypingStart {
    pub channel_id: String,
    pub user_id: String,
    pub timestamp: u64,
    pub guild_id: Option<String>,
}

pub open spec fn typing_start_ok(d: JsonValue) -> bool {
    &&& json_str(d, "channel_id"@) is Some
    &&& json_str(d, "user_id"@) is Some
    &&& json_u64(d, "timestamp"@) is Some
    &&& json_opt_str(d, "guild_id"@) is Some
}

pub open spec fn typing_start_matches(d: JsonValue, x: TypingStart) -> bool {
    &&& json_str(d, "channel_id"@) == Some(x.channel_id@)
    &&& json_str(d, "user_id"@) == Some(x.user_id@)
    &&& json_u64(d, "timestamp"@) == Some(x.timestamp)
    &&& opt_str_matches(json_opt_str(d, "guild_id"@), x.guild_id)
}

pub open spec fn typing_start_eq(a: TypingStart, b: TypingStart) -> bool {
    &&& a.channel_id@ == b.channel_id@
    &&& a.user_id@ == b.user_id@
    &&& a.timestamp == b.timestamp
    &&& opt_string_eq(a.guild_id, b.guild_id)
}

/// Decodes a typing-start body.
pub fn decode_typing_start(d: &JsonValue) -> (r: Option<TypingStart>)
    ensures
        r is Some <==> typing_start_ok(*d),
        r matches Some(x) ==> typing_start_matches(*d, x),
{
    let channel_id = match get_str(d, "channel_id") {
        Some(s) => s,
        None => {
            return None;
        },
    };
    let user_id = match get_str(d, "user_id") {
        Some(s) => s,
        None => {
            return None;
        },
    };
    let timestamp = match get_u64(d, "timestamp") {
        Some(n) => n,
        None => {
            return None;
        },
    };
    let guild_id = match get_opt_str(d, "guild_id") {
        Some(o) => o,
        None => {
            return None;
        },
    };
    Some(TypingStart { channel_id, user_id, timestamp, guild_id })
}

/// A user's voice connection state changing.
#[derive(Debug, PartialEq)]
pub struct VoiceStateUpdate {
    pub guild_id: Option<String>,
    pub channel_id: Option<String>,
    pub user_id: String,
    pub session_id: String,
}

pub open spec fn voice_state_ok(d: JsonValue) -> bool {
    &&& json_opt_str(d, "guild_id"@) is Some
    &&& json_opt_str(d, "channel_id"@) is Some
    &&& json_str(d, "user_id"@) is Some
    &&& json_str(d, "session_id"@) is Some
}

pub open spec fn voice_state_matches(d: JsonValue, x: VoiceStateUpdate) -> bool {
    &&& opt_str_matches(json_opt_str(d, "guild_id"@), x.guild_id)
    &&& opt_str_matches(json_opt_str(d, "channel_id"@), x.channel_id)
    &&& json_str(d, "user_id"@) == Some(x.user_id@)
    &&& json_str(d, "session_id"@) == Some(x.session_id@)
}

pub open spec fn voice_state_eq(a: VoiceStateUpdate, b: VoiceStateUpdate) -> bool {
    &&& opt_string_eq(a.guild_id, b.guild_id)
    &&& opt_string_eq(a.channel_id, b.channel_id)
    &&& a.user_id@ == b.user_id@
    &&& a.session_id@ == b.session_id@
}

/// Decodes a voice-state-update body.
pub fn decode_voice_state(d: &JsonValue) -> (r: Option<VoiceStateUpdate>)
    ensures
        r is Some <==> voice_state_ok(*d),
        r matches Some(x) ==> voice_state_matches(*d, x),
{
    let guild_id = match get_opt_str(d, "guild_id") {
        Some(o) => o,
        None => {
            return None;
        },
    };
    let channel_id = match get_opt_str(d, "channel_id") {
        Some(o) => o,
        None => {
            return None;
        },
    };
    let user_id = match get_str(d, "user_id") {
        Some(s) => s,
        None => {
            return None;
        },
    };
    let session_id = match get_str(d, "session_id") {
        Some(s) => s,
        None => {
            return None;
        },
    };
    Some(VoiceStateUpdate { guild_id, channel_id, user_id, session_id })
}

/// The voice server of a guild moving.
#[derive(Debug, PartialEq)]
pub struct VoiceServerUpdate {
    pub token: String,
    pub guild_id: String,
    pub endpoint: Option<String>,
}

pub open spec fn voice_server_ok(d: JsonValue) -> bool {
    &&& json_str(d, "token"@) is Some
    &&& json_str(d, "guild_id"@) is Some
    &&& json_opt_str(d, "endpoint"@) is Some
}

pub open spec fn voice_server_matches(d: JsonValue, x: VoiceServerUpdate) -> bool {
    &&& json_str(d, "token"@) == Some(x.token@)
    &&& json_str(d, "guild_id"@) == Some(x.guild_id@)
    &&& opt_str_matches(json_opt_str(d, "endpoint"@), x.endpoint)
}

pub open spec fn voice_server_eq(a: VoiceServerUpdate, b: VoiceServerUpdate) -> bool {
    &&& a.token@ == b.token@
    &&& a.guild_id@ == b.guild_id@
    &&& opt_string_eq(a.endpoint, b.endpoint)
}

/// Decodes a voice-server-update body.
pub fn decode_voice_server(d: &JsonValue) -> (r: Option<VoiceServerUpdate>)
    ensures
        r is Some <==> voice_server_ok(*d),
        r matches Some(x) ==> voice_server_matches(*d, x),
{
    let token = match get_str(d, "token") {
        Some(s) => s,
        None => {
            return None;
        },
    };
    let guild_id = match get_str(d, "guild_id") {
        Some(s) => s,
        None => {
            return None;
        },
    };
    let endpoint = match get_opt_str(d, "endpoint") {
        Some(o) => o,
        None => {
            return None;
        },
    };
    Some(VoiceServerUpdate { token, guild_id, endpoint })
}

} // verus!
