//! Typed values carried inside message payloads.
//!
//! Each type has three spec-level companions: an `_ok` predicate saying when
//! an untyped tree decodes into it, a `_matches` relation pinning every field
//! of a decoded value to the tree, and an `_eq` relation saying that two
//! decoded values read the same.  The executable decoders are proved against
//! the first two; the third serves the determinism law.

use vstd::prelude::*;

use crate::json::{
    get_bool, get_field, get_opt_str, get_str, get_u64, json_arr, json_bool, json_get,
    json_opt_str, json_str, json_u64, JsonValue,
};

verus! {

/// The optional string field read as `o` stands for the decoded field `f`.
pub open spec fn opt_str_matches(o: Option<Option<Seq<char>>>, f: Option<String>) -> bool {
    match f {
        Some(s) => o == Some(Some(s@)),
        None => o == Some(None::<Seq<char>>),
    }
}

/// Two optional strings read the same.
pub open spec fn opt_string_eq(a: Option<String>, b: Option<String>) -> bool {
    match (a, b) {
        (Option::Some(x), Option::Some(y)) => x@ == y@,
        (Option::None, Option::None) => true,
        _ => false,
    }
}

/// Two string sequences read the same.
pub open spec fn strings_eq(a: Seq<String>, b: Seq<String>) -> bool {
    a.len() == b.len() && forall|i: int| 0 <= i < a.len() ==> a[i]@ == b[i]@
}

// ---------------------------------------------------------------------------
// User
// ---------------------------------------------------------------------------

/// A platform account, as carried inside payloads.
#[derive(Debug, PartialEq)]
pub struct User {
    pub id: String,
    pub username: String,
}

pub open spec fn user_ok(v: JsonValue) -> bool {
    &&& json_str(v, "id"@) is Some
    &&& json_str(v, "username"@) is Some
}

pub open spec fn user_matches(v: JsonValue, u: User) -> bool {
    &&& json_str(v, "id"@) == Some(u.id@)
    &&& json_str(v, "username"@) == Some(u.username@)
}

pub open spec fn user_eq(a: User, b: User) -> bool {
    a.id@ == b.id@ && a.username@ == b.username@
}

/// Decodes a user object: `id` and `username` are required strings.
pub fn decode_user(v: &JsonValue) -> (r: Option<User>)
    ensures
        r is Some <==> user_ok(*v),
        r matches Some(u) ==> user_matches(*v, u),
{
    let id = match get_str(v, "id") {
        Some(s) => s,
        None => {
            return None;
        },
    };
    let username = match get_str(v, "username") {
        Some(s) => s,
        None => {
            return None;
        },
    };
    Some(User { id, username })
}

pub open spec fn users_ok(a: Seq<JsonValue>) -> bool {
    forall|i: int| 0 <= i < a.len() ==> user_ok(a[i])
}

pub open spec fn users_match(a: Seq<JsonValue>, out: Seq<User>) -> bool {
    &&& out.len() == a.len()
    &&& forall|i: int| 0 <= i < a.len() ==> user_matches(a[i], out[i])
}

pub open spec fn users_eq(a: Seq<User>, b: Seq<User>) -> bool {
    a.len() == b.len() && forall|i: int| 0 <= i < a.len() ==> user_eq(a[i], b[i])
}

/// Decodes an array whose every element must be a user object.
#[verifier::loop_isolation(false)]
pub fn decode_users(a: &Vec<JsonValue>) -> (r: Option<Vec<User>>)
    ensures
        r is Some <==> users_ok(a@),
        r matches Some(out) ==> users_match(a@, out@),
{
    let mut out: Vec<User> = Vec::new();
    let n: usize = a.len();
    let mut i: usize = 0;
    while i < n
        invariant
            0 <= i <= n,
            out@.len() == i,
            forall|j: int| 0 <= j < i ==> user_ok(a@[j]),
            forall|j: int| 0 <= j < i ==> user_matches(a@[j], out@[j]),
        decreases n - i,
    {
        match decode_user(&a[i]) {
            Some(u) => {
                out.push(u);
            },
            None => {
                return None;
            },
        }
        i = i + 1;
    }
    Some(out)
}

// ---------------------------------------------------------------------------
// Strings
// ---------------------------------------------------------------------------

pub open spec fn strings_ok(a: Seq<JsonValue>) -> bool {
    forall|i: int| 0 <= i < a.len() ==> a[i] is Str
}

pub open spec fn strings_match(a: Seq<JsonValue>, out: Seq<String>) -> bool {
    &&& out.len() == a.len()
    &&& forall|i: int| 0 <= i < a.len() ==> ((#[trigger] a[i]) matches JsonValue::Str(s) && out[i]@ == s@)
}

/// Decodes an array whose every element must be a string.
#[verifier::loop_isolation(false)]
pub fn decode_strings(a: &Vec<JsonValue>) -> (r: Option<Vec<String>>)
    ensures
        r is Some <==> strings_ok(a@),
        r matches Some(out) ==> strings_match(a@, out@),
{
    let mut out: Vec<String> = Vec::new();
    let n: usize = a.len();
    let mut i: usize = 0;
    while i < n
        invariant
            0 <= i <= n,
            out@.len() == i,
            forall|j: int| 0 <= j < i ==> a@[j] is Str,
            forall|j: int| 0 <= j < i ==> ((#[trigger] a@[j]) matches JsonValue::Str(s) && out@[j]@
                == s@),
        decreases n - i,
    {
        match &a[i] {
            JsonValue::Str(s) => {
                out.push(s.clone());
            },
            _ => {
                return None;
            },
        }
        i = i + 1;
    }
    Some(out)
}

// ---------------------------------------------------------------------------
// Emoji
// ---------------------------------------------------------------------------

/// A reaction emoji: custom ones carry an identifier, built-in ones only a
/// name.
#[derive(Debug, PartialEq)]
pub struct Emoji {
    pub id: Option<String>,
    pub name: String,
}

pub open spec fn emoji_ok(v: JsonValue) -> bool {
    &&& json_opt_str(v, "id"@) is Some
    &&& json_str(v, "name"@) is Some
}

pub open spec fn emoji_matches(v: JsonValue, e: Emoji) -> bool {
    &&& opt_str_matches(json_opt_str(v, "id"@), e.id)
    &&& json_str(v, "name"@) == Some(e.name@)
}

pub open spec fn emoji_eq(a: Emoji, b: Emoji) -> bool {
    opt_string_eq(a.id, b.id) && a.name@ == b.name@
}

/// Decodes an emoji object: optional string `id`, required string `name`.
pub fn decode_emoji(v: &JsonValue) -> (r: Option<Emoji>)
    ensures
        r is Some <==> emoji_ok(*v),
        r matches Some(e) ==> emoji_matches(*v, e),
{
    let id = match get_opt_str(v, "id") {
        Some(o) => o,
        None => {
            return None;
        },
    };
    let name = match get_str(v, "name") {
        Some(s) => s,
        None => {
            return None;
        },
    };
    Some(Emoji { id, name })
}

pub open spec fn emojis_ok(a: Seq<JsonValue>) -> bool {
    forall|i: int| 0 <= i < a.len() ==> emoji_ok(a[i])
}

pub open spec fn emojis_match(a: Seq<JsonValue>, out: Seq<Emoji>) -> bool {
    &&& out.len() == a.len()
    &&& forall|i: int| 0 <= i < a.len() ==> emoji_matches(a[i], out[i])
}

pub open spec fn emojis_eq(a: Seq<Emoji>, b: Seq<Emoji>) -> bool {
    a.len() == b.len() && forall|i: int| 0 <= i < a.len() ==> emoji_eq(a[i], b[i])
}

/// Decodes an array whose every element must be an emoji object.
#[verifier::loop_isolation(false)]
pub fn decode_emojis(a: &Vec<JsonValue>) -> (r: Option<Vec<Emoji>>)
    ensures
        r is Some <==> emojis_ok(a@),
        r matches Some(out) ==> emojis_match(a@, out@),
{
    let mut out: Vec<Emoji> = Vec::new();
    let n: usize = a.len();
    let mut i: usize = 0;
    while i < n
        invariant
            0 <= i <= n,
            out@.len() == i,
            forall|j: int| 0 <= j < i ==> emoji_ok(a@[j]),
            forall|j: int| 0 <= j < i ==> emoji_matches(a@[j], out@[j]),
        decreases n - i,
    {
        match decode_emoji(&a[i]) {
            Some(e) => {
                out.push(e);
            },
            None => {
                return None;
            },
        }
        i = i + 1;
    }
    Some(out)
}

// ---------------------------------------------------------------------------
// GuildMember
// ---------------------------------------------------------------------------

/// Guild-specific metadata of a message's author.
#[derive(Debug, PartialEq)]
pub struct GuildMember {
    pub nick: Option<String>,
    pub roles: Vec<String>,
}

pub open spec fn member_ok(v: JsonValue) -> bool {
    &&& json_opt_str(v, "nick"@) is Some
    &&& json_arr(v, "roles"@) matches Some(a) && strings_ok(a)
}

pub open spec fn member_matches(v: JsonValue, m: GuildMember) -> bool {
    &&& opt_str_matches(json_opt_str(v, "nick"@), m.nick)
    &&& json_arr(v, "roles"@) matches Some(a) && strings_match(a, m.roles@)
}

pub open spec fn member_eq(a: GuildMember, b: GuildMember) -> bool {
    opt_string_eq(a.nick, b.nick) && strings_eq(a.roles@, b.roles@)
}

/// Decodes a guild-member object: optional string `nick`, required string
/// array `roles`.
pub fn decode_member(v: &JsonValue) -> (r: Option<GuildMember>)
    ensures
        r is Some <==> member_ok(*v),
        r matches Some(m) ==> member_matches(*v, m),
{
    let nick = match get_opt_str(v, "nick") {
        Some(o) => o,
        None => {
            return None;
        },
    };
    let roles_arr = match crate::json::get_arr(v, "roles") {
        Some(a) => a,
        None => {
            return None;
        },
    };
    let roles = match decode_strings(roles_arr) {
        Some(rs) => rs,
        None => {
            return None;
        },
    };
    Some(GuildMember { nick, roles })
}

// ---------------------------------------------------------------------------
// MentionChannel
// ---------------------------------------------------------------------------

/// A channel referred to from a message's text.
#[derive(Debug, PartialEq)]
pub struct MentionChannel {
    pub id: String,
    pub name: String,
}

pub open spec fn mention_channel_ok(v: JsonValue) -> bool {
    &&& json_str(v, "id"@) is Some
    &&& json_str(v, "name"@) is Some
}

pub open spec fn mention_channel_matches(v: JsonValue, c: MentionChannel) -> bool {
    &&& json_str(v, "id"@) == Some(c.id@)
    &&& json_str(v, "name"@) == Some(c.name@)
}

pub open spec fn mention_channel_eq(a: MentionChannel, b: MentionChannel) -> bool {
    a.id@ == b.id@ && a.name@ == b.name@
}

/// Decodes a mentioned-channel object: `id` and `name` are required strings.
pub fn decode_mention_channel(v: &JsonValue) -> (r: Option<MentionChannel>)
    ensures
        r is Some <==> mention_channel_ok(*v),
        r matches Some(c) ==> mention_channel_matches(*v, c),
{
    let id = match get_str(v, "id") {
        Some(s) => s,
        None => {
            return None;
        },
    };
    let name = match get_str(v, "name") {
        Some(s) => s,
        None => {
            return None;
        },
    };
    Some(MentionChannel { id, name })
}

pub open spec fn mention_channels_ok(a: Seq<JsonValue>) -> bool {
    forall|i: int| 0 <= i < a.len() ==> mention_channel_ok(a[i])
}

pub open spec fn mention_channels_match(a: Seq<JsonValue>, out: Seq<MentionChannel>) -> bool {
    &&& out.len() == a.len()
    &&& forall|i: int| 0 <= i < a.len() ==> mention_channel_matches(a[i], out[i])
}

pub open spec fn mention_channels_eq(a: Seq<MentionChannel>, b: Seq<MentionChannel>) -> bool {
    a.len() == b.len() && forall|i: int| 0 <= i < a.len() ==> mention_channel_eq(a[i], b[i])
}

/// Decodes an array whose every element must be a mentioned-channel object.
#[verifier::loop_isolation(false)]
pub fn decode_mention_channels(a: &Vec<JsonValue>) -> (r: Option<Vec<MentionChannel>>)
    ensures
        r is Some <==> mention_channels_ok(a@),
        r matches Some(out) ==> mention_channels_match(a@, out@),
{
    let mut out: Vec<MentionChannel> = Vec::new();
    let n: usize = a.len();
    let mut i: usize = 0;
    while i < n
        invariant
            0 <= i <= n,
            out@.len() == i,
            forall|j: int| 0 <= j < i ==> mention_channel_ok(a@[j]),
            forall|j: int| 0 <= j < i ==> mention_channel_matches(a@[j], out@[j]),
        decreases n - i,
    {
        match decode_mention_channel(&a[i]) {
            Some(c) => {
                out.push(c);
            },
            None => {
                return None;
            },
        }
        i = i + 1;
    }
    Some(out)
}

// ---------------------------------------------------------------------------
// Attachment
// ---------------------------------------------------------------------------

/// A file attached to a message.
#[derive(Debug, PartialEq)]
pub struct Attachment {
    pub id: String,
    pub filename: String,
    pub size: u64,
}

pub open spec fn attachment_ok(v: JsonValue) -> bool {
    &&& json_str(v, "id"@) is Some
    &&& json_str(v, "filename"@) is Some
    &&& json_u64(v, "size"@) is Some
}

pub open spec fn attachment_matches(v: JsonValue, a: Attachment) -> bool {
    &&& json_str(v, "id"@) == Some(a.id@)
    &&& json_str(v, "filename"@) == Some(a.filename@)
    &&& json_u64(v, "size"@) == Some(a.size)
}

pub open spec fn attachment_eq(a: Attachment, b: Attachment) -> bool {
    a.id@ == b.id@ && a.filename@ == b.filename@ && a.size == b.size
}

/// Decodes an attachment object: string `id` and `filename`, integer `size`.
pub fn decode_attachment(v: &JsonValue) -> (r: Option<Attachment>)
    ensures
        r is Some <==> attachment_ok(*v),
        r matches Some(a) ==> attachment_matches(*v, a),
{
    let id = match get_str(v, "id") {
        Some(s) => s,
        None => {
            return None;
        },
    };
    let filename = match get_str(v, "filename") {
        Some(s) => s,
        None => {
            return None;
        },
    };
    let size = match get_u64(v, "size") {
        Some(n) => n,
        None => {
            return None;
        },
    };
    Some(Attachment { id, filename, size })
}

pub open spec fn attachments_ok(a: Seq<JsonValue>) -> bool {
    forall|i: int| 0 <= i < a.len() ==> attachment_ok(a[i])
}

pub open spec fn attachments_match(a: Seq<JsonValue>, out: Seq<Attachment>) -> bool {
    &&& out.len() == a.len()
    &&& forall|i: int| 0 <= i < a.len() ==> attachment_matches(a[i], out[i])
}

pub open spec fn attachments_eq(a: Seq<Attachment>, b: Seq<Attachment>) -> bool {
    a.len() == b.len() && forall|i: int| 0 <= i < a.len() ==> attachment_eq(a[i], b[i])
}

/// Decodes an array whose every element must be an attachment object.
#[verifier::loop_isolation(false)]
pub fn decode_attachments(a: &Vec<JsonValue>) -> (r: Option<Vec<Attachment>>)
    ensures
        r is Some <==> attachments_ok(a@),
        r matches Some(out) ==> attachments_match(a@, out@),
{
    let mut out: Vec<Attachment> = Vec::new();
    let n: usize = a.len();
    let mut i: usize = 0;
    while i < n
        invariant
            0 <= i <= n,
            out@.len() == i,
            forall|j: int| 0 <= j < i ==> attachment_ok(a@[j]),
            forall|j: int| 0 <= j < i ==> attachment_matches(a@[j], out@[j]),
        decreases n - i,
    {
        match decode_attachment(&a[i]) {
            Some(x) => {
                out.push(x);
            },
            None => {
                return None;
            },
        }
        i = i + 1;
    }
    Some(out)
}

// ---------------------------------------------------------------------------
// Embed
// ---------------------------------------------------------------------------

/// Embedded rich content of a message.
#[derive(Debug, PartialEq)]
pub struct Embed {
    pub title: Option<String>,
    pub description: Option<String>,
    pub url: Option<String>,
}

pub open spec fn embed_ok(v: JsonValue) -> bool {
    &&& json_opt_str(v, "title"@) is Some
    &&& json_opt_str(v, "description"@) is Some
    &&& json_opt_str(v, "url"@) is Some
}

pub open spec fn embed_matches(v: JsonValue, e: Embed) -> bool {
    &&& opt_str_matches(json_opt_str(v, "title"@), e.title)
    &&& opt_str_matches(json_opt_str(v, "description"@), e.description)
    &&& opt_str_matches(json_opt_str(v, "url"@), e.url)
}

pub open spec fn embed_eq(a: Embed, b: Embed) -> bool {
    &&& opt_string_eq(a.title, b.title)
    &&& opt_string_eq(a.description, b.description)
    &&& opt_string_eq(a.url, b.url)
}

/// Decodes an embed object: `title`, `description` and `url` are optional
/// strings.
pub fn decode_embed(v: &JsonValue) -> (r: Option<Embed>)
    ensures
        r is Some <==> embed_ok(*v),
        r matches Some(e) ==> embed_matches(*v, e),
{
    let title = match get_opt_str(v, "title") {
        Some(o) => o,
        None => {
            return None;
        },
    };
    let description = match get_opt_str(v, "description") {
        Some(o) => o,
        None => {
            return None;
        },
    };
    let url = match get_opt_str(v, "url") {
        Some(o) => o,
        None => {
            return None;
        },
    };
    Some(Embed { title, description, url })
}

pub open spec fn embeds_ok(a: Seq<JsonValue>) -> bool {
    forall|i: int| 0 <= i < a.len() ==> embed_ok(a[i])
}

pub open spec fn embeds_match(a: Seq<JsonValue>, out: Seq<Embed>) -> bool {
    &&& out.len() == a.len()
    &&& forall|i: int| 0 <= i < a.len() ==> embed_matches(a[i], out[i])
}

pub open spec fn embeds_eq(a: Seq<Embed>, b: Seq<Embed>) -> bool {
    a.len() == b.len() && forall|i: int| 0 <= i < a.len() ==> embed_eq(a[i], b[i])
}

/// Decodes an array whose every element must be an embed object.
#[verifier::loop_isolation(false)]
pub fn decode_embeds(a: &Vec<JsonValue>) -> (r: Option<Vec<Embed>>)
    ensures
        r is Some <==> embeds_ok(a@),
        r matches Some(out) ==> embeds_match(a@, out@),
{
    let mut out: Vec<Embed> = Vec::new();
    let n: usize = a.len();
    let mut i: usize = 0;
    while i < n
        invariant
            0 <= i <= n,
            out@.len() == i,
            forall|j: int| 0 <= j < i ==> embed_ok(a@[j]),
            forall|j: int| 0 <= j < i ==> embed_matches(a@[j], out@[j]),
        decreases n - i,
    {
        match decode_embed(&a[i]) {
            Some(e) => {
                out.push(e);
            },
            None => {
                return None;
            },
        }
        i = i + 1;
    }
    Some(out)
}

// ---------------------------------------------------------------------------
// Reaction
// ---------------------------------------------------------------------------

/// A reaction tally on a message.
#[derive(Debug, PartialEq)]
pub struct Reaction {
    pub count: u64,
    pub me: bool,
    pub emoji: Emoji,
}

pub open spec fn reaction_ok(v: JsonValue) -> bool {
    &&& json_u64(v, "count"@) is Some
    &&& json_bool(v, "me"@) is Some
    &&& json_get(v, "emoji"@) matches Some(e) && emoji_ok(e)
}

pub open spec fn reaction_matches(v: JsonValue, r: Reaction) -> bool {
    &&& json_u64(v, "count"@) == Some(r.count)
    &&& json_bool(v, "me"@) == Some(r.me)
    &&& json_get(v, "emoji"@) matches Some(e) && emoji_matches(e, r.emoji)
}

pub open spec fn reaction_eq(a: Reaction, b: Reaction) -> bool {
    a.count == b.count && a.me == b.me && emoji_eq(a.emoji, b.emoji)
}

/// Decodes a reaction object: integer `count`, boolean `me`, and an embedded
/// emoji object.
pub fn decode_reaction(v: &JsonValue) -> (r: Option<Reaction>)
    ensures
        r is Some <==> reaction_ok(*v),
        r matches Some(x) ==> reaction_matches(*v, x),
{
    let count = match get_u64(v, "count") {
        Some(n) => n,
        None => {
            return None;
        },
    };
    let me = match get_bool(v, "me") {
        Some(b) => b,
        None => {
            return None;
        },
    };
    let emoji_val = match get_field(v, "emoji") {
        Some(e) => e,
        None => {
            return None;
        },
    };
    let emoji = match decode_emoji(emoji_val) {
        Some(e) => e,
        None => {
            return None;
        },
    };
    Some(Reaction { count, me, emoji })
}

pub open spec fn reactions_ok(a: Seq<JsonValue>) -> bool {
    forall|i: int| 0 <= i < a.len() ==> reaction_ok(a[i])
}

pub open spec fn reactions_match(a: Seq<JsonValue>, out: Seq<Reaction>) -> bool {
    &&& out.len() == a.len()
    &&& forall|i: int| 0 <= i < a.len() ==> reaction_matches(a[i], out[i])
}

pub open spec fn reactions_eq(a: Seq<Reaction>, b: Seq<Reaction>) -> bool {
    a.len() == b.len() && forall|i: int| 0 <= i < a.len() ==> reaction_eq(a[i], b[i])
}

/// Decodes an array whose every element must be a reaction object.
#[verifier::loop_isolation(false)]
pub fn decode_reactions(a: &Vec<JsonValue>) -> (r: Option<Vec<Reaction>>)
    ensures
        r is Some <==> reactions_ok(a@),
        r matches Some(out) ==> reactions_match(a@, out@),
{
    let mut out: Vec<Reaction> = Vec::new();
    let n: usize = a.len();
    let mut i: usize = 0;
    while i < n
        invariant
            0 <= i <= n,
            out@.len() == i,
            forall|j: int| 0 <= j < i ==> reaction_ok(a@[j]),
            forall|j: int| 0 <= j < i ==> reaction_matches(a@[j], out@[j]),
        decreases n - i,
    {
        match decode_reaction(&a[i]) {
            Some(x) => {
                out.push(x);
            },
            None => {
                return None;
            },
        }
        i = i + 1;
    }
    Some(out)
}

// ---------------------------------------------------------------------------
// MessageApplication
// ---------------------------------------------------------------------------

/// Rich-presence metadata attached to a message.
#[derive(Debug, PartialEq)]
pub struct MessageApplication {
    pub id: String,
    pub name: String,
}

pub open spec fn application_ok(v: JsonValue) -> bool {
    &&& json_str(v, "id"@) is Some
    &&& json_str(v, "name"@) is Some
}

pub open spec fn application_matches(v: JsonValue, a: MessageApplication) -> bool {
    &&& json_str(v, "id"@) == Some(a.id@)
    &&& json_str(v, "name"@) == Some(a.name@)
}

pub open spec fn application_eq(a: MessageApplication, b: MessageApplication) -> bool {
    a.id@ == b.id@ && a.name@ == b.name@
}

/// Decodes a rich-presence application object: `id` and `name` are required
/// strings.
pub fn decode_application(v: &JsonValue) -> (r: Option<MessageApplication>)
    ensures
        r is Some <==> application_ok(*v),
        r matches Some(a) ==> application_matches(*v, a),
{
    let id = match get_str(v, "id") {
        Some(s) => s,
        None => {
            return None;
        },
    };
    let name = match get_str(v, "name") {
        Some(s) => s,
        None => {
            return None;
        },
    };
    Some(MessageApplication { id, name })
}

// ---------------------------------------------------------------------------
// MessageReference
// ---------------------------------------------------------------------------

/// Cross-post linkage sent with a message.
#[derive(Debug, PartialEq)]
pub struct MessageReference {
    pub message_id: Option<String>,
    pub channel_id: Option<String>,
    pub guild_id: Option<String>,
}

pub open spec fn reference_ok(v: JsonValue) -> bool {
    &&& json_opt_str(v, "message_id"@) is Some
    &&& json_opt_str(v, "channel_id"@) is Some
    &&& json_opt_str(v, "guild_id"@) is Some
}

pub open spec fn reference_matches(v: JsonValue, r: MessageReference) -> bool {
    &&& opt_str_matches(json_opt_str(v, "message_id"@), r.message_id)
    &&& opt_str_matches(json_opt_str(v, "channel_id"@), r.channel_id)
    &&& opt_str_matches(json_opt_str(v, "guild_id"@), r.guild_id)
}

pub open spec fn reference_eq(a: MessageReference, b: MessageReference) -> bool {
    &&& opt_string_eq(a.message_id, b.message_id)
    &&& opt_string_eq(a.channel_id, b.channel_id)
    &&& opt_string_eq(a.guild_id, b.guild_id)
}

/// Decodes a message-reference object: all three identifiers are optional
/// strings.
pub fn decode_reference(v: &JsonValue) -> (r: Option<MessageReference>)
    ensures
        r is Some <==> reference_ok(*v),
        r matches Some(x) ==> reference_matches(*v, x),
{
    let message_id = match get_opt_str(v, "message_id") {
        Some(o) => o,
        None => {
            return None;
        },
    };
    let channel_id = match get_opt_str(v, "channel_id") {
        Some(o) => o,
        None => {
            return None;
        },
    };
    let guild_id = match get_opt_str(v, "guild_id") {
        Some(o) => o,
        None => {
            return None;
        },
    };
    Some(MessageReference { message_id, channel_id, guild_id })
}

} // verus!
