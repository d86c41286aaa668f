//! The platform's primary content unit and the actions taken on it.

use vstd::prelude::*;

use crate::entities::{
    application_matches, application_ok, attachments_match, attachments_ok, decode_application,
    decode_attachments, decode_embeds, decode_member, decode_mention_channels, decode_reactions,
    decode_reference, decode_strings, decode_user, decode_users, embeds_match, embeds_ok,
    embed_eq, attachments_eq, embeds_eq, mention_channels_eq, reactions_eq, strings_eq, users_eq,
    member_eq, application_eq, reference_eq, opt_string_eq, user_eq,
    member_matches, member_ok, mention_channels_match, mention_channels_ok, opt_str_matches,
    reactions_match, reactions_ok, reference_matches, reference_ok, strings_match, strings_ok,
    user_matches, user_ok, users_match, users_ok, Attachment, Embed, GuildMember,
    MentionChannel, MessageApplication, MessageReference, Reaction, User,
};
use crate::json::{
    get_arr, get_bool, get_field, get_opt_str, get_opt_u64, get_str, json_arr, json_bool,
    json_get, json_opt_str, json_opt_u64, json_str, JsonValue,
};

verus! {

/// Category of a message, as the protocol's small closed enumeration.
#[derive(Debug, Clone, Copy, PartialEq, Eq, Structural)]
pub enum MessageKind {
    Regular,
    RecipientAdd,
    RecipientRemove,
    Call,
    ChannelNameChange,
    ChannelIconChange,
    ChannelPinnedMessage,
    GuildMemberJoin,
    UserPremiumGuildSub,
    UserPremiumGuildSubT1,
    UserPremiumGuildSubT2,
    UserPremiumGuildSubT3,
    ChannelFollowAdd,
    GuildDiscoveryDisqualified,
    GuildDiscoveryRequalified,
}

/// Wire code of each message category.
pub open spec fn message_kind_code(k: MessageKind) -> u64 {
    match k {
        MessageKind::Regular => 0,
        MessageKind::RecipientAdd => 1,
        MessageKind::RecipientRemove => 2,
        MessageKind::Call => 3,
        MessageKind::ChannelNameChange => 4,
        MessageKind::ChannelIconChange => 5,
        MessageKind::ChannelPinnedMessage => 6,
        MessageKind::GuildMemberJoin => 7,
        MessageKind::UserPremiumGuildSub => 8,
        MessageKind::UserPremiumGuildSubT1 => 9,
        MessageKind::UserPremiumGuildSubT2 => 10,
        MessageKind::UserPremiumGuildSubT3 => 11,
        MessageKind::ChannelFollowAdd => 12,
        MessageKind::GuildDiscoveryDisqualified => 14,
        MessageKind::GuildDiscoveryRequalified => 15,
    }
}

/// The message category a wire code stands for, if any.
pub open spec fn message_kind_of(n: u64) -> Option<MessageKind> {
    if n == 0 {
        Some(MessageKind::Regular)
    } else if n == 1 {
        Some(MessageKind::RecipientAdd)
    } else if n == 2 {
        Some(MessageKind::RecipientRemove)
    } else if n == 3 {
        Some(MessageKind::Call)
    } else if n == 4 {
        Some(MessageKind::ChannelNameChange)
    } else if n == 5 {
        Some(MessageKind::ChannelIconChange)
    } else if n == 6 {
        Some(MessageKind::ChannelPinnedMessage)
    } else if n == 7 {
        Some(MessageKind::GuildMemberJoin)
    } else if n == 8 {
        Some(MessageKind::UserPremiumGuildSub)
    } else if n == 9 {
        Some(MessageKind::UserPremiumGuildSubT1)
    } else if n == 10 {
        Some(MessageKind::UserPremiumGuildSubT2)
    } else if n == 11 {
        Some(MessageKind::UserPremiumGuildSubT3)
    } else if n == 12 {
        Some(MessageKind::ChannelFollowAdd)
    } else if n == 14 {
        Some(MessageKind::GuildDiscoveryDisqualified)
    } else if n == 15 {
        Some(MessageKind::GuildDiscoveryRequalified)
    } else {
        None
    }
}

impl MessageKind {
    /// Reads a wire code back into a category; codes outside the closed set
    /// (including the unassigned 13) are rejected.
    pub fn from_u64(n: u64) -> (r: Option<MessageKind>)
        ensures
            r == message_kind_of(n),
            r matches Some(k) ==> message_kind_code(k) == n,
    {
        if n == 0 {
            Some(MessageKind::Regular)
        } else if n == 1 {
            Some(MessageKind::RecipientAdd)
        } else if n == 2 {
            Some(MessageKind::RecipientRemove)
        } else if n == 3 {
            Some(MessageKind::Call)
        } else if n == 4 {
            Some(MessageKind::ChannelNameChange)
        } else if n == 5 {
            Some(MessageKind::ChannelIconChange)
        } else if n == 6 {
            Some(MessageKind::ChannelPinnedMessage)
        } else if n == 7 {
            Some(MessageKind::GuildMemberJoin)
        } else if n == 8 {
            Some(MessageKind::UserPremiumGuildSub)
        } else if n == 9 {
            Some(MessageKind::UserPremiumGuildSubT1)
        } else if n == 10 {
            Some(MessageKind::UserPremiumGuildSubT2)
        } else if n == 11 {
            Some(MessageKind::UserPremiumGuildSubT3)
        } else if n == 12 {
            Some(MessageKind::ChannelFollowAdd)
        } else if n == 14 {
            Some(MessageKind::GuildDiscoveryDisqualified)
        } else if n == 15 {
            Some(MessageKind::GuildDiscoveryRequalified)
        } else {
            None
        }
    }
}

/// A message sent in a channel, immutable once decoded.
#[derive(Debug, PartialEq)]
pub struct Message {
    /// Identifier of the message.
    pub id: String,
    /// Identifier of the channel the message was sent in.
    pub channel_id: String,
    /// Identifier of the guild the message was sent in, when it was.
    pub guild_id: Option<String>,
    /// Author of the message, owned by copy.
    pub author: User,
    /// Guild-specific author metadata, when sent in a guild.
    pub member: Option<GuildMember>,
    /// Text contents.
    pub content: String,
    /// When the message was sent, as a string-encoded instant.
    pub timestamp: String,
    /// When the message was last edited, if ever.
    pub edited_timestamp: Option<String>,
    /// Whether this was a text-to-speech message.
    pub tts: bool,
    /// Whether the message mentions everyone.
    pub mention_everyone: bool,
    /// Users specifically mentioned.
    pub mentions: Vec<User>,
    /// Roles specifically mentioned.
    pub mention_roles: Vec<String>,
    /// Channels specifically mentioned; empty when the body omits them.
    pub mentions_channels: Vec<MentionChannel>,
    /// Attached files.
    pub attachments: Vec<Attachment>,
    /// Embedded content; empty when the body omits it.
    pub embed: Vec<Embed>,
    /// Reaction tallies; empty when the body omits them.
    pub reactions: Vec<Reaction>,
    /// Sender-chosen token validating that the message was sent.
    pub nonce: Option<String>,
    /// Whether the message is pinned.
    pub pinned: bool,
    /// Identifier of the generating webhook, when there is one.
    pub webhook_id: Option<String>,
    /// Category of the message.
    pub kind: Option<MessageKind>,
    /// Rich-presence metadata, when sent with an embed of that kind.
    pub application: Option<MessageApplication>,
    /// Cross-post linkage, when the message was crossposted.
    pub message_reference: Option<MessageReference>,
    /// Extra feature bits, combined by or.
    pub flags: Option<u64>,
}

/// When an untyped tree decodes into a [`Message`].
pub open spec fn message_ok(v: JsonValue) -> bool {
    &&& json_str(v, "id"@) is Some
    &&& json_str(v, "channel_id"@) is Some
    &&& json_opt_str(v, "guild_id"@) is Some
    &&& json_get(v, "author"@) matches Some(a) && user_ok(a)
    &&& match json_get(v, "member"@) {
        Option::None => true,
        Option::Some(JsonValue::Null) => true,
        Option::Some(j) => member_ok(j),
    }
    &&& json_str(v, "content"@) is Some
    &&& json_str(v, "timestamp"@) is Some
    &&& json_opt_str(v, "edited_timestamp"@) is Some
    &&& json_bool(v, "tts"@) is Some
    &&& json_bool(v, "mention_everyone"@) is Some
    &&& json_arr(v, "mentions"@) matches Some(a) && users_ok(a)
    &&& json_arr(v, "mention_roles"@) matches Some(a) && strings_ok(a)
    &&& match json_get(v, "mentions_channels"@) {
        Option::None => true,
        Option::Some(JsonValue::Arr(a)) => mention_channels_ok(a@),
        Option::Some(_) => false,
    }
    &&& json_arr(v, "attachments"@) matches Some(a) && attachments_ok(a)
    &&& match json_get(v, "embed"@) {
        Option::None => true,
        Option::Some(JsonValue::Arr(a)) => embeds_ok(a@),
        Option::Some(_) => false,
    }
    &&& match json_get(v, "reactions"@) {
        Option::None => true,
        Option::Some(JsonValue::Arr(a)) => reactions_ok(a@),
        Option::Some(_) => false,
    }
    &&& json_opt_str(v, "nonce"@) is Some
    &&& json_bool(v, "pinned"@) is Some
    &&& json_opt_str(v, "webhook_id"@) is Some
    &&& json_opt_u64(v, "type"@) matches Some(o) && (o matches Some(n) ==> message_kind_of(n)
        is Some)
    &&& match json_get(v, "application"@) {
        Option::None => true,
        Option::Some(JsonValue::Null) => true,
        Option::Some(j) => application_ok(j),
    }
    &&& match json_get(v, "message_reference"@) {
        Option::None => true,
        Option::Some(JsonValue::Null) => true,
        Option::Some(j) => reference_ok(j),
    }
    &&& json_opt_u64(v, "flags"@) is Some
}

/// Every field of a decoded [`Message`] pinned to the tree it came from.
pub open spec fn message_matches(v: JsonValue, m: Message) -> bool {
    &&& json_str(v, "id"@) == Some(m.id@)
    &&& json_str(v, "channel_id"@) == Some(m.channel_id@)
    &&& opt_str_matches(json_opt_str(v, "guild_id"@), m.guild_id)
    &&& json_get(v, "author"@) matches Some(a) && user_matches(a, m.author)
    &&& match json_get(v, "member"@) {
        Option::None => m.member is None,
        Option::Some(JsonValue::Null) => m.member is None,
        Option::Some(j) => m.member matches Some(g) && member_matches(j, g),
    }
    &&& json_str(v, "content"@) == Some(m.content@)
    &&& json_str(v, "timestamp"@) == Some(m.timestamp@)
    &&& opt_str_matches(json_opt_str(v, "edited_timestamp"@), m.edited_timestamp)
    &&& json_bool(v, "tts"@) == Some(m.tts)
    &&& json_bool(v, "mention_everyone"@) == Some(m.mention_everyone)
    &&& json_arr(v, "mentions"@) matches Some(a) && users_match(a, m.mentions@)
    &&& json_arr(v, "mention_roles"@) matches Some(a) && strings_match(a, m.mention_roles@)
    &&& match json_get(v, "mentions_channels"@) {
        Option::None => m.mentions_channels@.len() == 0,
        Option::Some(JsonValue::Arr(a)) => mention_channels_match(a@, m.mentions_channels@),
        Option::Some(_) => false,
    }
    &&& json_arr(v, "attachments"@) matches Some(a) && attachments_match(a, m.attachments@)
    &&& match json_get(v, "embed"@) {
        Option::None => m.embed@.len() == 0,
        Option::Some(JsonValue::Arr(a)) => embeds_match(a@, m.embed@),
        Option::Some(_) => false,
    }
    &&& match json_get(v, "reactions"@) {
        Option::None => m.reactions@.len() == 0,
        Option::Some(JsonValue::Arr(a)) => reactions_match(a@, m.reactions@),
        Option::Some(_) => false,
    }
    &&& opt_str_matches(json_opt_str(v, "nonce"@), m.nonce)
    &&& json_bool(v, "pinned"@) == Some(m.pinned)
    &&& opt_str_matches(json_opt_str(v, "webhook_id"@), m.webhook_id)
    &&& match m.kind {
        Option::Some(k) => json_opt_u64(v, "type"@) == Some(Some(message_kind_code(k))),
        Option::None => json_opt_u64(v, "type"@) == Some(None::<u64>),
    }
    &&& match json_get(v, "application"@) {
        Option::None => m.application is None,
        Option::Some(JsonValue::Null) => m.application is None,
        Option::Some(j) => m.application matches Some(a) && application_matches(j, a),
    }
    &&& match json_get(v, "message_reference"@) {
        Option::None => m.message_reference is None,
        Option::Some(JsonValue::Null) => m.message_reference is None,
        Option::Some(j) => m.message_reference matches Some(r) && reference_matches(j, r),
    }
    &&& json_opt_u64(v, "flags"@) == Some(m.flags)
}

/// Two messages read the same, field for field.
pub open spec fn message_eq(a: Message, b: Message) -> bool {
    &&& a.id@ == b.id@
    &&& a.channel_id@ == b.channel_id@
    &&& opt_string_eq(a.guild_id, b.guild_id)
    &&& user_eq(a.author, b.author)
    &&& match (a.member, b.member) {
        (Option::Some(x), Option::Some(y)) => member_eq(x, y),
        (Option::None, Option::None) => true,
        _ => false,
    }
    &&& a.content@ == b.content@
    &&& a.timestamp@ == b.timestamp@
    &&& opt_string_eq(a.edited_timestamp, b.edited_timestamp)
    &&& a.tts == b.tts
    &&& a.mention_everyone == b.mention_everyone
    &&& users_eq(a.mentions@, b.mentions@)
    &&& strings_eq(a.mention_roles@, b.mention_roles@)
    &&& mention_channels_eq(a.mentions_channels@, b.mentions_channels@)
    &&& attachments_eq(a.attachments@, b.attachments@)
    &&& embeds_eq(a.embed@, b.embed@)
    &&& reactions_eq(a.reactions@, b.reactions@)
    &&& opt_string_eq(a.nonce, b.nonce)
    &&& a.pinned == b.pinned
    &&& opt_string_eq(a.webhook_id, b.webhook_id)
    &&& a.kind == b.kind
    &&& match (a.application, b.application) {
        (Option::Some(x), Option::Some(y)) => application_eq(x, y),
        (Option::None, Option::None) => true,
        _ => false,
    }
    &&& match (a.message_reference, b.message_reference) {
        (Option::Some(x), Option::Some(y)) => reference_eq(x, y),
        (Option::None, Option::None) => true,
        _ => false,
    }
    &&& a.flags == b.flags
}

/// Decodes a message body.
///
/// Fields the protocol documents as always present (`id`, `channel_id`,
/// `author`, `content`, `timestamp`, `tts`, `mention_everyone`, `mentions`,
/// `mention_roles`, `attachments`, `pinned`) are required; `mentions_channels`,
/// `embed` and `reactions` default to empty when absent; everything else is
/// optional and never replaced by a sentinel.
pub fn decode_message(v: &JsonValue) -> (r: Option<Message>)
    ensures
        r is Some <==> message_ok(*v),
        r matches Some(m) ==> message_matches(*v, m),
{
    let id = match get_str(v, "id") {
        Some(s) => s,
        None => {
            return None;
        },
    };
    let channel_id = match get_str(v, "channel_id") {
        Some(s) => s,
        None => {
            return None;
        },
    };
    let guild_id = match get_opt_str(v, "guild_id") {
        Some(o) => o,
        None => {
            return None;
        },
    };
    let author_val = match get_field(v, "author") {
        Some(a) => a,
        None => {
            return None;
        },
    };
    let author = match decode_user(author_val) {
        Some(u) => u,
        None => {
            return None;
        },
    };
    let member = match get_field(v, "member") {
        Option::None => None,
        Option::Some(JsonValue::Null) => None,
        Option::Some(j) => match decode_member(j) {
            Some(g) => Some(g),
            None => {
                return None;
            },
        },
    };
    let content = match get_str(v, "content") {
        Some(s) => s,
        None => {
            return None;
        },
    };
    let timestamp = match get_str(v, "timestamp") {
        Some(s) => s,
        None => {
            return None;
        },
    };
    let edited_timestamp = match get_opt_str(v, "edited_timestamp") {
        Some(o) => o,
        None => {
            return None;
        },
    };
    let tts = match get_bool(v, "tts") {
        Some(b) => b,
        None => {
            return None;
        },
    };
    let mention_everyone = match get_bool(v, "mention_everyone") {
        Some(b) => b,
        None => {
            return None;
        },
    };
    let mentions = match get_arr(v, "mentions") {
        Some(a) => match decode_users(a) {
            Some(us) => us,
            None => {
                return None;
            },
        },
        None => {
            return None;
        },
    };
    let mention_roles = match get_arr(v, "mention_roles") {
        Some(a) => match decode_strings(a) {
            Some(rs) => rs,
            None => {
                return None;
            },
        },
        None => {
            return None;
        },
    };
    let mentions_channels = match get_field(v, "mentions_channels") {
        Option::None => Vec::new(),
        Option::Some(JsonValue::Arr(a)) => match decode_mention_channels(a) {
            Some(cs) => cs,
            None => {
                return None;
            },
        },
        Option::Some(_) => {
            return None;
        },
    };
    let attachments = match get_arr(v, "attachments") {
        Some(a) => match decode_attachments(a) {
            Some(xs) => xs,
            None => {
                return None;
            },
        },
        None => {
            return None;
        },
    };
    let embed = match get_field(v, "embed") {
        Option::None => Vec::new(),
        Option::Some(JsonValue::Arr(a)) => match decode_embeds(a) {
            Some(es) => es,
            None => {
                return None;
            },
        },
        Option::Some(_) => {
            return None;
        },
    };
    let reactions = match get_field(v, "reactions") {
        Option::None => Vec::new(),
        Option::Some(JsonValue::Arr(a)) => match decode_reactions(a) {
            Some(xs) => xs,
            None => {
                return None;
            },
        },
        Option::Some(_) => {
            return None;
        },
    };
    let nonce = match get_opt_str(v, "nonce") {
        Some(o) => o,
        None => {
            return None;
        },
    };
    let pinned = match get_bool(v, "pinned") {
        Some(b) => b,
        None => {
            return None;
        },
    };
    let webhook_id = match get_opt_str(v, "webhook_id") {
        Some(o) => o,
        None => {
            return None;
        },
    };
    let kind = match get_opt_u64(v, "type") {
        Some(Option::Some(n)) => match MessageKind::from_u64(n) {
            Some(k) => Some(k),
            None => {
                return None;
            },
        },
        Some(Option::None) => None,
        None => {
            return None;
        },
    };
    let application = match get_field(v, "application") {
        Option::None => None,
        Option::Some(JsonValue::Null) => None,
        Option::Some(j) => match decode_application(j) {
            Some(a) => Some(a),
            None => {
                return None;
            },
        },
    };
    let message_reference = match get_field(v, "message_reference") {
        Option::None => None,
        Option::Some(JsonValue::Null) => None,
        Option::Some(j) => match decode_reference(j) {
            Some(x) => Some(x),
            None => {
                return None;
            },
        },
    };
    let flags = match get_opt_u64(v, "flags") {
        Some(o) => o,
        None => {
            return None;
        },
    };
    Some(
        Message {
            id,
            channel_id,
            guild_id,
            author,
            member,
            content,
            timestamp,
            edited_timestamp,
            tts,
            mention_everyone,
            mentions,
            mention_roles,
            mentions_channels,
            attachments,
            embed,
            reactions,
            nonce,
            pinned,
            webhook_id,
            kind,
            application,
            message_reference,
            flags,
        },
    )
}

/// One request for the REST collaborator, as the outbound boundary value the
/// message actions produce.  Performing it is the collaborator's work.
#[derive(Debug, PartialEq)]
pub enum RestAction {
    /// Post a new text message into a channel.
    CreateMessage { channel_id: String, content: String },
    /// Post an embed into a channel.
    CreateEmbed { channel_id: String, embed: Embed },
    /// React to a message with an emoji.
    AddReaction { channel_id: String, message_id: String, emoji: String },
    /// Delete a message.
    DeleteMessage { channel_id: String, message_id: String },
    /// Pin a message in its channel.
    PinMessage { channel_id: String, message_id: String },
    /// Unpin a message in its channel.
    UnpinMessage { channel_id: String, message_id: String },
}

impl Message {
    /// Request that posts `content` into this message's channel.
    pub fn send(&self, content: &str) -> (r: RestAction)
        ensures
            r matches RestAction::CreateMessage { channel_id: ch, content: c } && ch@
                == self.channel_id@ && c@ == content@,
    {
        RestAction::CreateMessage {
            channel_id: self.channel_id.clone(),
            content: content.to_owned(),
        }
    }

    /// Request that posts `embed` into this message's channel.
    pub fn send_embed(&self, embed: Embed) -> (r: RestAction)
        ensures
            r matches RestAction::CreateEmbed { channel_id: ch, embed: e } && ch@
                == self.channel_id@ && e == embed,
    {
        RestAction::CreateEmbed { channel_id: self.channel_id.clone(), embed }
    }

    /// Request that reacts to this message with `emoji`.
    pub fn add_reaction(&self, emoji: &str) -> (r: RestAction)
        ensures
            r matches RestAction::AddReaction { channel_id: ch, message_id: mid, emoji: e } && ch@
                == self.channel_id@ && mid@ == self.id@ && e@ == emoji@,
    {
        RestAction::AddReaction {
            channel_id: self.channel_id.clone(),
            message_id: self.id.clone(),
            emoji: emoji.to_owned(),
        }
    }

    /// Request that reacts to a sibling message in this message's channel.
    pub fn add_reaction_to_message(&self, message_id: &str, emoji: &str) -> (r: RestAction)
        ensures
            r matches RestAction::AddReaction { channel_id: ch, message_id: mid, emoji: e } && ch@
                == self.channel_id@ && mid@ == message_id@ && e@ == emoji@,
    {
        RestAction::AddReaction {
            channel_id: self.channel_id.clone(),
            message_id: message_id.to_owned(),
            emoji: emoji.to_owned(),
        }
    }

    /// Request that deletes this message.
    pub fn remove(&self) -> (r: RestAction)
        ensures
            r matches RestAction::DeleteMessage { channel_id: ch, message_id: mid } && ch@
                == self.channel_id@ && mid@ == self.id@,
    {
        RestAction::DeleteMessage {
            channel_id: self.channel_id.clone(),
            message_id: self.id.clone(),
        }
    }

    /// Request that pins this message; the local `pinned` field is left as it
    /// was, since a decoded message is immutable.
    pub fn pin(&self) -> (r: RestAction)
        ensures
            r matches RestAction::PinMessage { channel_id: ch, message_id: mid } && ch@
                == self.channel_id@ && mid@ == self.id@,
    {
        RestAction::PinMessage { channel_id: self.channel_id.clone(), message_id: self.id.clone() }
    }

    /// Request that unpins this message; the local `pinned` field is left as
    /// it was.
    pub fn unpin(&self) -> (r: RestAction)
        ensures
            r matches RestAction::UnpinMessage { channel_id: ch, message_id: mid } && ch@
                == self.channel_id@ && mid@ == self.id@,
    {
        RestAction::UnpinMessage {
            channel_id: self.channel_id.clone(),
            message_id: self.id.clone(),
        }
    }
}

} // verus!
