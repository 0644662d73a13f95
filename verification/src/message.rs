//! Messages to a channel, and what a channel allows.

use serenity::model::id::ChannelId;
use serenity::model::misc::Mentionable;
use serenity::model::permissions::Permissions;
use serenity::utils::Colour;
use vstd::prelude::*;

use crate::text::decimal;

verus! {

/// Red, green and blue.
pub type RGB = (u8, u8, u8);

/// What a message holds; what is left out does not appear in it.
#[derive(Debug)]
pub struct MessageParams {
    pub fields: Option<Vec<(String, String, bool)>>,
    pub message: Option<String>,
    pub title: Option<String>,
    pub color: Option<RGB>,
}

impl Default for MessageParams {
    fn default() -> (r: Self)
        ensures
            r == (MessageParams { fields: None, message: None, title: None, color: None }),
    {
        MessageParams { fields: None, message: None, title: None, color: None }
    }
}

impl MessageParams {
    /// A message of text only.
    pub fn text(message: String) -> (r: Self)
        ensures
            r == (MessageParams {
                fields: None,
                message: Some(message),
                title: None,
                color: None,
            }),
    {
        MessageParams { fields: None, message: Some(message), title: None, color: None }
    }
}

/// The box in which a message appears.
#[derive(Debug)]
pub struct Embed {
    pub title: Option<String>,
    pub description: Option<String>,
    pub color: Option<RGB>,
    pub fields: Option<Vec<(String, String, bool)>>,
}

/// The embed that shows the parts of a message.
pub open spec fn embed_of(params: MessageParams) -> Embed {
    Embed {
        title: params.title,
        description: params.message,
        color: params.color,
        fields: params.fields,
    }
}

/// Calls `Permissions::send_messages` on the given bits: whether the bit for sending
/// messages is set.
#[verifier::external_body]
pub(crate) fn allows_messages(perms: u64) -> (r: bool)
    ensures
        r == (perms & 0x800 == 0x800),
{
    Permissions::from_bits_truncate(perms).send_messages()
}

/// Calls `Permissions::embed_links` on the given bits: whether the bit for embedding links
/// is set.
#[verifier::external_body]
pub(crate) fn allows_embeds(perms: u64) -> (r: bool)
    ensures
        r == (perms & 0x4000 == 0x4000),
{
    Permissions::from_bits_truncate(perms).embed_links()
}

/// Whether permissions, given as bits, allow both messages and embeds.
pub open spec fn embeds_allowed(perms: u64) -> bool {
    perms & 0x800 == 0x800 && perms & 0x4000 == 0x4000
}

/// Whether permissions, given as bits, allow both messages and embeds.
pub fn can_embed(perms: u64) -> (r: bool)
    ensures
        r == embeds_allowed(perms),
{
    allows_messages(perms) && allows_embeds(perms)
}

/// The embed of a new message. Only for a channel that allows it.
pub fn simple_message(params: MessageParams, perms: u64) -> (r: Embed)
    requires
        embeds_allowed(perms),
    ensures
        r == embed_of(params),
{
    Embed {
        title: params.title,
        description: params.message,
        color: params.color,
        fields: params.fields,
    }
}

/// The embed that replaces the one of a message. Only for a channel that allows it.
pub fn simple_message_edit(params: MessageParams, perms: u64) -> (r: Embed)
    requires
        embeds_allowed(perms),
    ensures
        r == embed_of(params),
{
    Embed {
        title: params.title,
        description: params.message,
        color: params.color,
        fields: params.fields,
    }
}

/// Calls `Colour::tuple` on the constant `Colour::RED`: its red, green and blue parts.
#[verifier::external_body]
pub(crate) fn red() -> (r: RGB)
    ensures
        r == (0xe7u8, 0x4cu8, 0x3cu8),
{
    Colour::RED.tuple()
}

/// What follows a command that has run: nothing if it succeeded or was not given in a
/// channel of a guild, a message if it failed there.
pub fn after_hook(error: Result<(), String>, in_guild_channel: bool) -> (r: Option<MessageParams>)
    ensures
        r is Some <==> error is Err && in_guild_channel,
        r matches Some(params) ==> {
            &&& params.title matches Some(title)
            &&& title@ == "Error"@
            &&& params.message == Some(error->Err_0)
            &&& params.color == Some((0xe7u8, 0x4cu8, 0x3cu8))
            &&& params.fields is None
        },
{
    match error {
        Ok(()) => None,
        Err(why) => if in_guild_channel {
            Some(
                MessageParams {
                    fields: None,
                    message: Some(why),
                    title: Some("Error".to_owned()),
                    color: Some(red()),
                },
            )
        } else {
            None
        },
    }
}

/// The text that names a channel and links to it.
pub open spec fn channel_mention(channel_id: u64) -> Seq<char> {
    "<#"@ + decimal(channel_id as nat) + ">"@
}

/// Calls `ChannelId::mention`: the decimal number of the channel between `<#` and `>`.
#[verifier::external_body]
pub(crate) fn mention(channel_id: u64) -> (r: String)
    ensures
        r@ == channel_mention(channel_id),
{
    ChannelId(channel_id).mention()
}

} // verus!
