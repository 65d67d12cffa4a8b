//! Data model for Discord interaction webhooks: inbound interactions,
//! outbound responses, and the DTOs of the channel-invite endpoint.
//!
//! Each enum travels on the wire as a numeric code; the mapping between
//! variants and codes is given by the `code` / `from_code` functions.

use vstd::prelude::*;

verus! {

/// Type tag of an inbound interaction.
#[derive(Clone, Copy, Debug, PartialEq, Eq, Structural)]
pub enum InteractionType {
    Ping,
    ApplicationCommand,
    MessageComponent,
    ApplicationCommandAutoComplete,
    ModalSubmit,
}

impl InteractionType {
    /// Which variant, if any, the wire code `c` stands for.
    pub open spec fn spec_from_code(c: u8) -> Option<InteractionType> {
        if c == 1 {
            Some(InteractionType::Ping)
        } else if c == 2 {
            Some(InteractionType::ApplicationCommand)
        } else if c == 3 {
            Some(InteractionType::MessageComponent)
        } else if c == 4 {
            Some(InteractionType::ApplicationCommandAutoComplete)
        } else if c == 5 {
            Some(InteractionType::ModalSubmit)
        } else {
            None
        }
    }

    /// Decodes a wire code; `None` for a code outside the protocol.
    pub fn from_code(c: u8) -> (r: Option<InteractionType>)
        ensures
            r == Self::spec_from_code(c),
    {
        if c == 1 {
            Some(InteractionType::Ping)
        } else if c == 2 {
            Some(InteractionType::ApplicationCommand)
        } else if c == 3 {
            Some(InteractionType::MessageComponent)
        } else if c == 4 {
            Some(InteractionType::ApplicationCommandAutoComplete)
        } else if c == 5 {
            Some(InteractionType::ModalSubmit)
        } else {
            None
        }
    }
}

/// Kind of an application command.
#[derive(Clone, Copy, Debug, PartialEq, Eq, Structural)]
pub enum InteractionCommandType {
    ChatInput,
    User,
    Message,
}

impl InteractionCommandType {
    /// Which variant, if any, the wire code `c` stands for.
    pub open spec fn spec_from_code(c: u8) -> Option<InteractionCommandType> {
        if c == 1 {
            Some(InteractionCommandType::ChatInput)
        } else if c == 2 {
            Some(InteractionCommandType::User)
        } else if c == 3 {
            Some(InteractionCommandType::Message)
        } else {
            None
        }
    }

    /// Decodes a wire code; `None` for a code outside the protocol.
    pub fn from_code(c: u8) -> (r: Option<InteractionCommandType>)
        ensures
            r == Self::spec_from_code(c),
    {
        if c == 1 {
            Some(InteractionCommandType::ChatInput)
        } else if c == 2 {
            Some(InteractionCommandType::User)
        } else if c == 3 {
            Some(InteractionCommandType::Message)
        } else {
            None
        }
    }
}

/// Kind of one option of an application command.
#[derive(Clone, Copy, Debug, PartialEq, Eq, Structural)]
pub enum InteractionCommandOptionType {
    SubCommand,
    SubCommandGroup,
    String,
    Integer,
    Boolean,
    User,
    Channel,
    Role,
    Mentionable,
    Number,
    Attachment,
}

impl InteractionCommandOptionType {
    /// Which variant, if any, the wire code `c` stands for.
    pub open spec fn spec_from_code(c: u8) -> Option<InteractionCommandOptionType> {
        if c == 1 {
            Some(InteractionCommandOptionType::SubCommand)
        } else if c == 2 {
            Some(InteractionCommandOptionType::SubCommandGroup)
        } else if c == 3 {
            Some(InteractionCommandOptionType::String)
        } else if c == 4 {
            Some(InteractionCommandOptionType::Integer)
        } else if c == 5 {
            Some(InteractionCommandOptionType::Boolean)
        } else if c == 6 {
            Some(InteractionCommandOptionType::User)
        } else if c == 7 {
            Some(InteractionCommandOptionType::Channel)
        } else if c == 8 {
            Some(InteractionCommandOptionType::Role)
        } else if c == 9 {
            Some(InteractionCommandOptionType::Mentionable)
        } else if c == 10 {
            Some(InteractionCommandOptionType::Number)
        } else if c == 11 {
            Some(InteractionCommandOptionType::Attachment)
        } else {
            None
        }
    }

    /// Decodes a wire code; `None` for a code outside the protocol.
    pub fn from_code(c: u8) -> (r: Option<InteractionCommandOptionType>)
        ensures
            r == Self::spec_from_code(c),
    {
        if c == 1 {
            Some(InteractionCommandOptionType::SubCommand)
        } else if c == 2 {
            Some(InteractionCommandOptionType::SubCommandGroup)
        } else if c == 3 {
            Some(InteractionCommandOptionType::String)
        } else if c == 4 {
            Some(InteractionCommandOptionType::Integer)
        } else if c == 5 {
            Some(InteractionCommandOptionType::Boolean)
        } else if c == 6 {
            Some(InteractionCommandOptionType::User)
        } else if c == 7 {
            Some(InteractionCommandOptionType::Channel)
        } else if c == 8 {
            Some(InteractionCommandOptionType::Role)
        } else if c == 9 {
            Some(InteractionCommandOptionType::Mentionable)
        } else if c == 10 {
            Some(InteractionCommandOptionType::Number)
        } else if c == 11 {
            Some(InteractionCommandOptionType::Attachment)
        } else {
            None
        }
    }
}

/// Type tag of an outbound response.
#[derive(Clone, Copy, Debug, PartialEq, Eq, Structural)]
pub enum InteractionResponseType {
    Pong,
    ChannelMessageWithSource,
    DeferredChannelMessageWithSource,
    DeferredUpdateMessage,
    UpdateMessage,
    ApplicationCommandAutocompleteResult,
    Modal,
}

impl InteractionResponseType {
    /// The wire code of this tag.
    pub open spec fn spec_code(self) -> u8 {
        match self {
            InteractionResponseType::Pong => 1,
            InteractionResponseType::ChannelMessageWithSource => 4,
            InteractionResponseType::DeferredChannelMessageWithSource => 5,
            InteractionResponseType::DeferredUpdateMessage => 6,
            InteractionResponseType::UpdateMessage => 7,
            InteractionResponseType::ApplicationCommandAutocompleteResult => 8,
            InteractionResponseType::Modal => 9,
        }
    }

    /// Encodes this tag as its wire code.
    pub fn code(self) -> (c: u8)
        ensures
            c == self.spec_code(),
    {
        match self {
            InteractionResponseType::Pong => 1,
            InteractionResponseType::ChannelMessageWithSource => 4,
            InteractionResponseType::DeferredChannelMessageWithSource => 5,
            InteractionResponseType::DeferredUpdateMessage => 6,
            InteractionResponseType::UpdateMessage => 7,
            InteractionResponseType::ApplicationCommandAutocompleteResult => 8,
            InteractionResponseType::Modal => 9,
        }
    }
}

/// Payload of a message-producing response.
#[derive(Debug, PartialEq)]
pub struct InteractionResponseData {
    pub content: String,
}

/// Outbound payload answering an interaction.
#[derive(Debug, PartialEq)]
pub struct InteractionResponse {
    pub interaction_type: InteractionResponseType,
    pub data: Option<InteractionResponseData>,
}

impl InteractionResponse {
    /// A pong carries no data; a message-producing response carries some.
    pub open spec fn wf(self) -> bool {
        match self.interaction_type {
            InteractionResponseType::Pong => self.data is None,
            InteractionResponseType::ChannelMessageWithSource => self.data is Some,
            _ => true,
        }
    }
}

/// One argument of an application command.
#[derive(Debug, PartialEq)]
pub struct InteractionCommandOption {
    pub name: String,
    pub interaction_type: InteractionCommandOptionType,
    pub value: Option<String>,
}

/// Entities referenced by a command, resolved by the platform.
#[derive(Debug, PartialEq)]
pub struct InteractionResolvedData {}

/// A guild member, modelled only as far as the webhook reads it.
#[derive(Debug, PartialEq)]
pub struct GuildMember {}

/// A user, modelled only as far as the webhook reads it.
#[derive(Debug, PartialEq)]
pub struct User {}

/// A message, modelled only as far as the webhook reads it.
#[derive(Debug, PartialEq)]
pub struct Message {}

/// Payload of a command invocation.
#[derive(Debug, PartialEq)]
pub struct InteractionData {
    pub id: String,
    pub name: String,
    pub interaction_type: InteractionCommandType,
    pub resolved: Option<InteractionResolvedData>,
    pub options: Option<Vec<InteractionCommandOption>>,
}

/// An inbound interaction event.
#[derive(Debug, PartialEq)]
pub struct Interaction {
    pub id: String,
    pub interaction_type: InteractionType,
    pub application_id: String,
    pub data: Option<InteractionData>,
    pub guild_id: Option<String>,
    pub channel_id: Option<String>,
    pub member: Option<GuildMember>,
    pub user: Option<User>,
    pub token: String,
    pub version: i32,
    pub message: Option<Message>,
    pub app_permissions: Option<String>,
    pub locale: Option<String>,
    pub guild_locale: Option<String>,
}

/// Body of the outbound invite-creation call.
#[derive(Debug, PartialEq)]
pub struct ChannelInviteRequest {
    pub max_age: i32,
    pub max_uses: i32,
    pub temporary: bool,
    pub unique: bool,
    pub target_type: i32,
    pub target_application_id: String,
}

/// Answer of the invite-creation call.
#[derive(Debug, PartialEq)]
pub struct ChannelInviteResponse {
    pub code: String,
    pub target_application: Application,
}

/// The application an invite points at.
#[derive(Debug, PartialEq)]
pub struct Application {
    pub name: String,
}

} // verus!
