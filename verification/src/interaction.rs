//! The platform's interactions and responses, as plain values.

use crate::text::debug_quote;
use crate::text::debug_quoted;
use crate::text::decimal;
use crate::text::decimal_text;
use vstd::prelude::*;
use vstd::string::StringExecFns;

verus! {

/// The message flag that makes a response visible to the invoking user only.
pub const EPHEMERAL: u64 = 64;

/// What an inbound interaction asks for.
#[derive(Debug, Clone, Copy, PartialEq, Eq, Structural)]
pub enum InteractionType {
    /// A liveness probe: answered at once, no command involved.
    Ping,
    /// A user invoked a command.
    ApplicationCommand,
}

/// The value a user gave for one argument of a command.
#[derive(Debug, Clone, PartialEq, Eq)]
pub enum CommandOptionValue {
    String(String),
    Integer(i64),
    Boolean(bool),
    /// Any other kind of value, kept as its printed form.
    Other(String),
}

impl CommandOptionValue {
    /// The value in its printed form.
    pub open spec fn described(&self) -> Seq<char> {
        match self {
            CommandOptionValue::String(value) => "String("@ + debug_quoted(value@)
                + ")"@,
            CommandOptionValue::Integer(value) => "Integer("@ + decimal_text(
                *value as int,
            ) + ")"@,
            CommandOptionValue::Boolean(value) => if *value {
                "Boolean(true)"@
            } else {
                "Boolean(false)"@
            },
            CommandOptionValue::Other(printed) => printed@,
        }
    }

    /// The value in its printed form.
    pub fn describe(&self) -> (text: String)
        ensures
            text@ == self.described(),
    {
        match self {
            CommandOptionValue::String(value) => {
                let quoted = debug_quote(value.as_str());
                String::from_str("String(").concat(quoted.as_str()).concat(")")
            },
            CommandOptionValue::Integer(value) => {
                let number = decimal(*value as i128);
                String::from_str("Integer(").concat(number.as_str()).concat(")")
            },
            CommandOptionValue::Boolean(value) => if *value {
                String::from_str("Boolean(true)")
            } else {
                String::from_str("Boolean(false)")
            },
            CommandOptionValue::Other(printed) => printed.clone(),
        }
    }
}

/// One named argument of a command invocation.
#[derive(Debug, Clone, PartialEq, Eq)]
pub struct CommandDataOption {
    pub name: String,
    pub value: CommandOptionValue,
}

/// The payload of a command invocation: which command, with which arguments.
#[derive(Debug, Clone, PartialEq, Eq)]
pub struct CommandData {
    pub name: String,
    pub options: Vec<CommandDataOption>,
}

/// The payload that came with an interaction.
#[derive(Debug, Clone, PartialEq, Eq)]
pub enum InteractionData {
    ApplicationCommand(CommandData),
    /// A payload of some kind that is not a command invocation.
    Other,
}

/// One authenticated inbound unit of work.
#[derive(Debug, Clone, PartialEq, Eq)]
pub struct Interaction {
    pub kind: InteractionType,
    pub data: Option<InteractionData>,
    /// The continuation token under which a later follow-up is delivered.
    pub token: String,
    /// The server the interaction came from, if it came from one.
    pub guild_id: Option<u64>,
}

/// The kinds of response handed back to the inbound boundary.
#[derive(Debug, Clone, Copy, PartialEq, Eq, Structural)]
pub enum InteractionResponseType {
    /// Answers a liveness probe.
    Pong,
    /// An immediate answer.
    ChannelMessageWithSource,
    /// Acknowledged; the answer follows out of band.
    DeferredChannelMessageWithSource,
}

/// A rich attachment of a message.
#[derive(Debug, Clone, PartialEq, Eq)]
pub struct Embed {
    pub title: Option<String>,
    pub description: Option<String>,
    pub color: Option<u32>,
    pub footer: Option<String>,
}

/// An `Embed` with its texts as sequences of characters.
pub struct EmbedView {
    pub title: Option<Seq<char>>,
    pub description: Option<Seq<char>>,
    pub color: Option<u32>,
    pub footer: Option<Seq<char>>,
}

/// An optional text as an optional sequence of characters.
pub open spec fn text_view(text: Option<String>) -> Option<Seq<char>> {
    match text {
        Some(text) => Some(text@),
        None => None,
    }
}

/// Optional attachments as an optional sequence of their views.
pub open spec fn embeds_view(embeds: Option<Vec<Embed>>) -> Option<Seq<EmbedView>> {
    match embeds {
        Some(embeds) => Some(embeds@.map_values(|embed: Embed| embed@)),
        None => None,
    }
}

impl View for Embed {
    type V = EmbedView;

    open spec fn view(&self) -> EmbedView {
        EmbedView {
            title: text_view(self.title),
            description: text_view(self.description),
            color: self.color,
            footer: text_view(self.footer),
        }
    }
}

/// What a response shows: text, attachments and visibility flags.
#[derive(Debug, Clone, PartialEq, Eq)]
pub struct InteractionResponseData {
    pub content: Option<String>,
    pub embeds: Option<Vec<Embed>>,
    pub flags: Option<u64>,
}

/// An `InteractionResponseData` with its texts as sequences of characters.
pub struct InteractionResponseDataView {
    pub content: Option<Seq<char>>,
    pub embeds: Option<Seq<EmbedView>>,
    pub flags: Option<u64>,
}

impl View for InteractionResponseData {
    type V = InteractionResponseDataView;

    open spec fn view(&self) -> InteractionResponseDataView {
        InteractionResponseDataView {
            content: text_view(self.content),
            embeds: embeds_view(self.embeds),
            flags: self.flags,
        }
    }
}

/// An `InteractionResponse` with its texts as sequences of characters.
pub struct InteractionResponseView {
    pub kind: InteractionResponseType,
    pub data: Option<InteractionResponseDataView>,
}

impl View for InteractionResponse {
    type V = InteractionResponseView;

    open spec fn view(&self) -> InteractionResponseView {
        InteractionResponseView {
            kind: self.kind,
            data: match self.data {
                Some(data) => Some(data@),
                None => None,
            },
        }
    }
}

/// The colour of an error message's attachment.
pub const COLOR_ERROR: u32 = 0xef4444;

/// The colour of a successful answer's attachment.
pub const COLOR_SUCCESS: u32 = 0xec4899;

/// A response to an interaction.
#[derive(Debug, Clone, PartialEq, Eq)]
pub struct InteractionResponse {
    pub kind: InteractionResponseType,
    pub data: Option<InteractionResponseData>,
}

impl InteractionResponse {
    /// The fixed acknowledgment of a liveness probe.
    pub open spec fn pong_spec() -> InteractionResponseView {
        InteractionResponseView { kind: InteractionResponseType::Pong, data: None }
    }

    /// The acknowledgment that promises a later answer; by convention it is
    /// visible to the invoking user only.
    pub open spec fn deferred_spec() -> InteractionResponseView {
        InteractionResponseView {
            kind: InteractionResponseType::DeferredChannelMessageWithSource,
            data: Some(
                InteractionResponseDataView { content: None, embeds: None, flags: Some(EPHEMERAL) },
            ),
        }
    }

    /// The immediate message that tells the invoking user, and nobody else,
    /// that something went wrong: one attachment titled "Error" that holds the
    /// description.
    pub open spec fn error_spec(description: Seq<char>) -> InteractionResponseView {
        InteractionResponseView {
            kind: InteractionResponseType::ChannelMessageWithSource,
            data: Some(
                InteractionResponseDataView {
                    content: None,
                    embeds: Some(
                        seq![
                            EmbedView {
                                title: Some("Error"@),
                                description: Some(description),
                                color: Some(COLOR_ERROR),
                                footer: Some("Please report this to J / Navith!"@),
                            },
                        ],
                    ),
                    flags: Some(EPHEMERAL),
                },
            ),
        }
    }

    /// The fixed acknowledgment of a liveness probe.
    pub fn pong() -> (response: InteractionResponse)
        ensures
            response@ == Self::pong_spec(),
    {
        InteractionResponse { kind: InteractionResponseType::Pong, data: None }
    }

    /// The acknowledgment that promises a later answer.
    pub fn deferred() -> (response: InteractionResponse)
        ensures
            response@ == Self::deferred_spec(),
    {
        InteractionResponse {
            kind: InteractionResponseType::DeferredChannelMessageWithSource,
            data: Some(
                InteractionResponseData { content: None, embeds: None, flags: Some(EPHEMERAL) },
            ),
        }
    }

    /// The immediate message that reports an error to the invoking user.
    pub fn error(description: String) -> (response: InteractionResponse)
        ensures
            response@ == Self::error_spec(description@),
    {
        let embed = Embed {
            title: Some(String::from_str("Error")),
            description: Some(description),
            color: Some(COLOR_ERROR),
            footer: Some(String::from_str("Please report this to J / Navith!")),
        };
        let mut embeds: Vec<Embed> = Vec::new();
        embeds.push(embed);
        assert(embeds@.map_values(|embed: Embed| embed@) =~= seq![embed@]);
        InteractionResponse {
            kind: InteractionResponseType::ChannelMessageWithSource,
            data: Some(
                InteractionResponseData { content: None, embeds: Some(embeds), flags: Some(EPHEMERAL) },
            ),
        }
    }
}

} // verus!
