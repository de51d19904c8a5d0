//! What a command sends back: a line of text or a rich message.

use vstd::prelude::*;
use vstd::string::StringExecFns;

verus! {

/// The accent colour of a rich message.
#[derive(Clone, Copy, Debug, PartialEq, Eq, Structural)]
pub enum Colour {
    DarkGreen,
    DarkRed,
}

/// A named value shown under a rich message.
#[derive(Debug, PartialEq, Eq)]
pub struct EmbedField {
    pub name: String,
    pub value: String,
    pub inline: bool,
}

/// A rich message.
#[derive(Debug, PartialEq, Eq)]
pub struct Embed {
    pub colour: Colour,
    pub title: String,
    pub description: String,
    pub fields: Vec<EmbedField>,
    pub footer: String,
}

/// A reply to a command.
#[derive(Debug, PartialEq, Eq)]
pub enum Reply {
    Text(String),
    Embed(Embed),
}

/// The content of an [`EmbedField`].
pub struct FieldView {
    pub name: Seq<char>,
    pub value: Seq<char>,
    pub inline: bool,
}

/// The content of an [`Embed`].
pub struct EmbedView {
    pub colour: Colour,
    pub title: Seq<char>,
    pub description: Seq<char>,
    pub fields: Seq<FieldView>,
    pub footer: Seq<char>,
}

/// The content of a [`Reply`].
pub enum ReplyView {
    Text(Seq<char>),
    Embed(EmbedView),
}

impl View for EmbedField {
    type V = FieldView;

    open spec fn view(&self) -> FieldView {
        FieldView { name: self.name@, value: self.value@, inline: self.inline }
    }
}

impl View for Embed {
    type V = EmbedView;

    open spec fn view(&self) -> EmbedView {
        EmbedView {
            colour: self.colour,
            title: self.title@,
            description: self.description@,
            fields: Seq::new(self.fields@.len(), |i: int| self.fields@[i]@),
            footer: self.footer@,
        }
    }
}

impl View for Reply {
    type V = ReplyView;

    open spec fn view(&self) -> ReplyView {
        match self {
            Reply::Text(text) => ReplyView::Text(text@),
            Reply::Embed(embed) => ReplyView::Embed(embed@),
        }
    }
}

/// The reply to a queue command that the voice driver refused, with the
/// driver's account of it between code fences.
pub open spec fn command_error_text(detail: Seq<char>) -> Seq<char> {
    "Error running command:\n```"@ + detail + "```"@
}

/// The reply to a track command that the voice driver refused, with the
/// driver's account of it between code fences.
pub open spec fn track_command_error_text(detail: Seq<char>) -> Seq<char> {
    "Error running track command:\n```"@ + detail + "```"@
}

/// Words the refusal of a queue command.
pub fn command_error(detail: &str) -> (text: String)
    ensures
        text@ == command_error_text(detail@),
{
    let mut text = String::from_str("Error running command:\n```");
    text.append(detail);
    text.append("```");
    text
}

/// Words the refusal of a track command.
pub fn track_command_error(detail: &str) -> (text: String)
    ensures
        text@ == track_command_error_text(detail@),
{
    let mut text = String::from_str("Error running track command:\n```");
    text.append(detail);
    text.append("```");
    text
}

} // verus!
