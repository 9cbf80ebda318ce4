use vstd::prelude::*;
use crate::text::opt_view;

verus! {

/// The colour themes of a message embed.
pub enum EmbedColour {
    Error,
    Warning,
    Success,
}

/// The theme variable name of a colour.
pub open spec fn colour_name(c: EmbedColour) -> Seq<char> {
    match c {
        EmbedColour::Error => "error"@,
        EmbedColour::Warning => "warning"@,
        EmbedColour::Success => "success"@,
    }
}

/// The CSS value of a colour: `var(--NAME)`.
pub open spec fn colour_css(c: EmbedColour) -> Seq<char> {
    "var(--"@ + colour_name(c) + ")"@
}

impl EmbedColour {
    /// The CSS value that the chat client reads for this colour, such as `var(--error)`.
    pub fn display(&self) -> (s: String)
        ensures
            s@ == colour_css(*self),
    {
        let mut s = String::from_str("var(--");
        match self {
            EmbedColour::Error => s.append("error"),
            EmbedColour::Warning => s.append("warning"),
            EmbedColour::Success => s.append("success"),
        }
        s.append(")");
        s
    }
}

/// An embed of an outgoing message: a boxed title with an optional text and colour.
pub struct Embed {
    pub title: Option<String>,
    pub description: Option<String>,
    pub colour: Option<String>,
}

/// What an embed holds.
pub struct EmbedView {
    pub title: Option<Seq<char>>,
    pub description: Option<Seq<char>>,
    pub colour: Option<Seq<char>>,
}

impl View for Embed {
    type V = EmbedView;

    open spec fn view(&self) -> EmbedView {
        EmbedView {
            title: opt_view(self.title),
            description: opt_view(self.description),
            colour: opt_view(self.colour),
        }
    }
}

/// A message to send: its text, its embeds and the ids of the messages it answers.
pub struct OutgoingMessage {
    pub content: Option<String>,
    pub embeds: Vec<Embed>,
    pub replies: Vec<String>,
}

/// What an outgoing message holds.
pub struct MessageView {
    pub content: Option<Seq<char>>,
    pub embeds: Seq<EmbedView>,
    pub replies: Seq<Seq<char>>,
}

impl View for OutgoingMessage {
    type V = MessageView;

    open spec fn view(&self) -> MessageView {
        MessageView {
            content: opt_view(self.content),
            embeds: self.embeds@.map_values(|e: Embed| e@),
            replies: self.replies@.map_values(|r: String| r@),
        }
    }
}

/// An embed that shows only a title.
pub open spec fn title_embed(title: Seq<char>) -> EmbedView {
    EmbedView { title: Some(title), description: None, colour: None }
}

/// A message of plain text.
pub open spec fn text_message(content: Seq<char>) -> MessageView {
    MessageView { content: Some(content), embeds: seq![], replies: seq![] }
}

/// A message of a single embed that shows `title`.
pub open spec fn embed_text_message(title: Seq<char>) -> MessageView {
    MessageView { content: None, embeds: seq![title_embed(title)], replies: seq![] }
}

/// The error message: a single embed with the title, the error colour and the
/// description if there is one.
pub open spec fn error_message(text: Seq<char>, description: Option<Seq<char>>) -> MessageView {
    MessageView {
        content: None,
        embeds: seq![
            EmbedView {
                title: Some(text),
                description: description,
                colour: Some(colour_css(EmbedColour::Error)),
            },
        ],
        replies: seq![],
    }
}

impl OutgoingMessage {
    /// A message of plain text (`DataMessageSend::from_content`).
    pub fn text(content: String) -> (m: OutgoingMessage)
        ensures
            m@ == text_message(content@),
    {
        let m = OutgoingMessage { content: Some(content), embeds: Vec::new(), replies: Vec::new() };
        assert(m@.embeds =~= seq![]);
        assert(m@.replies =~= seq![]);
        m
    }

    /// A message of one embed that shows `title` (`DataMessageSend::from_embed_text`).
    pub fn embed_text(title: String) -> (m: OutgoingMessage)
        ensures
            m@ == embed_text_message(title@),
    {
        let mut m = OutgoingMessage { content: None, embeds: Vec::new(), replies: Vec::new() };
        m.embeds.push(Embed { title: Some(title), description: None, colour: None });
        assert(m@.embeds =~= seq![title_embed(title@)]);
        assert(m@.replies =~= seq![]);
        m
    }

    /// Adds an embed that shows `title` (`DataMessageSend::add_embed_text`).
    pub fn add_embed_text(&mut self, title: String)
        ensures
            final(self)@ == (MessageView {
                embeds: old(self)@.embeds.push(title_embed(title@)),
                ..old(self)@
            }),
    {
        self.embeds.push(Embed { title: Some(title), description: None, colour: None });
        assert(self@.embeds =~= old(self)@.embeds.push(title_embed(title@)));
    }

    /// Marks the message as an answer to the message `id` (`DataMessageSend::add_reply_str`).
    pub fn add_reply(&mut self, id: String)
        ensures
            final(self)@ == (MessageView { replies: old(self)@.replies.push(id@), ..old(self)@ }),
    {
        self.replies.push(id);
        assert(self@.replies =~= old(self)@.replies.push(id@));
    }
}

/// The message that reports an error: one embed titled `text`, in the error colour,
/// with `description` as its text when one is given.
pub fn embed_error(text: String, description: Option<&str>) -> (m: OutgoingMessage)
    ensures
        m@ == error_message(
            text@,
            match description {
                Some(d) => Some(d@),
                None => None,
            },
        ),
{
    let colour = EmbedColour::Error.display();
    let description = match description {
        Some(d) => Some(String::from_str(d)),
        None => None,
    };
    let mut m = OutgoingMessage { content: None, embeds: Vec::new(), replies: Vec::new() };
    m.embeds.push(Embed { title: Some(text), description, colour: Some(colour) });
    assert(m@.embeds =~= error_message(
        text@,
        match description {
            Some(d) => Some(d@),
            None => None,
        },
    ).embeds);
    assert(m@.replies =~= seq![]);
    m
}

/// The CSS values of the three colours.
pub proof fn law_colour_values()
    ensures
        colour_css(EmbedColour::Error) == "var(--"@ + "error"@ + ")"@,
        colour_css(EmbedColour::Warning) == "var(--"@ + "warning"@ + ")"@,
        colour_css(EmbedColour::Success) == "var(--"@ + "success"@ + ")"@,
{
}

/// The error message is a single embed in the error colour, titled with the text
/// and holding the description if one is given; it has no plain text and answers
/// no message.
pub proof fn law_error_message(text: Seq<char>, description: Option<Seq<char>>)
    ensures
        error_message(text, description).content is None,
        error_message(text, description).replies.len() == 0,
        error_message(text, description).embeds.len() == 1,
        error_message(text, description).embeds[0].title == Some(text),
        error_message(text, description).embeds[0].description == description,
        error_message(text, description).embeds[0].colour == Some("var(--"@ + "error"@ + ")"@),
{
}

} // verus!
