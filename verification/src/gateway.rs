//! Start-up choices and the answer to a failed request.

use vstd::prelude::*;
use crate::decimal::{decimal, to_decimal};
use crate::embed::{embed_text_message, MessageView, OutgoingMessage};
use crate::text::{opt_view, push_char};

verus! {

/// The token the bot logs in with: the one of `BOT_TOKEN` and `SELF_TOKEN` that is
/// set; none when both or neither are set.
pub open spec fn chosen_token(bot: Option<Seq<char>>, user: Option<Seq<char>>) -> Option<Seq<char>> {
    match (bot, user) {
        (Some(_), Some(_)) => None,
        (Some(t), None) => Some(t),
        (None, Some(t)) => Some(t),
        (None, None) => None,
    }
}

/// Picks the login token from the values of `BOT_TOKEN` and `SELF_TOKEN`.
pub fn choose_token(bot: Option<String>, user: Option<String>) -> (t: Option<String>)
    ensures
        opt_view(t) == chosen_token(opt_view(bot), opt_view(user)),
{
    match (bot, user) {
        (Some(_), Some(_)) => None,
        (Some(t), None) => Some(t),
        (None, Some(t)) => Some(t),
        (None, None) => None,
    }
}

/// Whether `OTHER_INSTANCE` marks a third-party instance: its value parses as the
/// boolean `true` (`parse::<bool>().unwrap_or_default()`).
pub fn is_other_instance(value: &Option<String>) -> (r: bool)
    ensures
        r == (value matches Some(v) && v@ == "true"@),
{
    match value {
        Some(v) => *v == String::from_str("true"),
        None => false,
    }
}

/// `MONGO_URI` with its double quotes taken out.
pub open spec fn unquoted(s: Seq<char>) -> Seq<char>
    decreases s.len(),
{
    if s.len() == 0 {
        seq![]
    } else if s.last() == '"' {
        unquoted(s.drop_last())
    } else {
        unquoted(s.drop_last()).push(s.last())
    }
}

/// The database address: the raw value without double quotes.
pub fn database_uri(raw: &str) -> (r: String)
    ensures
        r@ == unquoted(raw@),
{
    let cs = crate::text::chars_of(raw);
    let mut r = String::new();
    for i in 0..cs.len()
        invariant
            cs@ == raw@,
            r@ == unquoted(raw@.subrange(0, i as int)),
    {
        assert(raw@.subrange(0, i + 1).drop_last() =~= raw@.subrange(0, i as int));
        if cs[i] != '"' {
            push_char(&mut r, cs[i]);
        }
    }
    assert(raw@.subrange(0, cs.len() as int) =~= raw@);
    r
}

/// The answer to a message whose handling failed with the HTTP status `code`.
pub open spec fn status_error_message(code: u16, message_id: Seq<char>) -> MessageView {
    MessageView {
        replies: seq![message_id],
        ..embed_text_message("Error "@ + decimal(code as nat) + "!"@)
    }
}

/// The embed `Error CODE!` in answer to the message `message_id`.
pub fn status_error_reply(code: u16, message_id: String) -> (m: OutgoingMessage)
    ensures
        m@ == status_error_message(code, message_id@),
{
    let mut text = String::from_str("Error ");
    text.append(to_decimal(code as u64).as_str());
    text.append("!");
    let mut m = OutgoingMessage::embed_text(text);
    m.add_reply(message_id);
    assert(m@.replies =~= seq![message_id@]);
    m
}

/// Exactly one of the two tokens must be set: that one is used; with both or
/// neither there is none.
pub proof fn law_token_choice(bot: Seq<char>, user: Seq<char>)
    ensures
        chosen_token(Some(bot), None) == Some(bot),
        chosen_token(None, Some(user)) == Some(user),
        chosen_token(Some(bot), Some(user)) is None,
        chosen_token(None, None) is None,
{
}

/// The database address keeps every character of the raw value but the double
/// quotes, in order.
pub proof fn law_unquoted_is_filter(s: Seq<char>)
    ensures
        unquoted(s) == s.filter(|c: char| c != '"'),
    decreases s.len(),
{
    reveal(Seq::filter);
    if s.len() > 0 {
        law_unquoted_is_filter(s.drop_last());
    }
}

/// A request that failed with status `code` is answered, in reply to the message,
/// with one embed titled `Error CODE!`.
pub proof fn law_status_error_answer(code: u16, message_id: Seq<char>)
    ensures
        status_error_message(code, message_id) == (MessageView {
            content: None,
            embeds: seq![
                crate::embed::EmbedView {
                    title: Some("Error "@ + decimal(code as nat) + "!"@),
                    description: None,
                    colour: None,
                },
            ],
            replies: seq![message_id],
        }),
{
}

} // verus!
