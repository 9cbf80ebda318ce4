//! The earlier command handler: a spam guard, a debugging command, tickets, mass
//! mentions, and moderation of a target found in the message.

use vstd::prelude::*;
use crate::embed::{text_message, MessageView, OutgoingMessage};
use crate::events::on_message::is_text;
use crate::mention::concat_all;
use crate::text::{content_contains, content_words, opt_view, split, views};

pub use crate::embed::{embed_error, EmbedColour};

verus! {

/// What stays fixed while one message is handled.
pub struct Context {
    pub prefix: String,
    pub author: String,
}

/// The target of a moderation command: one id, or several message ids.
pub enum Target {
    One(String),
    Many(Vec<String>),
    Nothing,
}

pub enum TargetView {
    One(Seq<char>),
    Many(Seq<Seq<char>>),
    Nothing,
}

pub enum Stage {
    Start,
    /// The help text is being sent; the command is looked at next.
    AfterHelp { words: Vec<String> },
    AwaitCategories,
    AwaitChannel { words: Vec<String> },
    AwaitAdmin { server_id: String, words: Vec<String> },
    AwaitTarget { server_id: String, operation: String },
    Finished,
}

pub enum Event {
    Received { content: Option<String> },
    Completed,
    /// The titles of the server's categories, if it has categories.
    CategoriesFetched { titles: Option<Vec<String>> },
    /// The server of the message's channel.
    ChannelFetched { server_id: String },
    /// Whether the author holds the admin role.
    AdminChecked { is_admin: bool },
    TargetFound { target: Target, reason: Option<String> },
}

pub enum Action {
    Idle,
    /// Send a message to the message's channel.
    Send { message: OutgoingMessage },
    Ban { server_id: String, user: String, reason: Option<String> },
    FetchCategories,
    FetchChannel,
    /// Hand the command to the ticket handling.
    RunTicket,
    CheckAdmin { server_id: String },
    /// Hand the command to the mass mention.
    RunMention { server_id: String },
    FindTarget,
    Kick { server_id: String, user: String },
    Unban { server_id: String, user: String },
    DeleteMessage { message_id: String },
    BulkDelete { message_ids: Vec<String> },
}

pub struct ContextView {
    pub prefix: Seq<char>,
    pub author: Seq<char>,
}

pub enum StageView {
    Start,
    AfterHelp { words: Seq<Seq<char>> },
    AwaitCategories,
    AwaitChannel { words: Seq<Seq<char>> },
    AwaitAdmin { server_id: Seq<char>, words: Seq<Seq<char>> },
    AwaitTarget { server_id: Seq<char>, operation: Seq<char> },
    Finished,
}

pub enum EventView {
    Received { content: Option<Seq<char>> },
    Completed,
    CategoriesFetched { titles: Option<Seq<Seq<char>>> },
    ChannelFetched { server_id: Seq<char> },
    AdminChecked { is_admin: bool },
    TargetFound { target: TargetView, reason: Option<Seq<char>> },
}

pub enum ActionView {
    Idle,
    Send { message: MessageView },
    Ban { server_id: Seq<char>, user: Seq<char>, reason: Option<Seq<char>> },
    FetchCategories,
    FetchChannel,
    RunTicket,
    CheckAdmin { server_id: Seq<char> },
    RunMention { server_id: Seq<char> },
    FindTarget,
    Kick { server_id: Seq<char>, user: Seq<char> },
    Unban { server_id: Seq<char>, user: Seq<char> },
    DeleteMessage { message_id: Seq<char> },
    BulkDelete { message_ids: Seq<Seq<char>> },
}

impl View for Context {
    type V = ContextView;

    open spec fn view(&self) -> ContextView {
        ContextView { prefix: self.prefix@, author: self.author@ }
    }
}

impl View for Target {
    type V = TargetView;

    open spec fn view(&self) -> TargetView {
        match self {
            Target::One(id) => TargetView::One(id@),
            Target::Many(ids) => TargetView::Many(views(ids@)),
            Target::Nothing => TargetView::Nothing,
        }
    }
}

impl View for Stage {
    type V = StageView;

    open spec fn view(&self) -> StageView {
        match self {
            Stage::Start => StageView::Start,
            Stage::AfterHelp { words } => StageView::AfterHelp { words: views(words@) },
            Stage::AwaitCategories => StageView::AwaitCategories,
            Stage::AwaitChannel { words } => StageView::AwaitChannel { words: views(words@) },
            Stage::AwaitAdmin { server_id, words } => StageView::AwaitAdmin {
                server_id: server_id@,
                words: views(words@),
            },
            Stage::AwaitTarget { server_id, operation } => StageView::AwaitTarget {
                server_id: server_id@,
                operation: operation@,
            },
            Stage::Finished => StageView::Finished,
        }
    }
}

impl View for Event {
    type V = EventView;

    open spec fn view(&self) -> EventView {
        match self {
            Event::Received { content } => EventView::Received { content: opt_view(*content) },
            Event::Completed => EventView::Completed,
            Event::CategoriesFetched { titles } => EventView::CategoriesFetched {
                titles: match titles {
                    Some(t) => Some(views(t@)),
                    None => None,
                },
            },
            Event::ChannelFetched { server_id } => EventView::ChannelFetched {
                server_id: server_id@,
            },
            Event::AdminChecked { is_admin } => EventView::AdminChecked { is_admin: *is_admin },
            Event::TargetFound { target, reason } => EventView::TargetFound {
                target: target@,
                reason: opt_view(*reason),
            },
        }
    }
}

impl View for Action {
    type V = ActionView;

    open spec fn view(&self) -> ActionView {
        match self {
            Action::Idle => ActionView::Idle,
            Action::Send { message } => ActionView::Send { message: message@ },
            Action::Ban { server_id, user, reason } => ActionView::Ban {
                server_id: server_id@,
                user: user@,
                reason: opt_view(*reason),
            },
            Action::FetchCategories => ActionView::FetchCategories,
            Action::FetchChannel => ActionView::FetchChannel,
            Action::RunTicket => ActionView::RunTicket,
            Action::CheckAdmin { server_id } => ActionView::CheckAdmin { server_id: server_id@ },
            Action::RunMention { server_id } => ActionView::RunMention { server_id: server_id@ },
            Action::FindTarget => ActionView::FindTarget,
            Action::Kick { server_id, user } => ActionView::Kick {
                server_id: server_id@,
                user: user@,
            },
            Action::Unban { server_id, user } => ActionView::Unban {
                server_id: server_id@,
                user: user@,
            },
            Action::DeleteMessage { message_id } => ActionView::DeleteMessage {
                message_id: message_id@,
            },
            Action::BulkDelete { message_ids } => ActionView::BulkDelete {
                message_ids: views(message_ids@),
            },
        }
    }
}

/// The word whose presence marks a message as spam.
pub open spec fn spam_keyword() -> Seq<char> {
    "KEYWORD"@
}

/// The server from which spammers are banned.
pub open spec fn spam_server() -> Seq<char> {
    "SERVER_ID"@
}

/// The short help of this handler.
pub open spec fn short_help(prefix: Seq<char>) -> Seq<char> {
    "<prefix> <action> <item>\nprefix is set to "@ + prefix
}

/// One category title in a code block.
pub open spec fn title_block(title: Seq<char>) -> Seq<char> {
    "```text\n"@ + title + "\n```\n"@
}

/// The answer to `dbg categories`.
pub open spec fn category_listing(titles: Option<Seq<Seq<char>>>) -> Seq<char> {
    match titles {
        None => "none"@,
        Some(ts) => concat_all(ts.map_values(|t: Seq<char>| title_block(t))),
    }
}

/// What happens to the command `words` once any help has been sent.
pub open spec fn command_after_help(words: Seq<Seq<char>>) -> (StageView, ActionView) {
    if words.len() < 2 {
        (StageView::Finished, ActionView::Idle)
    } else if words[1] == "dbg"@ {
        if words.len() > 2 && words[2] == "categories"@ {
            (StageView::AwaitCategories, ActionView::FetchCategories)
        } else {
            (StageView::Finished, ActionView::Send { message: text_message("notvalid"@) })
        }
    } else {
        (StageView::AwaitChannel { words }, ActionView::FetchChannel)
    }
}

/// What a moderation command does to the target found in its message.
pub open spec fn moderate(
    server_id: Seq<char>,
    operation: Seq<char>,
    target: TargetView,
    reason: Option<Seq<char>>,
) -> ActionView {
    match target {
        TargetView::One(id) => if operation == "ban"@ {
            ActionView::Ban { server_id, user: id, reason }
        } else if operation == "kick"@ {
            ActionView::Kick { server_id, user: id }
        } else if operation == "unban"@ {
            ActionView::Unban { server_id, user: id }
        } else if operation == "delete"@ {
            ActionView::DeleteMessage { message_id: id }
        } else {
            ActionView::Idle
        },
        TargetView::Many(ids) => if operation == "delete"@ {
            ActionView::BulkDelete { message_ids: ids }
        } else {
            ActionView::Idle
        },
        TargetView::Nothing => ActionView::Idle,
    }
}

/// One step of this handler.
pub open spec fn legacy_step(ctx: ContextView, stage: StageView, event: EventView) -> (
    StageView,
    ActionView,
) {
    match (stage, event) {
        (StageView::Start, EventView::Received { content }) => {
            if content_words(content, spam_keyword(), " "@) is Some {
                (
                    StageView::Finished,
                    ActionView::Ban { server_id: spam_server(), user: ctx.author, reason: Some("raid"@) },
                )
            } else {
                match content_words(content, ctx.prefix, " "@) {
                    None => (StageView::Finished, ActionView::Idle),
                    Some(words) => if words.len() > 1 && words[1] == "help"@ {
                        (
                            StageView::AfterHelp { words },
                            ActionView::Send { message: text_message(short_help(ctx.prefix)) },
                        )
                    } else {
                        command_after_help(words)
                    },
                }
            }
        },
        (StageView::AfterHelp { words }, EventView::Completed) => command_after_help(words),
        (StageView::AwaitCategories, EventView::CategoriesFetched { titles }) => (
            StageView::Finished,
            ActionView::Send { message: text_message(category_listing(titles)) },
        ),
        (StageView::AwaitChannel { words }, EventView::ChannelFetched { server_id }) => {
            if words[1] == "ticket"@ {
                (StageView::Finished, ActionView::RunTicket)
            } else {
                (StageView::AwaitAdmin { server_id, words }, ActionView::CheckAdmin { server_id })
            }
        },
        (StageView::AwaitAdmin { server_id, words }, EventView::AdminChecked { is_admin }) => {
            if !is_admin {
                (StageView::Finished, ActionView::Idle)
            } else if words[1] == "mention"@ {
                (StageView::Finished, ActionView::RunMention { server_id })
            } else {
                (StageView::AwaitTarget { server_id, operation: words[1] }, ActionView::FindTarget)
            }
        },
        (StageView::AwaitTarget { server_id, operation }, EventView::TargetFound { target, reason }) => (
            StageView::Finished,
            moderate(server_id, operation, target, reason),
        ),
        _ => (StageView::Finished, ActionView::Idle),
    }
}

/// The stage invariant: a stage that still holds a command holds at least two words.
pub open spec fn stage_wf(stage: StageView) -> bool {
    match stage {
        StageView::AwaitChannel { words } => words.len() >= 2,
        StageView::AwaitAdmin { words, .. } => words.len() >= 2,
        _ => true,
    }
}

impl Stage {
    pub open spec fn wf(&self) -> bool {
        stage_wf(self@)
    }
}

fn category_list(titles: &Option<Vec<String>>) -> (s: String)
    ensures
        s@ == category_listing(
            match titles {
                Some(t) => Some(views(t@)),
                None => None,
            },
        ),
{
    match titles {
        None => String::from_str("none"),
        Some(ts) => {
            let ghost blocks = views(ts@).map_values(|t: Seq<char>| title_block(t));
            let mut s = String::new();
            for i in 0..ts.len()
                invariant
                    blocks == views(ts@).map_values(|t: Seq<char>| title_block(t)),
                    s@ == concat_all(blocks.subrange(0, i as int)),
            {
                proof {
                    crate::mention::lemma_concat_push(blocks.subrange(0, i as int), blocks[i as int]);
                    assert(blocks.subrange(0, i as int).push(blocks[i as int]) =~= blocks.subrange(
                        0,
                        i + 1,
                    ));
                }
                s.append("```text\n");
                s.append(ts[i].as_str());
                s.append("\n```\n");
            }
            assert(blocks.subrange(0, ts.len() as int) =~= blocks);
            s
        },
    }
}

fn after_help(words: Vec<String>) -> (r: (Stage, Action))
    ensures
        (r.0@, r.1@) == command_after_help(views(words@)),
        r.0.wf(),
{
    let ghost ws = views(words@);
    if words.len() < 2 {
        return (Stage::Finished, Action::Idle);
    }
    assert(ws[1] == words@[1]@);
    if is_text(&words[1], "dbg") {
        if words.len() > 2 && is_text(&words[2], "categories") {
            assert(ws[2] == words@[2]@);
            return (Stage::AwaitCategories, Action::FetchCategories);
        }
        proof {
            if words.len() > 2 {
                assert(ws[2] == words@[2]@);
            }
        }
        let m = OutgoingMessage::text(String::from_str("notvalid"));
        return (Stage::Finished, Action::Send { message: m });
    }
    (Stage::AwaitChannel { words }, Action::FetchChannel)
}

fn moderate_target(
    server_id: String,
    operation: String,
    target: Target,
    reason: Option<String>,
) -> (a: Action)
    ensures
        a@ == moderate(server_id@, operation@, target@, opt_view(reason)),
{
    match target {
        Target::One(id) => {
            if is_text(&operation, "ban") {
                Action::Ban { server_id, user: id, reason }
            } else if is_text(&operation, "kick") {
                Action::Kick { server_id, user: id }
            } else if is_text(&operation, "unban") {
                Action::Unban { server_id, user: id }
            } else if is_text(&operation, "delete") {
                Action::DeleteMessage { message_id: id }
            } else {
                Action::Idle
            }
        },
        Target::Many(ids) => {
            if is_text(&operation, "delete") {
                Action::BulkDelete { message_ids: ids }
            } else {
                Action::Idle
            }
        },
        Target::Nothing => Action::Idle,
    }
}

/// One step of the earlier `message_handle`: the next stage and action for `stage`
/// and `event`.
pub fn step(ctx: &Context, stage: Stage, event: Event) -> (r: (Stage, Action))
    requires
        stage.wf(),
    ensures
        (r.0@, r.1@) == legacy_step(ctx@, stage@, event@),
        r.0.wf(),
{
    proof {
        reveal_strlit(" ");
    }
    match (stage, event) {
        (Stage::Start, Event::Received { content }) => {
            if content_contains(&content, "KEYWORD", " ").is_some() {
                return (
                    Stage::Finished,
                    Action::Ban {
                        server_id: String::from_str("SERVER_ID"),
                        user: ctx.author.clone(),
                        reason: Some(String::from_str("raid")),
                    },
                );
            }
            match content_contains(&content, ctx.prefix.as_str(), " ") {
                None => (Stage::Finished, Action::Idle),
                Some(words) => {
                    let ghost ws = views(words@);
                    if words.len() > 1 && is_text(&words[1], "help") {
                        assert(ws[1] == words@[1]@);
                        let mut text = String::from_str("<prefix> <action> <item>\nprefix is set to ");
                        text.append(ctx.prefix.as_str());
                        let m = OutgoingMessage::text(text);
                        (Stage::AfterHelp { words }, Action::Send { message: m })
                    } else {
                        proof {
                            if words.len() > 1 {
                                assert(ws[1] == words@[1]@);
                            }
                        }
                        after_help(words)
                    }
                },
            }
        },
        (Stage::AfterHelp { words }, Event::Completed) => after_help(words),
        (Stage::AwaitCategories, Event::CategoriesFetched { titles }) => {
            let m = OutgoingMessage::text(category_list(&titles));
            (Stage::Finished, Action::Send { message: m })
        },
        (Stage::AwaitChannel { words }, Event::ChannelFetched { server_id }) => {
            assert(views(words@)[1] == words@[1]@);
            if is_text(&words[1], "ticket") {
                (Stage::Finished, Action::RunTicket)
            } else {
                let check = server_id.clone();
                (Stage::AwaitAdmin { server_id, words }, Action::CheckAdmin { server_id: check })
            }
        },
        (Stage::AwaitAdmin { server_id, words }, Event::AdminChecked { is_admin }) => {
            assert(views(words@)[1] == words@[1]@);
            if !is_admin {
                (Stage::Finished, Action::Idle)
            } else if is_text(&words[1], "mention") {
                (Stage::Finished, Action::RunMention { server_id })
            } else {
                let operation = words[1].clone();
                (Stage::AwaitTarget { server_id, operation }, Action::FindTarget)
            }
        },
        (Stage::AwaitTarget { server_id, operation }, Event::TargetFound { target, reason }) => {
            (Stage::Finished, moderate_target(server_id, operation, target, reason))
        },
        _ => (Stage::Finished, Action::Idle),
    }
}

/// A message that holds the spam keyword as a word gets its author banned, whatever
/// else it says.
pub proof fn law_spam_is_banned(ctx: ContextView, content: Seq<char>)
    requires
        split(content, " "@).contains("KEYWORD"@),
    ensures
        legacy_step(ctx, StageView::Start, EventView::Received { content: Some(content) }) == (
            StageView::Finished,
            ActionView::Ban { server_id: "SERVER_ID"@, user: ctx.author, reason: Some("raid"@) },
        ),
{
}

/// Apart from the spam ban, members are banned, kicked, unbanned or have messages
/// deleted or mass-mentioned only after the check found them to hold the admin role.
pub proof fn law_moderation_after_admin_check(ctx: ContextView, stage: StageView, event: EventView)
    ensures
        ({
            let a = legacy_step(ctx, stage, event).1;
            (a is Kick || a is Unban || a is DeleteMessage || a is BulkDelete || a is RunMention
                || (a is Ban && !(stage is Start))) ==> (stage is AwaitTarget || (
            stage is AwaitAdmin && event == EventView::AdminChecked { is_admin: true }))
        }),
        legacy_step(ctx, stage, event).0 is AwaitTarget ==> event == (EventView::AdminChecked {
            is_admin: true,
        }),
{
}

/// A target found for an admin's command is treated as the command names: with a
/// single id, `ban` bans it with the reason, `kick` kicks it, `unban` lifts its ban
/// and `delete` deletes that message; with several ids only `delete` acts, deleting
/// them all at once. Conversely, a ban, kick, unban or deletion comes only from the
/// command of that name.
pub proof fn law_found_target_moderation(
    ctx: ContextView,
    server_id: Seq<char>,
    operation: Seq<char>,
    target: TargetView,
    reason: Option<Seq<char>>,
)
    ensures
        ({
            let r = legacy_step(
                ctx,
                StageView::AwaitTarget { server_id, operation },
                EventView::TargetFound { target, reason },
            );
            &&& r.0 == StageView::Finished
            &&& target matches TargetView::One(id) ==> {
                &&& operation == "ban"@ ==> r.1 == ActionView::Ban { server_id, user: id, reason }
                &&& operation == "kick"@ ==> r.1 == ActionView::Kick { server_id, user: id }
                &&& operation == "unban"@ ==> r.1 == ActionView::Unban { server_id, user: id }
                &&& operation == "delete"@ ==> r.1 == ActionView::DeleteMessage { message_id: id }
            }
            &&& target matches TargetView::Many(ids) ==> (operation == "delete"@ ==> r.1
                == ActionView::BulkDelete { message_ids: ids })
            &&& r.1 is Ban ==> operation == "ban"@ && target is One
            &&& r.1 is Kick ==> operation == "kick"@ && target is One
            &&& r.1 is Unban ==> operation == "unban"@ && target is One
            &&& r.1 is DeleteMessage ==> operation == "delete"@ && target is One
            &&& r.1 is BulkDelete ==> operation == "delete"@ && target is Many
            &&& target is Nothing ==> r.1 == ActionView::Idle
        }),
{
    crate::events::on_message::lemma_command_words_differ();
}

/// The answer to `dbg categories` lists each category title in its own code block,
/// in order, and is `none` for a server without categories.
pub proof fn law_category_listing(titles: Seq<Seq<char>>, title: Seq<char>)
    ensures
        category_listing(None) == "none"@,
        category_listing(Some(Seq::<Seq<char>>::empty())) == Seq::<char>::empty(),
        category_listing(Some(titles.push(title))) == category_listing(Some(titles)) + "```text\n"@
            + title + "\n```\n"@,
{
    let blocks = titles.map_values(|t: Seq<char>| title_block(t));
    assert(titles.push(title).map_values(|t: Seq<char>| title_block(t)) =~= blocks.push(
        title_block(title),
    ));
    crate::mention::lemma_concat_push(blocks, title_block(title));
    assert(Seq::<Seq<char>>::empty().map_values(|t: Seq<char>| title_block(t)) =~= Seq::<
        Seq<char>,
    >::empty());
}

/// The `help` word is answered with the short help that names the prefix, after
/// which the command is looked at as usual.
pub proof fn law_short_help(ctx: ContextView, content: Seq<char>)
    requires
        !split(content, " "@).contains("KEYWORD"@),
        split(content, " "@).contains(ctx.prefix),
        split(content, " "@).len() > 1,
        split(content, " "@)[1] == "help"@,
    ensures
        legacy_step(ctx, StageView::Start, EventView::Received { content: Some(content) }) == (
            StageView::AfterHelp { words: split(content, " "@) },
            ActionView::Send {
                message: crate::events::on_message::plain(
                    "<prefix> <action> <item>\nprefix is set to "@ + ctx.prefix,
                ),
            },
        ),
{
}

/// After any help, `dbg categories` asks for the categories, any other `dbg` is
/// answered `notvalid`, and every other command of two words or more asks for the
/// channel; once the channel's server is known, `ticket` is handed to the ticket
/// handling and everything else waits for the admin check, after which `mention`
/// is handed to the mass mention, a non-admin is ignored, and other commands look
/// for their target.
pub proof fn law_routing(ctx: ContextView, words: Seq<Seq<char>>, server_id: Seq<char>, is_admin: bool)
    requires
        words.len() >= 2,
    ensures
        (words[1] == "dbg"@ && words.len() > 2 && words[2] == "categories"@) ==> command_after_help(
            words,
        ) == (StageView::AwaitCategories, ActionView::FetchCategories),
        (words[1] == "dbg"@ && !(words.len() > 2 && words[2] == "categories"@)) ==> command_after_help(
            words,
        ) == (
            StageView::Finished,
            ActionView::Send { message: crate::events::on_message::plain("notvalid"@) },
        ),
        words[1] != "dbg"@ ==> command_after_help(words) == (
            StageView::AwaitChannel { words },
            ActionView::FetchChannel,
        ),
        words[1] == "ticket"@ ==> legacy_step(
            ctx,
            StageView::AwaitChannel { words },
            EventView::ChannelFetched { server_id },
        ) == (StageView::Finished, ActionView::RunTicket),
        words[1] != "ticket"@ ==> legacy_step(
            ctx,
            StageView::AwaitChannel { words },
            EventView::ChannelFetched { server_id },
        ) == (StageView::AwaitAdmin { server_id, words }, ActionView::CheckAdmin { server_id }),
        ({
            let r = legacy_step(
                ctx,
                StageView::AwaitAdmin { server_id, words },
                EventView::AdminChecked { is_admin },
            );
            &&& !is_admin ==> r == (StageView::Finished, ActionView::Idle)
            &&& (is_admin && words[1] == "mention"@) ==> r == (
                StageView::Finished,
                ActionView::RunMention { server_id },
            )
            &&& (is_admin && words[1] != "mention"@) ==> r == (
                StageView::AwaitTarget { server_id, operation: words[1] },
                ActionView::FindTarget,
            )
        }),
{
}

} // verus!
