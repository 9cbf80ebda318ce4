use vstd::prelude::*;
use crate::db::{is_warning_id, new_warning, Warning};
use crate::decimal::{decimal, to_decimal};
use crate::doc::{help, help_text, links, links_text};
use crate::embed::{embed_text_message, text_message, MessageView, OutgoingMessage};
use crate::text::{
    content_contains, content_words, contains_string, mention_marks, opt_view, split,
    strip_mention, views, without_chars,
};

verus! {

/// What stays fixed while one message is handled: the bot's own id, the command
/// prefix, and the channel and author of the message.
pub struct Context {
    pub bot_id: String,
    pub prefix: String,
    pub channel: String,
    pub author: String,
}

/// The stage that the handling of a message has reached.
pub enum Stage {
    /// Nothing has been read yet.
    Start,
    /// A command waits for the server of its channel.
    AwaitServer { operation: String, user: String, reason: Option<String> },
    /// A command waits for the role names of its author on `server_id`.
    AwaitRoles { server_id: String, operation: String, user: String, reason: Option<String> },
    /// The notice of a warning is being sent; the warning is stored next.
    AwaitNotice { server_id: String, user: String, reason: Option<String> },
    /// The warnings of a member are being counted.
    AwaitCount,
    /// Nothing is left to do.
    Finished,
}

/// What the outside world reports to the handler.
pub enum Event {
    /// The message arrived with this content.
    Received { content: Option<String> },
    /// The channel's server, if the channel belongs to one.
    ServerResolved { server_id: Option<String> },
    /// The names of the author's roles, and the name of the admin role.
    RolesFetched { role_names: Vec<String>, admin_role: String },
    /// The last action was carried out.
    Completed,
    /// The number of warnings of the member asked about.
    WarningsCounted { count: usize },
}

/// What the handler asks the outside world to do next.
pub enum Action {
    /// Nothing more.
    Idle,
    /// Send `message` to the message's channel.
    Send { message: OutgoingMessage },
    /// Find the server of the message's channel.
    ResolveServer,
    /// Fetch the roles of the message's author on `server_id`.
    FetchRoles { server_id: String },
    Ban { server_id: String, user: String, reason: Option<String> },
    Unban { server_id: String, user: String },
    Kick { server_id: String, user: String },
    /// Delete the message `message_id` of the message's channel.
    DeleteMessage { message_id: String },
    /// Store a new warning.
    RecordWarning { warning: Warning },
    /// Count the warnings of `user` on `server_id`.
    CountWarnings { user: String, server_id: String },
}

pub struct ContextView {
    pub bot_id: Seq<char>,
    pub prefix: Seq<char>,
    pub channel: Seq<char>,
    pub author: Seq<char>,
}

pub enum StageView {
    Start,
    AwaitServer { operation: Seq<char>, user: Seq<char>, reason: Option<Seq<char>> },
    AwaitRoles {
        server_id: Seq<char>,
        operation: Seq<char>,
        user: Seq<char>,
        reason: Option<Seq<char>>,
    },
    AwaitNotice { server_id: Seq<char>, user: Seq<char>, reason: Option<Seq<char>> },
    AwaitCount,
    Finished,
}

pub enum EventView {
    Received { content: Option<Seq<char>> },
    ServerResolved { server_id: Option<Seq<char>> },
    RolesFetched { role_names: Seq<Seq<char>>, admin_role: Seq<char> },
    Completed,
    WarningsCounted { count: nat },
}

/// An action as the contracts see it; a warning is seen without its random id.
pub enum ActionView {
    Idle,
    Send { message: MessageView },
    ResolveServer,
    FetchRoles { server_id: Seq<char> },
    Ban { server_id: Seq<char>, user: Seq<char>, reason: Option<Seq<char>> },
    Unban { server_id: Seq<char>, user: Seq<char> },
    Kick { server_id: Seq<char>, user: Seq<char> },
    DeleteMessage { message_id: Seq<char> },
    RecordWarning { server_id: Seq<char>, user_id: Seq<char>, reason: Option<Seq<char>> },
    CountWarnings { user: Seq<char>, server_id: Seq<char> },
}

impl View for Context {
    type V = ContextView;

    open spec fn view(&self) -> ContextView {
        ContextView {
            bot_id: self.bot_id@,
            prefix: self.prefix@,
            channel: self.channel@,
            author: self.author@,
        }
    }
}

impl View for Stage {
    type V = StageView;

    open spec fn view(&self) -> StageView {
        match self {
            Stage::Start => StageView::Start,
            Stage::AwaitServer { operation, user, reason } => StageView::AwaitServer {
                operation: operation@,
                user: user@,
                reason: opt_view(*reason),
            },
            Stage::AwaitRoles { server_id, operation, user, reason } => StageView::AwaitRoles {
                server_id: server_id@,
                operation: operation@,
                user: user@,
                reason: opt_view(*reason),
            },
            Stage::AwaitNotice { server_id, user, reason } => StageView::AwaitNotice {
                server_id: server_id@,
                user: user@,
                reason: opt_view(*reason),
            },
            Stage::AwaitCount => StageView::AwaitCount,
            Stage::Finished => StageView::Finished,
        }
    }
}

impl View for Event {
    type V = EventView;

    open spec fn view(&self) -> EventView {
        match self {
            Event::Received { content } => EventView::Received { content: opt_view(*content) },
            Event::ServerResolved { server_id } => EventView::ServerResolved {
                server_id: opt_view(*server_id),
            },
            Event::RolesFetched { role_names, admin_role } => EventView::RolesFetched {
                role_names: views(role_names@),
                admin_role: admin_role@,
            },
            Event::Completed => EventView::Completed,
            Event::WarningsCounted { count } => EventView::WarningsCounted { count: *count as nat },
        }
    }
}

impl View for Action {
    type V = ActionView;

    open spec fn view(&self) -> ActionView {
        match self {
            Action::Idle => ActionView::Idle,
            Action::Send { message } => ActionView::Send { message: message@ },
            Action::ResolveServer => ActionView::ResolveServer,
            Action::FetchRoles { server_id } => ActionView::FetchRoles { server_id: server_id@ },
            Action::Ban { server_id, user, reason } => ActionView::Ban {
                server_id: server_id@,
                user: user@,
                reason: opt_view(*reason),
            },
            Action::Unban { server_id, user } => ActionView::Unban {
                server_id: server_id@,
                user: user@,
            },
            Action::Kick { server_id, user } => ActionView::Kick {
                server_id: server_id@,
                user: user@,
            },
            Action::DeleteMessage { message_id } => ActionView::DeleteMessage {
                message_id: message_id@,
            },
            Action::RecordWarning { warning } => ActionView::RecordWarning {
                server_id: warning.server_id@,
                user_id: warning.user_id@,
                reason: opt_view(warning.message),
            },
            Action::CountWarnings { user, server_id } => ActionView::CountWarnings {
                user: user@,
                server_id: server_id@,
            },
        }
    }
}

/// The mention of the bot: `<@BOT_ID>`.
pub open spec fn bot_mention(bot_id: Seq<char>) -> Seq<char> {
    "<@"@ + bot_id + ">"@
}

/// The answer to a bare mention of the bot.
pub open spec fn greeting(prefix: Seq<char>) -> Seq<char> {
    "Hi! I'm Autoguard. my prefix is `"@ + prefix + "`. \nRun `"@ + prefix + " help` for help!"@
}

/// The answer to a server command sent outside a server.
pub open spec fn not_in_server_text() -> Seq<char> {
    "Error! operation is only possible for a server"@
}

/// The answer to a privileged command from a member without the admin role.
pub open spec fn unauthorised_text() -> Seq<char> {
    "Unauthorised! (you require a role named \"ADMIN\") "@
}

/// The answer to an admin who targets the bot itself.
pub open spec fn refusal_text() -> Seq<char> {
    "No?"@
}

/// The notice that a warning was given.
pub open spec fn infraction_text(user: Seq<char>, reason: Option<Seq<char>>) -> Seq<char> {
    "Infraction added for: "@ + user + ". "@ + match reason {
        Some(r) => r,
        None => "no reason provided"@,
    }
}

/// The answer to a count of warnings.
pub open spec fn warn_count_text(count: nat) -> Seq<char> {
    decimal(count) + " warning(s) for user"@
}

/// The commands that only members with the admin role may give.
pub open spec fn privileged(operation: Seq<char>) -> bool {
    ||| operation == "ban"@
    ||| operation == "unban"@
    ||| operation == "kick"@
    ||| operation == "delete"@
    ||| operation == "warn"@
}

/// What an admin command does once the author's rights are known.
pub open spec fn command_step(
    ctx: ContextView,
    server_id: Seq<char>,
    operation: Seq<char>,
    user: Seq<char>,
    reason: Option<Seq<char>>,
    authorised: bool,
) -> (StageView, ActionView) {
    if !authorised && privileged(operation) {
        (StageView::Finished, ActionView::Send { message: embed_text_message(unauthorised_text()) })
    } else if authorised && user == ctx.bot_id {
        (StageView::Finished, ActionView::Send { message: text_message(refusal_text()) })
    } else if operation == "ban"@ {
        (StageView::Finished, ActionView::Ban { server_id, user, reason })
    } else if operation == "unban"@ || operation == "!ban"@ {
        (StageView::Finished, ActionView::Unban { server_id, user })
    } else if operation == "kick"@ {
        (StageView::Finished, ActionView::Kick { server_id, user })
    } else if operation == "delete"@ || operation == "del"@ {
        (StageView::Finished, ActionView::DeleteMessage { message_id: user })
    } else if operation == "warn"@ {
        (
            StageView::AwaitNotice { server_id, user, reason },
            ActionView::Send { message: embed_text_message(infraction_text(user, reason)) },
        )
    } else if operation == "warns"@ {
        (StageView::AwaitCount, ActionView::CountWarnings { user, server_id })
    } else {
        (StageView::Finished, ActionView::Idle)
    }
}

/// What the handler does on the arrival of a message with `content`.
pub open spec fn receive_step(ctx: ContextView, content: Option<Seq<char>>) -> (
    StageView,
    ActionView,
) {
    if content == Some(bot_mention(ctx.bot_id)) {
        (StageView::Finished, ActionView::Send { message: text_message(greeting(ctx.prefix)) })
    } else {
        match content_words(content, ctx.prefix, " "@) {
            None => (StageView::Finished, ActionView::Idle),
            Some(words) => if words.len() > 1 && words[1] == "help"@ {
                (StageView::Finished, ActionView::Send { message: text_message(help_text(ctx.prefix)) })
            } else if words.len() > 1 && words[1] == "links"@ {
                (StageView::Finished, ActionView::Send { message: text_message(links_text()) })
            } else if words.len() <= 2 {
                (StageView::Finished, ActionView::Idle)
            } else {
                (
                    StageView::AwaitServer {
                        operation: words[1],
                        user: without_chars(words[2], mention_marks()),
                        reason: if words.len() > 3 {
                            Some(words[3])
                        } else {
                            None
                        },
                    },
                    ActionView::ResolveServer,
                )
            },
        }
    }
}

/// One step of the handling of a message: from a stage and what was reported, the
/// next stage and what to do.
pub open spec fn handle_step(ctx: ContextView, stage: StageView, event: EventView) -> (
    StageView,
    ActionView,
) {
    match (stage, event) {
        (StageView::Start, EventView::Received { content }) => receive_step(ctx, content),
        (StageView::AwaitServer { operation, user, reason }, EventView::ServerResolved { server_id }) => {
            match server_id {
                None => (
                    StageView::Finished,
                    ActionView::Send { message: embed_text_message(not_in_server_text()) },
                ),
                Some(id) => (
                    StageView::AwaitRoles { server_id: id, operation, user, reason },
                    ActionView::FetchRoles { server_id: id },
                ),
            }
        },
        (
            StageView::AwaitRoles { server_id, operation, user, reason },
            EventView::RolesFetched { role_names, admin_role },
        ) => command_step(ctx, server_id, operation, user, reason, role_names.contains(admin_role)),
        (StageView::AwaitNotice { server_id, user, reason }, EventView::Completed) => (
            StageView::Finished,
            ActionView::RecordWarning { server_id, user_id: user, reason },
        ),
        (StageView::AwaitCount, EventView::WarningsCounted { count }) => (
            StageView::Finished,
            ActionView::Send { message: embed_text_message(warn_count_text(count)) },
        ),
        _ => (StageView::Finished, ActionView::Idle),
    }
}

/// Whether `s` is the text `lit`.
pub fn is_text(s: &String, lit: &str) -> (r: bool)
    ensures
        r == (s@ == lit@),
{
    let t = String::from_str(lit);
    *s == t
}

fn greeting_of(prefix: &String) -> (s: String)
    ensures
        s@ == greeting(prefix@),
{
    let mut s = String::from_str("Hi! I'm Autoguard. my prefix is `");
    s.append(prefix.as_str());
    s.append("`. \nRun `");
    s.append(prefix.as_str());
    s.append(" help` for help!");
    s
}

fn receive(ctx: &Context, content: Option<String>) -> (r: (Stage, Action))
    ensures
        (r.0@, r.1@) == receive_step(ctx@, opt_view(content)),
{
    let mut mention = String::from_str("<@");
    mention.append(ctx.bot_id.as_str());
    mention.append(">");
    let is_mention = match &content {
        Some(c) => *c == mention,
        None => false,
    };
    if is_mention {
        let m = OutgoingMessage::text(greeting_of(&ctx.prefix));
        return (Stage::Finished, Action::Send { message: m });
    }
    proof {
        reveal_strlit(" ");
    }
    let words = match content_contains(&content, ctx.prefix.as_str(), " ") {
        None => {
            return (Stage::Finished, Action::Idle);
        },
        Some(w) => w,
    };
    let ghost ws = views(words@);
    assert(ws.len() == words.len());
    if words.len() > 1 && is_text(&words[1], "help") {
        assert(ws[1] == words@[1]@);
        let m = OutgoingMessage::text(help(ctx.prefix.as_str()));
        return (Stage::Finished, Action::Send { message: m });
    }
    if words.len() > 1 && is_text(&words[1], "links") {
        assert(ws[1] == words@[1]@);
        let m = OutgoingMessage::text(links());
        return (Stage::Finished, Action::Send { message: m });
    }
    proof {
        if words.len() > 1 {
            assert(ws[1] == words@[1]@);
        }
    }
    if words.len() <= 2 {
        return (Stage::Finished, Action::Idle);
    }
    let operation = words[1].clone();
    let user = strip_mention(words[2].as_str());
    let reason = if words.len() > 3 {
        Some(words[3].clone())
    } else {
        None
    };
    assert(ws[1] == words@[1]@ && ws[2] == words@[2]@);
    assert(words.len() > 3 ==> ws[3] == words@[3]@);
    (Stage::AwaitServer { operation, user, reason }, Action::ResolveServer)
}

fn is_privileged(operation: &String) -> (r: bool)
    ensures
        r == privileged(operation@),
{
    is_text(operation, "ban") || is_text(operation, "unban") || is_text(operation, "kick")
        || is_text(operation, "delete") || is_text(operation, "warn")
}

fn infraction_of(user: &String, reason: &Option<String>) -> (s: String)
    ensures
        s@ == infraction_text(user@, opt_view(*reason)),
{
    let mut s = String::from_str("Infraction added for: ");
    s.append(user.as_str());
    s.append(". ");
    match reason {
        Some(r) => s.append(r.as_str()),
        None => s.append("no reason provided"),
    }
    s
}

fn command(
    ctx: &Context,
    server_id: String,
    operation: String,
    user: String,
    reason: Option<String>,
    authorised: bool,
) -> (r: (Stage, Action))
    ensures
        (r.0@, r.1@) == command_step(
            ctx@,
            server_id@,
            operation@,
            user@,
            opt_view(reason),
            authorised,
        ),
{
    if !authorised && is_privileged(&operation) {
        let m = OutgoingMessage::embed_text(
            String::from_str("Unauthorised! (you require a role named \"ADMIN\") "),
        );
        return (Stage::Finished, Action::Send { message: m });
    }
    if authorised && user == ctx.bot_id {
        let m = OutgoingMessage::text(String::from_str("No?"));
        return (Stage::Finished, Action::Send { message: m });
    }
    if is_text(&operation, "ban") {
        (Stage::Finished, Action::Ban { server_id, user, reason })
    } else if is_text(&operation, "unban") || is_text(&operation, "!ban") {
        (Stage::Finished, Action::Unban { server_id, user })
    } else if is_text(&operation, "kick") {
        (Stage::Finished, Action::Kick { server_id, user })
    } else if is_text(&operation, "delete") || is_text(&operation, "del") {
        (Stage::Finished, Action::DeleteMessage { message_id: user })
    } else if is_text(&operation, "warn") {
        let m = OutgoingMessage::embed_text(infraction_of(&user, &reason));
        (Stage::AwaitNotice { server_id, user, reason }, Action::Send { message: m })
    } else if is_text(&operation, "warns") {
        (Stage::AwaitCount, Action::CountWarnings { user, server_id })
    } else {
        (Stage::Finished, Action::Idle)
    }
}

/// One step of `message_handle`: the next stage and action for `stage` and `event`.
/// A stored warning gets a random decimal id.
pub fn step(ctx: &Context, stage: Stage, event: Event) -> (r: (Stage, Action))
    ensures
        (r.0@, r.1@) == handle_step(ctx@, stage@, event@),
        r.1 matches Action::RecordWarning { warning } ==> is_warning_id(warning._id@),
{
    match (stage, event) {
        (Stage::Start, Event::Received { content }) => receive(ctx, content),
        (Stage::AwaitServer { operation, user, reason }, Event::ServerResolved { server_id }) => {
            match server_id {
                None => {
                    let m = OutgoingMessage::embed_text(
                        String::from_str("Error! operation is only possible for a server"),
                    );
                    (Stage::Finished, Action::Send { message: m })
                },
                Some(id) => {
                    let fetch = id.clone();
                    (
                        Stage::AwaitRoles { server_id: id, operation, user, reason },
                        Action::FetchRoles { server_id: fetch },
                    )
                },
            }
        },
        (
            Stage::AwaitRoles { server_id, operation, user, reason },
            Event::RolesFetched { role_names, admin_role },
        ) => {
            let authorised = contains_string(&role_names, &admin_role);
            command(ctx, server_id, operation, user, reason, authorised)
        },
        (Stage::AwaitNotice { server_id, user, reason }, Event::Completed) => {
            let warning = new_warning(server_id, user, reason);
            (Stage::Finished, Action::RecordWarning { warning })
        },
        (Stage::AwaitCount, Event::WarningsCounted { count }) => {
            let mut text = to_decimal(count as u64);
            text.append(" warning(s) for user");
            let m = OutgoingMessage::embed_text(text);
            (Stage::Finished, Action::Send { message: m })
        },
        _ => (Stage::Finished, Action::Idle),
    }
}

/// A member without the admin role who gives a privileged command (ban, unban,
/// kick, delete, warn) is told that they are unauthorised, and nothing else happens.
pub proof fn law_unauthorised_privileged_command_refused(
    ctx: ContextView,
    server_id: Seq<char>,
    operation: Seq<char>,
    user: Seq<char>,
    reason: Option<Seq<char>>,
    role_names: Seq<Seq<char>>,
    admin_role: Seq<char>,
)
    requires
        !role_names.contains(admin_role),
        privileged(operation),
    ensures
        handle_step(
            ctx,
            StageView::AwaitRoles { server_id, operation, user, reason },
            EventView::RolesFetched { role_names, admin_role },
        ) == (StageView::Finished, ActionView::Send {
            message: embed_text_message(unauthorised_text()),
        }),
{
}

/// A ban, a kick or the start of a warning is only ever asked for on behalf of a
/// member who holds the admin role, and never against the bot itself.
pub proof fn law_moderation_needs_admin(ctx: ContextView, stage: StageView, event: EventView)
    ensures
        ({
            let r = handle_step(ctx, stage, event);
            (r.1 is Ban || r.1 is Kick || r.0 is AwaitNotice) ==> {
                &&& stage matches StageView::AwaitRoles { user, .. }
                &&& event matches EventView::RolesFetched { role_names, admin_role }
                &&& role_names.contains(admin_role)
                &&& user != ctx.bot_id
            }
        }),
{
}

/// A warning is stored only after its notice was sent for an admin's `warn`
/// command: the step that stores it starts from the notice stage, and that stage is
/// reached only from an authorised `warn` whose target is not the bot.
pub proof fn law_warning_follows_notice(ctx: ContextView, stage: StageView, event: EventView)
    ensures
        handle_step(ctx, stage, event).1 is RecordWarning ==> stage is AwaitNotice && event is Completed,
        handle_step(ctx, stage, event).0 is AwaitNotice ==> {
            &&& stage matches StageView::AwaitRoles { operation, user, .. }
            &&& operation == "warn"@
            &&& user != ctx.bot_id
            &&& event matches EventView::RolesFetched { role_names, admin_role }
            &&& role_names.contains(admin_role)
        },
{
}

/// An admin who targets the bot with any command is answered "No?" and nothing is
/// done to the bot.
pub proof fn law_bot_is_not_a_target(
    ctx: ContextView,
    server_id: Seq<char>,
    operation: Seq<char>,
    role_names: Seq<Seq<char>>,
    admin_role: Seq<char>,
    reason: Option<Seq<char>>,
)
    requires
        role_names.contains(admin_role),
    ensures
        handle_step(
            ctx,
            StageView::AwaitRoles { server_id, operation, user: ctx.bot_id, reason },
            EventView::RolesFetched { role_names, admin_role },
        ) == (StageView::Finished, ActionView::Send { message: text_message(refusal_text()) }),
{
}

/// A message in which no word is the prefix, and which is not a bare mention of
/// the bot, is ignored.
pub proof fn law_messages_without_prefix_are_ignored(ctx: ContextView, content: Seq<char>)
    requires
        !split(content, " "@).contains(ctx.prefix),
        content != bot_mention(ctx.bot_id),
    ensures
        handle_step(ctx, StageView::Start, EventView::Received { content: Some(content) }) == (
            StageView::Finished,
            ActionView::Idle,
        ),
{
}

/// Once finished, the handling stays finished and asks for nothing more.
pub proof fn law_finished_is_final(ctx: ContextView, event: EventView)
    ensures
        handle_step(ctx, StageView::Finished, event) == (StageView::Finished, ActionView::Idle),
{
}

/// The command words are pairwise different.
pub proof fn lemma_command_words_differ()
    ensures
        "ban"@ != "unban"@,
        "ban"@ != "!ban"@,
        "ban"@ != "kick"@,
        "ban"@ != "delete"@,
        "ban"@ != "del"@,
        "ban"@ != "warn"@,
        "ban"@ != "warns"@,
        "unban"@ != "!ban"@,
        "unban"@ != "kick"@,
        "unban"@ != "delete"@,
        "unban"@ != "del"@,
        "unban"@ != "warn"@,
        "unban"@ != "warns"@,
        "!ban"@ != "kick"@,
        "!ban"@ != "delete"@,
        "!ban"@ != "del"@,
        "!ban"@ != "warn"@,
        "!ban"@ != "warns"@,
        "kick"@ != "delete"@,
        "kick"@ != "del"@,
        "kick"@ != "warn"@,
        "kick"@ != "warns"@,
        "delete"@ != "del"@,
        "delete"@ != "warn"@,
        "delete"@ != "warns"@,
        "del"@ != "warn"@,
        "del"@ != "warns"@,
        "warn"@ != "warns"@,
{
    reveal_strlit("ban");
    assert("ban"@.len() == 3);
    reveal_strlit("unban");
    assert("unban"@.len() == 5);
    reveal_strlit("!ban");
    assert("!ban"@.len() == 4);
    reveal_strlit("kick");
    assert("kick"@.len() == 4);
    reveal_strlit("delete");
    assert("delete"@.len() == 6);
    reveal_strlit("del");
    assert("del"@.len() == 3);
    reveal_strlit("warn");
    assert("warn"@.len() == 4);
    reveal_strlit("warns");
    assert("warns"@.len() == 5);
    assert("ban"@[0] != "del"@[0]);
    assert("unban"@[0] != "warns"@[0]);
    assert("!ban"@[0] != "kick"@[0]);
    assert("!ban"@[0] != "warn"@[0]);
    assert("kick"@[0] != "warn"@[0]);
}

/// The step taken once the author's role names are known.
pub open spec fn after_roles(
    ctx: ContextView,
    server_id: Seq<char>,
    operation: Seq<char>,
    user: Seq<char>,
    reason: Option<Seq<char>>,
    role_names: Seq<Seq<char>>,
    admin_role: Seq<char>,
) -> (StageView, ActionView) {
    handle_step(
        ctx,
        StageView::AwaitRoles { server_id, operation, user, reason },
        EventView::RolesFetched { role_names, admin_role },
    )
}

/// A message of one embed that shows only `title`.
pub open spec fn one_embed(title: Seq<char>) -> MessageView {
    MessageView {
        content: None,
        embeds: seq![crate::embed::EmbedView { title: Some(title), description: None, colour: None }],
        replies: seq![],
    }
}

/// A message of plain text only.
pub open spec fn plain(content: Seq<char>) -> MessageView {
    MessageView { content: Some(content), embeds: seq![], replies: seq![] }
}


/// An admin's command against anyone but the bot does what it names: `ban` bans
/// the target on the command's server with the given reason; `unban` and `!ban`
/// lift the ban; `kick` kicks; `delete` and `del` delete the message whose id was
/// given; `warn` first sends the notice `Infraction added for: USER. REASON` (or
/// `no reason provided`) and waits to store the warning; `warns` counts the
/// target's warnings on the server.
pub proof fn law_admin_commands_do_what_they_name(
    ctx: ContextView,
    server_id: Seq<char>,
    operation: Seq<char>,
    user: Seq<char>,
    reason: Option<Seq<char>>,
    role_names: Seq<Seq<char>>,
    admin_role: Seq<char>,
)
    requires
        role_names.contains(admin_role),
        user != ctx.bot_id,
    ensures
        operation == "ban"@ ==> after_roles(ctx, server_id, operation, user, reason, role_names, admin_role)
            == (StageView::Finished, ActionView::Ban { server_id, user, reason }),
        (operation == "unban"@ || operation == "!ban"@) ==> after_roles(ctx, server_id, operation, user, reason, role_names, admin_role)
            == (StageView::Finished, ActionView::Unban { server_id, user }),
        operation == "kick"@ ==> after_roles(ctx, server_id, operation, user, reason, role_names, admin_role)
            == (StageView::Finished, ActionView::Kick { server_id, user }),
        (operation == "delete"@ || operation == "del"@) ==> after_roles(ctx, server_id, operation, user, reason, role_names, admin_role)
            == (StageView::Finished, ActionView::DeleteMessage { message_id: user }),
        operation == "warn"@ ==> after_roles(ctx, server_id, operation, user, reason, role_names, admin_role) == (
            StageView::AwaitNotice { server_id, user, reason },
            ActionView::Send {
                message: one_embed(
                    "Infraction added for: "@ + user + ". "@ + match reason {
                        Some(t) => t,
                        None => "no reason provided"@,
                    },
                ),
            },
        ),
        operation == "warns"@ ==> after_roles(ctx, server_id, operation, user, reason, role_names, admin_role)
            == (StageView::AwaitCount, ActionView::CountWarnings { user, server_id }),
{
    lemma_command_words_differ();
}

/// Without the admin role, `!ban`, `del` and `warns` still work as they do for an
/// admin (they are not among the privileged commands), while `ban`, `unban`,
/// `kick`, `delete` and `warn` are answered with the unauthorised notice.
pub proof fn law_member_commands(
    ctx: ContextView,
    server_id: Seq<char>,
    operation: Seq<char>,
    user: Seq<char>,
    reason: Option<Seq<char>>,
    role_names: Seq<Seq<char>>,
    admin_role: Seq<char>,
)
    requires
        !role_names.contains(admin_role),
    ensures
        operation == "!ban"@ ==> after_roles(ctx, server_id, operation, user, reason, role_names, admin_role)
            == (StageView::Finished, ActionView::Unban { server_id, user }),
        operation == "del"@ ==> after_roles(ctx, server_id, operation, user, reason, role_names, admin_role)
            == (StageView::Finished, ActionView::DeleteMessage { message_id: user }),
        operation == "warns"@ ==> after_roles(ctx, server_id, operation, user, reason, role_names, admin_role)
            == (StageView::AwaitCount, ActionView::CountWarnings { user, server_id }),
        (operation == "ban"@ || operation == "unban"@ || operation == "kick"@ || operation == "delete"@
            || operation == "warn"@) ==> after_roles(ctx, server_id, operation, user, reason, role_names, admin_role) == (
            StageView::Finished,
            ActionView::Send { message: one_embed("Unauthorised! (you require a role named \"ADMIN\") "@) },
        ),
{
    lemma_command_words_differ();
}

/// An admin who names the bot as the target of any command gets the plain answer
/// `No?` and nothing is done.
pub proof fn law_admin_cannot_target_bot(
    ctx: ContextView,
    server_id: Seq<char>,
    operation: Seq<char>,
    reason: Option<Seq<char>>,
    role_names: Seq<Seq<char>>,
    admin_role: Seq<char>,
)
    requires
        role_names.contains(admin_role),
    ensures
        handle_step(
            ctx,
            StageView::AwaitRoles { server_id, operation, user: ctx.bot_id, reason },
            EventView::RolesFetched { role_names, admin_role },
        ) == (StageView::Finished, ActionView::Send { message: plain("No?"@) }),
{
}

/// The warning stored after the notice is the one the command asked for: on the
/// command's server, for its target, with the reason given with the command.
pub proof fn law_stored_warning_keeps_reason(
    ctx: ContextView,
    server_id: Seq<char>,
    user: Seq<char>,
    reason: Option<Seq<char>>,
)
    ensures
        handle_step(
            ctx,
            StageView::AwaitNotice { server_id, user, reason },
            EventView::Completed,
        ) == (StageView::Finished, ActionView::RecordWarning { server_id, user_id: user, reason }),
{
}

/// Once the channel's server is known, the command goes on with the same
/// operation, target and reason and asks for the author's roles on that server;
/// outside a server it is answered with an error embed.
pub proof fn law_server_resolution_keeps_command(
    ctx: ContextView,
    operation: Seq<char>,
    user: Seq<char>,
    reason: Option<Seq<char>>,
    server_id: Option<Seq<char>>,
)
    ensures
        ({
            let r = handle_step(
                ctx,
                StageView::AwaitServer { operation, user, reason },
                EventView::ServerResolved { server_id },
            );
            &&& server_id matches Some(id) ==> r == (
                StageView::AwaitRoles { server_id: id, operation, user, reason },
                ActionView::FetchRoles { server_id: id },
            )
            &&& server_id is None ==> r == (
                StageView::Finished,
                ActionView::Send {
                    message: one_embed("Error! operation is only possible for a server"@),
                },
            )
        }),
{
}

/// A counted number of warnings is answered with an embed of its decimal
/// spelling followed by ` warning(s) for user`.
pub proof fn law_warning_count_answer(ctx: ContextView, count: nat)
    ensures
        handle_step(ctx, StageView::AwaitCount, EventView::WarningsCounted { count }) == (
            StageView::Finished,
            ActionView::Send { message: one_embed(decimal(count) + " warning(s) for user"@) },
        ),
{
}

/// A message that is exactly `<@BOT_ID>` is answered with the greeting that names
/// the prefix.
pub proof fn law_greeting(ctx: ContextView)
    ensures
        handle_step(
            ctx,
            StageView::Start,
            EventView::Received { content: Some("<@"@ + ctx.bot_id + ">"@) },
        ) == (
            StageView::Finished,
            ActionView::Send {
                message: plain(
                    "Hi! I'm Autoguard. my prefix is `"@ + ctx.prefix + "`. \nRun `"@ + ctx.prefix
                        + " help` for help!"@,
                ),
            },
        ),
{
}

/// A command of at least three words (the prefix among them) that is not `help`
/// or `links` goes on with its second word as the operation, its third word with
/// `<`, `>`, `@`, spaces and line breaks taken out as the target, and its fourth
/// word, if any, as the reason; it first asks for the channel's server.
pub proof fn law_command_words(ctx: ContextView, content: Seq<char>, words: Seq<Seq<char>>)
    requires
        words == split(content, " "@),
        words.contains(ctx.prefix),
        content != "<@"@ + ctx.bot_id + ">"@,
        words.len() > 2,
        words[1] != "help"@,
        words[1] != "links"@,
    ensures
        handle_step(ctx, StageView::Start, EventView::Received { content: Some(content) }) == (
            StageView::AwaitServer {
                operation: words[1],
                user: words[2].filter(|c: char| !seq!['<', '>', '@', ' ', '\n'].contains(c)),
                reason: if words.len() > 3 {
                    Some(words[3])
                } else {
                    None
                },
            },
            ActionView::ResolveServer,
        ),
{
    crate::text::law_without_chars_is_filter(words[2], mention_marks());
}

/// With the prefix among its words, `help` as the second word is answered with the
/// help page for that prefix, `links` with the links, and a shorter command of two
/// words or fewer is ignored.
pub proof fn law_quick_replies(ctx: ContextView, content: Seq<char>)
    requires
        split(content, " "@).contains(ctx.prefix),
        content != "<@"@ + ctx.bot_id + ">"@,
        split(content, " "@).len() > 1,
    ensures
        ({
            let words = split(content, " "@);
            let r = handle_step(ctx, StageView::Start, EventView::Received { content: Some(content) });
            &&& words[1] == "help"@ ==> r == (
                StageView::Finished,
                ActionView::Send { message: plain(help_text(ctx.prefix)) },
            )
            &&& words[1] == "links"@ ==> r == (
                StageView::Finished,
                ActionView::Send { message: plain(links_text()) },
            )
            &&& (words[1] != "help"@ && words[1] != "links"@ && words.len() <= 2) ==> r == (
                StageView::Finished,
                ActionView::Idle,
            )
        }),
{
    reveal_strlit("help");
    reveal_strlit("links");
    assert("help"@.len() != "links"@.len());
}

} // verus!
