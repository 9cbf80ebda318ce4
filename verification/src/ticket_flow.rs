//! The course of the `ticket` command: lodging a ticket opens a private channel for
//! its author, completing one archives that channel.

use vstd::prelude::*;
use crate::embed::{embed_text_message, title_embed, MessageView, OutgoingMessage};
use crate::events::on_message::is_text;
use crate::text::{clone_strings, opt_view, views};
use crate::ticket::{
    archive_ticket, archived, category_views, file_ticket,
    filed, find_role_id, last_role_named, occurrences, role_pairs, ticket_channel_name,
    ticket_name, Category, CategoryView, NamedRole,
};

verus! {

/// What stays fixed during one `ticket` command.
pub struct TicketContext {
    /// The author of the command.
    pub author: String,
    /// The channel the command was given in.
    pub channel: String,
    /// The name of the channel from which tickets are lodged.
    pub start_channel: String,
    /// The title of the category of open tickets.
    pub ticket_category: String,
    /// The title of the category of closed tickets.
    pub archive_category: String,
}

pub struct TicketContextView {
    pub author: Seq<char>,
    pub channel: Seq<char>,
    pub start_channel: Seq<char>,
    pub ticket_category: Seq<char>,
    pub archive_category: Seq<char>,
}

impl View for TicketContext {
    type V = TicketContextView;

    open spec fn view(&self) -> TicketContextView {
        TicketContextView {
            author: self.author@,
            channel: self.channel@,
            start_channel: self.start_channel@,
            ticket_category: self.ticket_category@,
            archive_category: self.archive_category@,
        }
    }
}

/// The point the command has reached; the name says what it waits for.
#[derive(PartialEq, Eq, Structural, Clone, Copy)]
pub enum Phase {
    Start,
    AwaitUser,
    AwaitTicketChannel,
    AwaitFirstPause,
    AwaitWaitNotice,
    AwaitServer,
    AwaitCategoriesSet,
    AwaitMember,
    AwaitSecondPause,
    AwaitRoles,
    AwaitRolePause,
    AwaitRoleCreated,
    AwaitMemberEdit,
    AwaitSelfEdit,
    AwaitGrantPause,
    AwaitUserAllowed,
    AwaitServerRoles,
    AwaitAdminAllowed,
    AwaitCreatedNotice,
    AwaitDefaultDenied,
    AwaitReadyNotice,
    AwaitCategories,
    AwaitName,
    AwaitRemovingNotice,
    AwaitArchived,
    AwaitCloserMember,
    AwaitCloserRoles,
    AwaitCloserDenied,
    AwaitArchiveEdit,
    Finished,
}

/// What the command has learned so far.
pub struct TicketData {
    /// The server of the channel.
    pub server: String,
    /// The id of the ticket's channel.
    pub ticket: String,
    /// The role ids of the author.
    pub member_roles: Vec<String>,
    /// The id of the author's own role.
    pub role: String,
    /// The server's categories, as fetched when completing.
    pub cats: Vec<Category>,
    /// The category being looked at when completing.
    pub index: usize,
}

pub struct TicketDataView {
    pub server: Seq<char>,
    pub ticket: Seq<char>,
    pub member_roles: Seq<Seq<char>>,
    pub role: Seq<char>,
    pub cats: Seq<CategoryView>,
    pub index: nat,
}

impl View for TicketData {
    type V = TicketDataView;

    open spec fn view(&self) -> TicketDataView {
        TicketDataView {
            server: self.server@,
            ticket: self.ticket@,
            member_roles: views(self.member_roles@),
            role: self.role@,
            cats: category_views(self.cats@),
            index: self.index as nat,
        }
    }
}

impl TicketData {
    /// Nothing learned yet.
    pub fn new() -> (d: TicketData)
        ensures
            d@ == (TicketDataView {
                server: seq![],
                ticket: seq![],
                member_roles: seq![],
                role: seq![],
                cats: seq![],
                index: 0,
            }),
    {
        let d = TicketData {
            server: String::new(),
            ticket: String::new(),
            member_roles: Vec::new(),
            role: String::new(),
            cats: Vec::new(),
            index: 0,
        };
        assert(d@.member_roles =~= seq![]);
        assert(d@.cats =~= seq![]);
        d
    }

    /// The index of the category being looked at stays within the categories.
    pub open spec fn wf(&self) -> bool {
        self.index <= self.cats.len()
    }
}

pub enum TicketEvent {
    /// The command starts: its operation word, the name of its channel when that is
    /// a text channel, and the channel's server.
    Begin { operation: String, channel_name: Option<String>, server_id: Option<String> },
    /// The last action was carried out.
    Completed,
    UserFetched { username: String, discriminator: String },
    ChannelCreated { id: String },
    /// The categories of the server, if it has any.
    ServerFetched { categories: Option<Vec<Category>> },
    /// The role ids of the author.
    MemberFetched { role_ids: Vec<String> },
    /// The roles of the author's role ids.
    RolesFetched { roles: Vec<NamedRole> },
    RoleCreated { id: String },
    /// All roles of the server, and the name of the admin role.
    ServerRolesFetched { roles: Vec<NamedRole>, admin_role: String },
    /// The name of the command's channel.
    ChannelNameFetched { name: Option<String> },
}

pub enum TicketEventView {
    Begin { operation: Seq<char>, channel_name: Option<Seq<char>>, server_id: Option<Seq<char>> },
    Completed,
    UserFetched { username: Seq<char>, discriminator: Seq<char> },
    ChannelCreated { id: Seq<char> },
    ServerFetched { categories: Option<Seq<CategoryView>> },
    MemberFetched { role_ids: Seq<Seq<char>> },
    RolesFetched { roles: Seq<(Seq<char>, Seq<char>)> },
    RoleCreated { id: Seq<char> },
    ServerRolesFetched { roles: Seq<(Seq<char>, Seq<char>)>, admin_role: Seq<char> },
    ChannelNameFetched { name: Option<Seq<char>> },
}

impl View for TicketEvent {
    type V = TicketEventView;

    open spec fn view(&self) -> TicketEventView {
        match self {
            TicketEvent::Begin { operation, channel_name, server_id } => TicketEventView::Begin {
                operation: operation@,
                channel_name: opt_view(*channel_name),
                server_id: opt_view(*server_id),
            },
            TicketEvent::Completed => TicketEventView::Completed,
            TicketEvent::UserFetched { username, discriminator } => TicketEventView::UserFetched {
                username: username@,
                discriminator: discriminator@,
            },
            TicketEvent::ChannelCreated { id } => TicketEventView::ChannelCreated { id: id@ },
            TicketEvent::ServerFetched { categories } => TicketEventView::ServerFetched {
                categories: match categories {
                    Some(c) => Some(category_views(c@)),
                    None => None,
                },
            },
            TicketEvent::MemberFetched { role_ids } => TicketEventView::MemberFetched {
                role_ids: views(role_ids@),
            },
            TicketEvent::RolesFetched { roles } => TicketEventView::RolesFetched {
                roles: role_pairs(roles@),
            },
            TicketEvent::RoleCreated { id } => TicketEventView::RoleCreated { id: id@ },
            TicketEvent::ServerRolesFetched { roles, admin_role } => TicketEventView::ServerRolesFetched {
                roles: role_pairs(roles@),
                admin_role: admin_role@,
            },
            TicketEvent::ChannelNameFetched { name } => TicketEventView::ChannelNameFetched {
                name: opt_view(*name),
            },
        }
    }
}

pub enum TicketAction {
    Idle,
    /// Fetch the author's user (for its name and discriminator).
    FetchUser,
    CreateChannel { server: String, name: String },
    /// Wait this many seconds.
    Pause { seconds: u64 },
    Send { channel: String, message: OutgoingMessage },
    FetchServer { server: String },
    /// Replace the server's categories.
    SetCategories { server: String, categories: Vec<Category> },
    /// Fetch the author's membership on the server.
    FetchMember { server: String },
    /// Fetch the roles with the ids `member_roles`.
    FetchRoles { server: String, member_roles: Vec<String> },
    CreateRole { server: String, name: String, rank: u64 },
    /// Give the author exactly these roles.
    SetMemberRoles { server: String, roles: Vec<String> },
    /// Give the bot itself the role.
    AddRoleToSelf { server: String, role: String },
    /// Let the role view, write in, read the history of and manage the channel.
    AllowRole { channel: String, role: String },
    /// Keep everyone else from viewing and writing in the channel.
    DenyEveryone { channel: String },
    /// Fetch the name of the command's channel.
    FetchChannelName,
    /// Archive the command's channel.
    ArchiveChannel,
    /// Keep the role from writing in, reading the history of and managing the channel.
    DenyRole { channel: String, role: String },
}

pub enum TicketActionView {
    Idle,
    FetchUser,
    CreateChannel { server: Seq<char>, name: Seq<char> },
    Pause { seconds: nat },
    Send { channel: Seq<char>, message: MessageView },
    FetchServer { server: Seq<char> },
    SetCategories { server: Seq<char>, categories: Seq<CategoryView> },
    FetchMember { server: Seq<char> },
    FetchRoles { server: Seq<char>, member_roles: Seq<Seq<char>> },
    CreateRole { server: Seq<char>, name: Seq<char>, rank: nat },
    SetMemberRoles { server: Seq<char>, roles: Seq<Seq<char>> },
    AddRoleToSelf { server: Seq<char>, role: Seq<char> },
    AllowRole { channel: Seq<char>, role: Seq<char> },
    DenyEveryone { channel: Seq<char> },
    FetchChannelName,
    ArchiveChannel,
    DenyRole { channel: Seq<char>, role: Seq<char> },
}

impl View for TicketAction {
    type V = TicketActionView;

    open spec fn view(&self) -> TicketActionView {
        match self {
            TicketAction::Idle => TicketActionView::Idle,
            TicketAction::FetchUser => TicketActionView::FetchUser,
            TicketAction::CreateChannel { server, name } => TicketActionView::CreateChannel {
                server: server@,
                name: name@,
            },
            TicketAction::Pause { seconds } => TicketActionView::Pause { seconds: *seconds as nat },
            TicketAction::Send { channel, message } => TicketActionView::Send {
                channel: channel@,
                message: message@,
            },
            TicketAction::FetchServer { server } => TicketActionView::FetchServer { server: server@ },
            TicketAction::SetCategories { server, categories } => TicketActionView::SetCategories {
                server: server@,
                categories: category_views(categories@),
            },
            TicketAction::FetchMember { server } => TicketActionView::FetchMember { server: server@ },
            TicketAction::FetchRoles { server, member_roles } => TicketActionView::FetchRoles {
                server: server@,
                member_roles: views(member_roles@),
            },
            TicketAction::CreateRole { server, name, rank } => TicketActionView::CreateRole {
                server: server@,
                name: name@,
                rank: *rank as nat,
            },
            TicketAction::SetMemberRoles { server, roles } => TicketActionView::SetMemberRoles {
                server: server@,
                roles: views(roles@),
            },
            TicketAction::AddRoleToSelf { server, role } => TicketActionView::AddRoleToSelf {
                server: server@,
                role: role@,
            },
            TicketAction::AllowRole { channel, role } => TicketActionView::AllowRole {
                channel: channel@,
                role: role@,
            },
            TicketAction::DenyEveryone { channel } => TicketActionView::DenyEveryone {
                channel: channel@,
            },
            TicketAction::FetchChannelName => TicketActionView::FetchChannelName,
            TicketAction::ArchiveChannel => TicketActionView::ArchiveChannel,
            TicketAction::DenyRole { channel, role } => TicketActionView::DenyRole {
                channel: channel@,
                role: role@,
            },
        }
    }
}

/// The first category at or after `from` that lists `channel`, or -1.
pub open spec fn next_holding(cats: Seq<CategoryView>, channel: Seq<char>, from: int) -> int
    decreases cats.len() - from,
{
    if from < 0 || from >= cats.len() {
        -1
    } else if cats[from].channels.contains(channel) {
        from
    } else {
        next_holding(cats, channel, from + 1)
    }
}

/// The text shown in a new ticket's channel while it is being set up.
pub open spec fn wait_text() -> Seq<char> {
    "This will take a while..."@
}

/// The text shown in a ticket's channel once it is set up.
pub open spec fn created_text() -> Seq<char> {
    "Ticket Successfully created\nPlease wait for a moderator"@
}

/// The text shown before a ticket is archived.
pub open spec fn removing_text() -> Seq<char> {
    "Removing..."@
}

/// The answer in the command's channel: a link to the ticket, a hidden mention of
/// the author, and an embed saying that the ticket is ready.
pub open spec fn ready_message(ticket: Seq<char>, author: Seq<char>) -> MessageView {
    MessageView {
        content: Some("<#"@ + ticket + ">\n[](<@"@ + author + ">)"@),
        embeds: seq![title_embed("The ticket is ready"@)],
        replies: seq![],
    }
}

/// The look at the next category that lists the command's channel, from `from` on;
/// done when there is none.
pub open spec fn scan_from(ctx: TicketContextView, d: TicketDataView, from: int) -> (
    Phase,
    TicketDataView,
    TicketActionView,
) {
    let j = next_holding(d.cats, ctx.channel, from);
    if j < 0 {
        (Phase::Finished, d, TicketActionView::Idle)
    } else {
        (Phase::AwaitName, TicketDataView { index: j as nat, ..d }, TicketActionView::FetchChannelName)
    }
}

/// One step of the `ticket` command.
pub open spec fn ticket_step(
    ctx: TicketContextView,
    phase: Phase,
    d: TicketDataView,
    e: TicketEventView,
) -> (Phase, TicketDataView, TicketActionView) {
    let idle = (Phase::Finished, d, TicketActionView::Idle);
    match (phase, e) {
        (Phase::Start, TicketEventView::Begin { operation, channel_name, server_id }) => {
            if operation == "lodge"@ {
                if channel_name == Some(ctx.start_channel) {
                    (
                        Phase::AwaitUser,
                        TicketDataView { server: server_id->0, ..d },
                        TicketActionView::FetchUser,
                    )
                } else {
                    idle
                }
            } else if operation == "complete"@ {
                (
                    Phase::AwaitCategories,
                    TicketDataView { server: server_id->0, ..d },
                    TicketActionView::FetchServer { server: server_id->0 },
                )
            } else {
                idle
            }
        },
        (Phase::AwaitUser, TicketEventView::UserFetched { username, discriminator }) => (
            Phase::AwaitTicketChannel,
            d,
            TicketActionView::CreateChannel {
                server: d.server,
                name: ticket_channel_name(username, discriminator),
            },
        ),
        (Phase::AwaitTicketChannel, TicketEventView::ChannelCreated { id }) => (
            Phase::AwaitFirstPause,
            TicketDataView { ticket: id, ..d },
            TicketActionView::Pause { seconds: 5 },
        ),
        (Phase::AwaitFirstPause, TicketEventView::Completed) => (
            Phase::AwaitWaitNotice,
            d,
            TicketActionView::Send { channel: d.ticket, message: embed_text_message(wait_text()) },
        ),
        (Phase::AwaitWaitNotice, TicketEventView::Completed) => (
            Phase::AwaitServer,
            d,
            TicketActionView::FetchServer { server: d.server },
        ),
        (Phase::AwaitServer, TicketEventView::ServerFetched { categories }) => match categories {
            None => idle,
            Some(cats) => match filed(cats, ctx.ticket_category, d.ticket) {
                None => idle,
                Some(new_cats) => (
                    Phase::AwaitCategoriesSet,
                    d,
                    TicketActionView::SetCategories { server: d.server, categories: new_cats },
                ),
            },
        },
        (Phase::AwaitCategoriesSet, TicketEventView::Completed) => (
            Phase::AwaitMember,
            d,
            TicketActionView::FetchMember { server: d.server },
        ),
        (Phase::AwaitMember, TicketEventView::MemberFetched { role_ids }) => (
            Phase::AwaitSecondPause,
            TicketDataView { member_roles: role_ids, ..d },
            TicketActionView::Pause { seconds: 4 },
        ),
        (Phase::AwaitSecondPause, TicketEventView::Completed) => (
            Phase::AwaitRoles,
            d,
            TicketActionView::FetchRoles { server: d.server, member_roles: d.member_roles },
        ),
        (Phase::AwaitRoles, TicketEventView::RolesFetched { roles }) => {
            let r = last_role_named(roles, ctx.author);
            if r.len() == 0 {
                (Phase::AwaitRolePause, d, TicketActionView::Pause { seconds: 10 })
            } else {
                (
                    Phase::AwaitGrantPause,
                    TicketDataView { role: r, ..d },
                    TicketActionView::Pause { seconds: 10 },
                )
            }
        },
        (Phase::AwaitRolePause, TicketEventView::Completed) => (
            Phase::AwaitRoleCreated,
            d,
            TicketActionView::CreateRole { server: d.server, name: ctx.author, rank: 100 },
        ),
        (Phase::AwaitRoleCreated, TicketEventView::RoleCreated { id }) => (
            Phase::AwaitMemberEdit,
            TicketDataView { role: id, member_roles: d.member_roles.push(id), ..d },
            TicketActionView::SetMemberRoles { server: d.server, roles: d.member_roles.push(id) },
        ),
        (Phase::AwaitMemberEdit, TicketEventView::Completed) => (
            Phase::AwaitSelfEdit,
            d,
            TicketActionView::AddRoleToSelf { server: d.server, role: d.role },
        ),
        (Phase::AwaitSelfEdit, TicketEventView::Completed) => (
            Phase::AwaitGrantPause,
            d,
            TicketActionView::Pause { seconds: 10 },
        ),
        (Phase::AwaitGrantPause, TicketEventView::Completed) => (
            Phase::AwaitUserAllowed,
            d,
            TicketActionView::AllowRole { channel: d.ticket, role: d.role },
        ),
        (Phase::AwaitUserAllowed, TicketEventView::Completed) => (
            Phase::AwaitServerRoles,
            d,
            TicketActionView::FetchServer { server: d.server },
        ),
        (Phase::AwaitServerRoles, TicketEventView::ServerRolesFetched { roles, admin_role }) => {
            let a = last_role_named(roles, admin_role);
            if a.len() > 0 {
                (Phase::AwaitAdminAllowed, d, TicketActionView::AllowRole { channel: d.ticket, role: a })
            } else {
                (
                    Phase::AwaitCreatedNotice,
                    d,
                    TicketActionView::Send {
                        channel: d.ticket,
                        message: embed_text_message(created_text()),
                    },
                )
            }
        },
        (Phase::AwaitAdminAllowed, TicketEventView::Completed) => (
            Phase::AwaitCreatedNotice,
            d,
            TicketActionView::Send { channel: d.ticket, message: embed_text_message(created_text()) },
        ),
        (Phase::AwaitCreatedNotice, TicketEventView::Completed) => (
            Phase::AwaitDefaultDenied,
            d,
            TicketActionView::DenyEveryone { channel: d.ticket },
        ),
        (Phase::AwaitDefaultDenied, TicketEventView::Completed) => (
            Phase::AwaitReadyNotice,
            d,
            TicketActionView::Send { channel: ctx.channel, message: ready_message(d.ticket, ctx.author) },
        ),
        (Phase::AwaitCategories, TicketEventView::ServerFetched { categories }) => match categories {
            None => idle,
            Some(cats) => scan_from(ctx, TicketDataView { cats, index: 0, ..d }, 0),
        },
        (Phase::AwaitName, TicketEventView::ChannelNameFetched { name }) => {
            if name != Some(ctx.start_channel) {
                (
                    Phase::AwaitRemovingNotice,
                    d,
                    TicketActionView::Send {
                        channel: ctx.channel,
                        message: embed_text_message(removing_text()),
                    },
                )
            } else {
                scan_from(ctx, d, d.index + 1int)
            }
        },
        (Phase::AwaitRemovingNotice, TicketEventView::Completed) => (
            Phase::AwaitArchived,
            d,
            TicketActionView::ArchiveChannel,
        ),
        (Phase::AwaitArchived, TicketEventView::Completed) => (
            Phase::AwaitCloserMember,
            d,
            TicketActionView::FetchMember { server: d.server },
        ),
        (Phase::AwaitCloserMember, TicketEventView::MemberFetched { role_ids }) => (
            Phase::AwaitCloserRoles,
            TicketDataView { member_roles: role_ids, ..d },
            TicketActionView::FetchRoles { server: d.server, member_roles: role_ids },
        ),
        (Phase::AwaitCloserRoles, TicketEventView::RolesFetched { roles }) => {
            let r = last_role_named(roles, ctx.author);
            (
                Phase::AwaitCloserDenied,
                TicketDataView { role: r, ..d },
                TicketActionView::DenyRole { channel: ctx.channel, role: r },
            )
        },
        (Phase::AwaitCloserDenied, TicketEventView::Completed) => (
            Phase::AwaitArchiveEdit,
            d,
            TicketActionView::SetCategories {
                server: d.server,
                categories: archived(
                    d.cats,
                    ctx.channel,
                    ctx.archive_category,
                    ctx.ticket_category,
                )->0,
            },
        ),
        (Phase::AwaitArchiveEdit, TicketEventView::Completed) => scan_from(ctx, d, d.index + 1int),
        _ => idle,
    }
}

/// What the `ticket` command needs in order not to panic at this step: a server
/// for a channel that lodges or completes, and an archiving that the original can
/// carry out.
pub open spec fn ticket_step_ok(
    ctx: TicketContextView,
    phase: Phase,
    d: TicketDataView,
    e: TicketEventView,
) -> bool {
    &&& match e {
        TicketEventView::Begin { operation, channel_name, server_id } => (phase == Phase::Start && (
        (operation == "lodge"@ && channel_name == Some(ctx.start_channel)) || operation
            == "complete"@)) ==> server_id is Some,
        _ => true,
    }
    &&& (phase == Phase::AwaitCloserDenied && e is Completed) ==> {
        &&& archived(d.cats, ctx.channel, ctx.archive_category, ctx.ticket_category) is Some
        &&& occurrences(d.cats, ctx.channel) <= u64::MAX
    }
}

fn next_holding_exec(cats: &Vec<Category>, channel: &String, from: usize) -> (r: Option<usize>)
    requires
        from <= cats.len(),
    ensures
        match r {
            Some(j) => j as int == next_holding(category_views(cats@), channel@, from as int),
            None => next_holding(category_views(cats@), channel@, from as int) < 0,
        },
{
    let ghost cv = category_views(cats@);
    let mut i = from;
    while i < cats.len()
        invariant
            from <= i <= cats.len(),
            cv == category_views(cats@),
            next_holding(cv, channel@, from as int) == next_holding(cv, channel@, i as int),
        decreases cats.len() - i,
    {
        assert(cv[i as int] == cats@[i as int]@);
        if crate::text::contains_string(&cats[i].channels, channel) {
            return Some(i);
        }
        i = i + 1;
    }
    None
}

fn scan(ctx: &TicketContext, d: TicketData, from: usize) -> (r: (Phase, TicketData, TicketAction))
    requires
        from <= d.cats.len(),
        d.wf(),
    ensures
        (r.0, r.1@, r.2@) == scan_from(ctx@, d@, from as int),
        r.1.wf(),
{
    match next_holding_exec(&d.cats, &ctx.channel, from) {
        None => (Phase::Finished, d, TicketAction::Idle),
        Some(j) => {
            proof {
                lemma_next_holding_bounds(category_views(d.cats@), ctx.channel@, from as int);
            }
            (Phase::AwaitName, TicketData { index: j, ..d }, TicketAction::FetchChannelName)
        },
    }
}

proof fn lemma_next_holding_bounds(cats: Seq<CategoryView>, channel: Seq<char>, from: int)
    ensures
        next_holding(cats, channel, from) < 0 || (from <= next_holding(cats, channel, from)
            < cats.len()),
    decreases cats.len() - from,
{
    if 0 <= from < cats.len() && !cats[from].channels.contains(channel) {
        lemma_next_holding_bounds(cats, channel, from + 1);
    }
}

fn ready_of(ticket: &String, author: &String) -> (m: OutgoingMessage)
    ensures
        m@ == ready_message(ticket@, author@),
{
    let mut s = String::from_str("<#");
    s.append(ticket.as_str());
    s.append(">\n[](<@");
    s.append(author.as_str());
    s.append(">)");
    let mut m = OutgoingMessage::text(s);
    m.add_embed_text(String::from_str("The ticket is ready"));
    assert(m@.embeds =~= seq![title_embed("The ticket is ready"@)]);
    m
}

/// One step of `ticket::process` (lodging) and `ticket_complete` (completing): the
/// next phase, what is known, and what to do.
pub fn step(ctx: &TicketContext, phase: Phase, d: TicketData, e: TicketEvent) -> (r: (
    Phase,
    TicketData,
    TicketAction,
))
    requires
        d.wf(),
        ticket_step_ok(ctx@, phase, d@, e@),
    ensures
        (r.0, r.1@, r.2@) == ticket_step(ctx@, phase, d@, e@),
        r.1.wf(),
{
    let ghost dv = d@;
    match (phase, e) {
        (Phase::Start, TicketEvent::Begin { operation, channel_name, server_id }) => {
            if is_text(&operation, "lodge") {
                let allowed = match &channel_name {
                    Some(n) => *n == ctx.start_channel,
                    None => false,
                };
                if allowed {
                    let server = server_id.unwrap();
                    (Phase::AwaitUser, TicketData { server, ..d }, TicketAction::FetchUser)
                } else {
                    (Phase::Finished, d, TicketAction::Idle)
                }
            } else if is_text(&operation, "complete") {
                let server = server_id.unwrap();
                let fetch = server.clone();
                (
                    Phase::AwaitCategories,
                    TicketData { server, ..d },
                    TicketAction::FetchServer { server: fetch },
                )
            } else {
                (Phase::Finished, d, TicketAction::Idle)
            }
        },
        (Phase::AwaitUser, TicketEvent::UserFetched { username, discriminator }) => {
            let name = ticket_name(username.as_str(), discriminator.as_str());
            let server = d.server.clone();
            (Phase::AwaitTicketChannel, d, TicketAction::CreateChannel { server, name })
        },
        (Phase::AwaitTicketChannel, TicketEvent::ChannelCreated { id }) => {
            (Phase::AwaitFirstPause, TicketData { ticket: id, ..d }, TicketAction::Pause { seconds: 5 })
        },
        (Phase::AwaitFirstPause, TicketEvent::Completed) => {
            let m = OutgoingMessage::embed_text(String::from_str("This will take a while..."));
            let channel = d.ticket.clone();
            (Phase::AwaitWaitNotice, d, TicketAction::Send { channel, message: m })
        },
        (Phase::AwaitWaitNotice, TicketEvent::Completed) => {
            let server = d.server.clone();
            (Phase::AwaitServer, d, TicketAction::FetchServer { server })
        },
        (Phase::AwaitServer, TicketEvent::ServerFetched { categories }) => match categories {
            None => (Phase::Finished, d, TicketAction::Idle),
            Some(cats) => match file_ticket(&cats, ctx.ticket_category.as_str(), d.ticket.as_str()) {
                None => (Phase::Finished, d, TicketAction::Idle),
                Some(new_cats) => {
                    let server = d.server.clone();
                    (
                        Phase::AwaitCategoriesSet,
                        d,
                        TicketAction::SetCategories { server, categories: new_cats },
                    )
                },
            },
        },
        (Phase::AwaitCategoriesSet, TicketEvent::Completed) => {
            let server = d.server.clone();
            (Phase::AwaitMember, d, TicketAction::FetchMember { server })
        },
        (Phase::AwaitMember, TicketEvent::MemberFetched { role_ids }) => {
            (
                Phase::AwaitSecondPause,
                TicketData { member_roles: role_ids, ..d },
                TicketAction::Pause { seconds: 4 },
            )
        },
        (Phase::AwaitSecondPause, TicketEvent::Completed) => {
            let server = d.server.clone();
            let member_roles = clone_strings(&d.member_roles);
            (Phase::AwaitRoles, d, TicketAction::FetchRoles { server, member_roles })
        },
        (Phase::AwaitRoles, TicketEvent::RolesFetched { roles }) => {
            let r = find_role_id(&roles, &ctx.author);
            if r.unicode_len() == 0 {
                (Phase::AwaitRolePause, d, TicketAction::Pause { seconds: 10 })
            } else {
                (Phase::AwaitGrantPause, TicketData { role: r, ..d }, TicketAction::Pause { seconds: 10 })
            }
        },
        (Phase::AwaitRolePause, TicketEvent::Completed) => {
            let server = d.server.clone();
            let name = ctx.author.clone();
            (Phase::AwaitRoleCreated, d, TicketAction::CreateRole { server, name, rank: 100 })
        },
        (Phase::AwaitRoleCreated, TicketEvent::RoleCreated { id }) => {
            let mut member_roles = d.member_roles;
            let ghost before = views(member_roles@);
            member_roles.push(id.clone());
            assert(views(member_roles@) =~= before.push(id@));
            let roles = clone_strings(&member_roles);
            let server = d.server.clone();
            (
                Phase::AwaitMemberEdit,
                TicketData { role: id, member_roles, ..d },
                TicketAction::SetMemberRoles { server, roles },
            )
        },
        (Phase::AwaitMemberEdit, TicketEvent::Completed) => {
            let server = d.server.clone();
            let role = d.role.clone();
            (Phase::AwaitSelfEdit, d, TicketAction::AddRoleToSelf { server, role })
        },
        (Phase::AwaitSelfEdit, TicketEvent::Completed) => {
            (Phase::AwaitGrantPause, d, TicketAction::Pause { seconds: 10 })
        },
        (Phase::AwaitGrantPause, TicketEvent::Completed) => {
            let channel = d.ticket.clone();
            let role = d.role.clone();
            (Phase::AwaitUserAllowed, d, TicketAction::AllowRole { channel, role })
        },
        (Phase::AwaitUserAllowed, TicketEvent::Completed) => {
            let server = d.server.clone();
            (Phase::AwaitServerRoles, d, TicketAction::FetchServer { server })
        },
        (Phase::AwaitServerRoles, TicketEvent::ServerRolesFetched { roles, admin_role }) => {
            let a = find_role_id(&roles, &admin_role);
            let channel = d.ticket.clone();
            if a.unicode_len() > 0 {
                (Phase::AwaitAdminAllowed, d, TicketAction::AllowRole { channel, role: a })
            } else {
                let m = OutgoingMessage::embed_text(
                    String::from_str("Ticket Successfully created\nPlease wait for a moderator"),
                );
                (Phase::AwaitCreatedNotice, d, TicketAction::Send { channel, message: m })
            }
        },
        (Phase::AwaitAdminAllowed, TicketEvent::Completed) => {
            let m = OutgoingMessage::embed_text(
                String::from_str("Ticket Successfully created\nPlease wait for a moderator"),
            );
            let channel = d.ticket.clone();
            (Phase::AwaitCreatedNotice, d, TicketAction::Send { channel, message: m })
        },
        (Phase::AwaitCreatedNotice, TicketEvent::Completed) => {
            let channel = d.ticket.clone();
            (Phase::AwaitDefaultDenied, d, TicketAction::DenyEveryone { channel })
        },
        (Phase::AwaitDefaultDenied, TicketEvent::Completed) => {
            let m = ready_of(&d.ticket, &ctx.author);
            let channel = ctx.channel.clone();
            (Phase::AwaitReadyNotice, d, TicketAction::Send { channel, message: m })
        },
        (Phase::AwaitCategories, TicketEvent::ServerFetched { categories }) => match categories {
            None => (Phase::Finished, d, TicketAction::Idle),
            Some(cats) => scan(ctx, TicketData { cats, index: 0, ..d }, 0),
        },
        (Phase::AwaitName, TicketEvent::ChannelNameFetched { name }) => {
            let is_start = match &name {
                Some(n) => *n == ctx.start_channel,
                None => false,
            };
            if !is_start {
                let m = OutgoingMessage::embed_text(String::from_str("Removing..."));
                let channel = ctx.channel.clone();
                (Phase::AwaitRemovingNotice, d, TicketAction::Send { channel, message: m })
            } else if d.index < d.cats.len() {
                let from = d.index + 1;
                scan(ctx, d, from)
            } else {
                let from = d.index;
                proof {
                    assert(next_holding(dv.cats, ctx.channel@, dv.index + 1int) == -1);
                    assert(next_holding(dv.cats, ctx.channel@, from as int) == -1);
                }
                scan(ctx, d, from)
            }
        },
        (Phase::AwaitRemovingNotice, TicketEvent::Completed) => {
            (Phase::AwaitArchived, d, TicketAction::ArchiveChannel)
        },
        (Phase::AwaitArchived, TicketEvent::Completed) => {
            let server = d.server.clone();
            (Phase::AwaitCloserMember, d, TicketAction::FetchMember { server })
        },
        (Phase::AwaitCloserMember, TicketEvent::MemberFetched { role_ids }) => {
            let server = d.server.clone();
            let member_roles = clone_strings(&role_ids);
            (
                Phase::AwaitCloserRoles,
                TicketData { member_roles: role_ids, ..d },
                TicketAction::FetchRoles { server, member_roles },
            )
        },
        (Phase::AwaitCloserRoles, TicketEvent::RolesFetched { roles }) => {
            let r = find_role_id(&roles, &ctx.author);
            let role = r.clone();
            let channel = ctx.channel.clone();
            (Phase::AwaitCloserDenied, TicketData { role: r, ..d }, TicketAction::DenyRole { channel, role })
        },
        (Phase::AwaitCloserDenied, TicketEvent::Completed) => {
            let categories = archive_ticket(
                &d.cats,
                &ctx.channel,
                &ctx.archive_category,
                &ctx.ticket_category,
            );
            let server = d.server.clone();
            (Phase::AwaitArchiveEdit, d, TicketAction::SetCategories { server, categories })
        },
        (Phase::AwaitArchiveEdit, TicketEvent::Completed) => {
            if d.index < d.cats.len() {
                let from = d.index + 1;
                scan(ctx, d, from)
            } else {
                let from = d.index;
                proof {
                    assert(next_holding(dv.cats, ctx.channel@, dv.index + 1int) == -1);
                    assert(next_holding(dv.cats, ctx.channel@, from as int) == -1);
                }
                scan(ctx, d, from)
            }
        },
        _ => (Phase::Finished, d, TicketAction::Idle),
    }
}

/// A ticket is lodged only from the text channel named as the start channel: from
/// anywhere else the command does nothing.
pub proof fn law_lodge_only_from_start_channel(
    ctx: TicketContextView,
    d: TicketDataView,
    channel_name: Option<Seq<char>>,
    server_id: Option<Seq<char>>,
)
    requires
        channel_name != Some(ctx.start_channel),
    ensures
        ticket_step(
            ctx,
            Phase::Start,
            d,
            TicketEventView::Begin { operation: "lodge"@, channel_name, server_id },
        ) == (Phase::Finished, d, TicketActionView::Idle),
{
}

/// When completing, the categories written back are always the archived ones, and
/// only the author's own role is shut out of the channel.
pub proof fn law_completion_writes_archive(
    ctx: TicketContextView,
    phase: Phase,
    d: TicketDataView,
    e: TicketEventView,
)
    requires
        phase == Phase::AwaitCloserDenied || phase == Phase::AwaitCloserRoles,
    ensures
        ({
            let r = ticket_step(ctx, phase, d, e);
            &&& r.2 matches TicketActionView::SetCategories { server, categories } ==> categories
                == archived(d.cats, ctx.channel, ctx.archive_category, ctx.ticket_category)->0
            &&& r.2 matches TicketActionView::DenyRole { channel, role } ==> {
                &&& channel == ctx.channel
                &&& e matches TicketEventView::RolesFetched { roles }
                &&& role == last_role_named(roles, ctx.author)
            }
        }),
{
}

/// Every permission change while lodging concerns the ticket's channel; the only
/// permission change while completing concerns the command's channel; the
/// ticket's notices go to the ticket's channel.
pub proof fn law_channels_of_actions(
    ctx: TicketContextView,
    phase: Phase,
    d: TicketDataView,
    e: TicketEventView,
)
    ensures
        ticket_step(ctx, phase, d, e).2 matches TicketActionView::DenyEveryone { channel } ==> channel
            == d.ticket,
        ticket_step(ctx, phase, d, e).2 matches TicketActionView::AllowRole { channel, role }
            ==> channel == d.ticket,
        ticket_step(ctx, phase, d, e).2 matches TicketActionView::DenyRole { channel, role } ==> channel
            == ctx.channel,
        (phase == Phase::AwaitFirstPause || phase == Phase::AwaitServerRoles || phase
            == Phase::AwaitAdminAllowed) ==> (ticket_step(ctx, phase, d, e).2 matches TicketActionView::Send {
            channel,
            message,
        } ==> channel == d.ticket),
        (phase == Phase::AwaitDefaultDenied || phase == Phase::AwaitName) ==> (ticket_step(
            ctx,
            phase,
            d,
            e,
        ).2 matches TicketActionView::Send { channel, message } ==> channel == ctx.channel),
{
}

/// The ticket's channel is the one the chat reported as created, and it stays so
/// for the rest of the command.
pub proof fn law_ticket_is_created_channel(
    ctx: TicketContextView,
    phase: Phase,
    d: TicketDataView,
    e: TicketEventView,
)
    ensures
        phase != Phase::AwaitTicketChannel ==> ticket_step(ctx, phase, d, e).1.ticket == d.ticket,
        phase == Phase::AwaitTicketChannel ==> (e matches TicketEventView::ChannelCreated { id } ==> {
            &&& ticket_step(ctx, phase, d, e).1.ticket == id
            &&& ticket_step(ctx, phase, d, e).2 == TicketActionView::Pause { seconds: 5 }
        }),
{
}

/// The new ticket's channel is named `Issue-USERNAME-DISCRIMINATOR` of the author
/// and made on the command's server.
pub proof fn law_ticket_channel_name(
    ctx: TicketContextView,
    d: TicketDataView,
    username: Seq<char>,
    discriminator: Seq<char>,
)
    ensures
        ticket_step(
            ctx,
            Phase::AwaitUser,
            d,
            TicketEventView::UserFetched { username, discriminator },
        ).2 == (TicketActionView::CreateChannel {
            server: d.server,
            name: "Issue-"@ + username + "-"@ + discriminator,
        }),
{
}

/// The roles looked up are those of the author's membership just fetched, both
/// when lodging and when completing; a role created for the author is added to
/// them.
pub proof fn law_roles_are_the_members(
    ctx: TicketContextView,
    d: TicketDataView,
    role_ids: Seq<Seq<char>>,
    id: Seq<char>,
)
    ensures
        ticket_step(ctx, Phase::AwaitCloserMember, d, TicketEventView::MemberFetched { role_ids }).2
            == (TicketActionView::FetchRoles { server: d.server, member_roles: role_ids }),
        ticket_step(ctx, Phase::AwaitMember, d, TicketEventView::MemberFetched { role_ids }).1.member_roles
            == role_ids,
        ticket_step(ctx, Phase::AwaitSecondPause, d, TicketEventView::Completed).2
            == (TicketActionView::FetchRoles { server: d.server, member_roles: d.member_roles }),
        ticket_step(ctx, Phase::AwaitRoleCreated, d, TicketEventView::RoleCreated { id }).2
            == (TicketActionView::SetMemberRoles { server: d.server, roles: d.member_roles.push(id) }),
        ticket_step(ctx, Phase::AwaitRoleCreated, d, TicketEventView::RoleCreated { id }).1.role == id,
{
}

/// The author's own role is the last role of the fetched ones named after the
/// author: when completing it is the role shut out of the channel; when lodging it
/// is the role let into the ticket, and a new role is made when there is none.
pub proof fn law_author_role(
    ctx: TicketContextView,
    d: TicketDataView,
    roles: Seq<(Seq<char>, Seq<char>)>,
)
    ensures
        ticket_step(ctx, Phase::AwaitCloserRoles, d, TicketEventView::RolesFetched { roles }).2
            == (TicketActionView::DenyRole {
            channel: ctx.channel,
            role: last_role_named(roles, ctx.author),
        }),
        (forall|i: int| 0 <= i < roles.len() ==> #[trigger] roles[i].1 != ctx.author) ==> ticket_step(
            ctx,
            Phase::AwaitRoles,
            d,
            TicketEventView::RolesFetched { roles },
        ).0 == Phase::AwaitRolePause,
        (exists|i: int| 0 <= i < roles.len() && #[trigger] roles[i].1 == ctx.author && roles[i].0.len()
            > 0 && forall|j: int| i < j < roles.len() ==> #[trigger] roles[j].1 != ctx.author) ==> {
            let r = ticket_step(ctx, Phase::AwaitRoles, d, TicketEventView::RolesFetched { roles });
            &&& r.0 == Phase::AwaitGrantPause
            &&& exists|i: int| 0 <= i < roles.len() && #[trigger] roles[i].1 == ctx.author && roles[i].0
                == r.1.role
        },
        ticket_step(ctx, Phase::AwaitGrantPause, d, TicketEventView::Completed).2
            == (TicketActionView::AllowRole { channel: d.ticket, role: d.role }),
{
    crate::ticket::law_last_role_named(roles, ctx.author);
    if exists|i: int| 0 <= i < roles.len() && #[trigger] roles[i].1 == ctx.author && roles[i].0.len()
        > 0 && forall|j: int| i < j < roles.len() ==> #[trigger] roles[j].1 != ctx.author {
        let i = choose|i: int| 0 <= i < roles.len() && #[trigger] roles[i].1 == ctx.author
            && roles[i].0.len() > 0 && forall|j: int| i < j < roles.len() ==> #[trigger] roles[j].1
            != ctx.author;
        let k = choose|k: int| 0 <= k < roles.len() && #[trigger] roles[k].1 == ctx.author && roles[k].0
            == last_role_named(roles, ctx.author) && forall|j: int|
            k < j < roles.len() ==> #[trigger] roles[j].1 != ctx.author;
        if k < i {
            assert(roles[i].1 != ctx.author);
        } else if i < k {
            assert(roles[k].1 != ctx.author);
        }
    }
}

/// When completing, a channel other than the start channel is announced as being
/// removed in the command's channel; the start channel itself is skipped.
pub proof fn law_completion_skips_start_channel(ctx: TicketContextView, d: TicketDataView)
    ensures
        ticket_step(
            ctx,
            Phase::AwaitName,
            d,
            TicketEventView::ChannelNameFetched { name: Some(ctx.start_channel) },
        ).0 != Phase::AwaitRemovingNotice,
{
    lemma_scan_from_phase(ctx, d, d.index + 1int);
}

proof fn lemma_scan_from_phase(ctx: TicketContextView, d: TicketDataView, from: int)
    ensures
        scan_from(ctx, d, from).0 == Phase::Finished || scan_from(ctx, d, from).0 == Phase::AwaitName,
{
}

/// The texts of the ticket command: the ticket's channel is told
/// `This will take a while...` while it is set up and
/// `Ticket Successfully created\nPlease wait for a moderator` once it is; the
/// command's channel gets a link to the ticket, a hidden mention of the author and
/// an embed `The ticket is ready`; completing announces `Removing...` there.
pub proof fn law_ticket_texts(ctx: TicketContextView, d: TicketDataView, name: Option<Seq<char>>)
    ensures
        ticket_step(ctx, Phase::AwaitFirstPause, d, TicketEventView::Completed).2
            == (TicketActionView::Send {
            channel: d.ticket,
            message: crate::events::on_message::one_embed("This will take a while..."@),
        }),
        ticket_step(ctx, Phase::AwaitAdminAllowed, d, TicketEventView::Completed).2
            == (TicketActionView::Send {
            channel: d.ticket,
            message: crate::events::on_message::one_embed(
                "Ticket Successfully created\nPlease wait for a moderator"@,
            ),
        }),
        ticket_step(ctx, Phase::AwaitDefaultDenied, d, TicketEventView::Completed).2
            == (TicketActionView::Send {
            channel: ctx.channel,
            message: MessageView {
                content: Some("<#"@ + d.ticket + ">\n[](<@"@ + ctx.author + ">)"@),
                embeds: seq![
                    crate::embed::EmbedView {
                        title: Some("The ticket is ready"@),
                        description: None,
                        colour: None,
                    },
                ],
                replies: seq![],
            },
        }),
        name != Some(ctx.start_channel) ==> ticket_step(
            ctx,
            Phase::AwaitName,
            d,
            TicketEventView::ChannelNameFetched { name },
        ).2 == (TicketActionView::Send {
            channel: ctx.channel,
            message: crate::events::on_message::one_embed("Removing..."@),
        }),
{
}

} // verus!
