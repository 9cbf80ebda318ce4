use autoguard::ticket::{Category, NamedRole};
use autoguard::ticket_flow::{step, Phase, TicketAction, TicketContext, TicketData, TicketEvent};

fn ctx() -> TicketContext {
    TicketContext {
        author: "alice".into(),
        channel: "cmd".into(),
        start_channel: "start".into(),
        ticket_category: "Tickets".into(),
        archive_category: "Archive".into(),
    }
}

fn cat(id: &str, title: &str, chans: &[&str]) -> Category {
    Category { id: id.into(), title: title.into(), channels: chans.iter().map(|c| c.to_string()).collect() }
}

fn go(phase: Phase, d: TicketData, e: TicketEvent) -> (Phase, TicketData, TicketAction) {
    step(&ctx(), phase, d, e)
}

fn begin(op: &str, name: Option<&str>) -> TicketEvent {
    TicketEvent::Begin {
        operation: op.into(),
        channel_name: name.map(|n| n.to_string()),
        server_id: Some("srv".into()),
    }
}

fn embed_title(a: &TicketAction) -> Option<String> {
    match a {
        TicketAction::Send { message, .. } => message.embeds.first().and_then(|e| e.title.clone()),
        _ => None,
    }
}

#[test]
fn lodge_needs_start_channel() {
    let (p, _, a) = go(Phase::Start, TicketData::new(), begin("lodge", Some("general")));
    assert!(p == Phase::Finished && matches!(a, TicketAction::Idle));
    let (p, _, a) = go(Phase::Start, TicketData::new(), begin("lodge", None));
    assert!(p == Phase::Finished && matches!(a, TicketAction::Idle));
    let (p, _, a) = go(Phase::Start, TicketData::new(), begin("other", Some("start")));
    assert!(p == Phase::Finished && matches!(a, TicketAction::Idle));
}

#[test]
fn full_lodge_with_new_role() {
    let (p, d, a) = go(Phase::Start, TicketData::new(), begin("lodge", Some("start")));
    assert!(p == Phase::AwaitUser && matches!(a, TicketAction::FetchUser));
    let (p, d, a) = go(p, d, TicketEvent::UserFetched { username: "alice".into(), discriminator: "0042".into() });
    match &a {
        TicketAction::CreateChannel { server, name } => {
            assert_eq!(server, "srv");
            assert_eq!(name, "Issue-alice-0042");
        }
        _ => panic!("expected a channel creation"),
    }
    let (p, d, a) = go(p, d, TicketEvent::ChannelCreated { id: "tkt".into() });
    assert!(matches!(a, TicketAction::Pause { seconds: 5 }));
    let (p, d, a) = go(p, d, TicketEvent::Completed);
    assert_eq!(embed_title(&a).as_deref(), Some("This will take a while..."));
    let (p, d, a) = go(p, d, TicketEvent::Completed);
    assert!(matches!(a, TicketAction::FetchServer { .. }));
    let cats = vec![cat("c1", "tickets", &["old"]), cat("c2", "General", &[])];
    let (p, d, a) = go(p, d, TicketEvent::ServerFetched { categories: Some(cats) });
    match &a {
        TicketAction::SetCategories { categories, .. } => {
            assert_eq!(categories[1].id, "c1");
            assert_eq!(categories[1].channels, vec!["old".to_string(), "tkt".to_string()]);
        }
        _ => panic!("expected new categories"),
    }
    let (p, d, a) = go(p, d, TicketEvent::Completed);
    assert!(matches!(a, TicketAction::FetchMember { .. }));
    let (p, d, a) = go(p, d, TicketEvent::MemberFetched { role_ids: vec!["r0".into()] });
    assert!(matches!(a, TicketAction::Pause { seconds: 4 }));
    let (p, d, a) = go(p, d, TicketEvent::Completed);
    assert!(matches!(a, TicketAction::FetchRoles { .. }));
    let (p, d, a) = go(p, d, TicketEvent::RolesFetched { roles: vec![NamedRole { id: "r0".into(), name: "member".into() }] });
    assert!(p == Phase::AwaitRolePause && matches!(a, TicketAction::Pause { seconds: 10 }));
    let (p, d, a) = go(p, d, TicketEvent::Completed);
    match &a {
        TicketAction::CreateRole { name, rank, .. } => {
            assert_eq!(name, "alice");
            assert_eq!(*rank, 100);
        }
        _ => panic!("expected a role creation"),
    }
    let (p, d, a) = go(p, d, TicketEvent::RoleCreated { id: "rA".into() });
    match &a {
        TicketAction::SetMemberRoles { roles, .. } => assert_eq!(roles, &vec!["r0".to_string(), "rA".to_string()]),
        _ => panic!("expected the member's roles"),
    }
    let (p, d, a) = go(p, d, TicketEvent::Completed);
    assert!(matches!(a, TicketAction::AddRoleToSelf { .. }));
    let (p, d, a) = go(p, d, TicketEvent::Completed);
    assert!(matches!(a, TicketAction::Pause { seconds: 10 }));
    let (p, d, a) = go(p, d, TicketEvent::Completed);
    match &a {
        TicketAction::AllowRole { channel, role } => {
            assert_eq!(channel, "tkt");
            assert_eq!(role, "rA");
        }
        _ => panic!("expected the author's access"),
    }
    let (p, d, a) = go(p, d, TicketEvent::Completed);
    assert!(matches!(a, TicketAction::FetchServer { .. }));
    let roles = vec![NamedRole { id: "adm".into(), name: "ADMIN".into() }];
    let (p, d, a) = go(p, d, TicketEvent::ServerRolesFetched { roles, admin_role: "ADMIN".into() });
    match &a {
        TicketAction::AllowRole { role, .. } => assert_eq!(role, "adm"),
        _ => panic!("expected the admins' access"),
    }
    let (p, d, a) = go(p, d, TicketEvent::Completed);
    assert_eq!(embed_title(&a).as_deref(), Some("Ticket Successfully created\nPlease wait for a moderator"));
    let (p, d, a) = go(p, d, TicketEvent::Completed);
    assert!(matches!(a, TicketAction::DenyEveryone { .. }));
    let (p, d, a) = go(p, d, TicketEvent::Completed);
    match &a {
        TicketAction::Send { channel, message } => {
            assert_eq!(channel, "cmd");
            assert_eq!(message.content.as_deref(), Some("<#tkt>\n[](<@alice>)"));
            assert_eq!(message.embeds[0].title.as_deref(), Some("The ticket is ready"));
        }
        _ => panic!("expected the ready notice"),
    }
    let (p, _, a) = go(p, d, TicketEvent::Completed);
    assert!(p == Phase::Finished && matches!(a, TicketAction::Idle));
}

#[test]
fn lodge_without_category_stops() {
    let mut d = TicketData::new();
    d.server = "srv".into();
    d.ticket = "tkt".into();
    let (p, _, a) = go(Phase::AwaitServer, d, TicketEvent::ServerFetched { categories: Some(vec![cat("c", "Other", &[])]) });
    assert!(p == Phase::Finished && matches!(a, TicketAction::Idle));
}

#[test]
fn complete_archives_the_channel() {
    let (p, d, a) = go(Phase::Start, TicketData::new(), begin("complete", Some("cmd")));
    assert!(matches!(a, TicketAction::FetchServer { .. }));
    let cats = vec![cat("c1", "Tickets", &["cmd", "x"]), cat("c2", "Archive", &[])];
    let (p, d, a) = go(p, d, TicketEvent::ServerFetched { categories: Some(cats) });
    assert!(p == Phase::AwaitName && matches!(a, TicketAction::FetchChannelName));
    let (p, d, a) = go(p, d, TicketEvent::ChannelNameFetched { name: Some("Issue-alice-1".into()) });
    assert_eq!(embed_title(&a).as_deref(), Some("Removing..."));
    let (p, d, a) = go(p, d, TicketEvent::Completed);
    assert!(matches!(a, TicketAction::ArchiveChannel));
    let (p, d, a) = go(p, d, TicketEvent::Completed);
    assert!(matches!(a, TicketAction::FetchMember { .. }));
    let (p, d, a) = go(p, d, TicketEvent::MemberFetched { role_ids: vec!["rA".into()] });
    assert!(matches!(a, TicketAction::FetchRoles { .. }));
    let (p, d, a) = go(p, d, TicketEvent::RolesFetched { roles: vec![NamedRole { id: "rA".into(), name: "alice".into() }] });
    match &a {
        TicketAction::DenyRole { channel, role } => {
            assert_eq!(channel, "cmd");
            assert_eq!(role, "rA");
        }
        _ => panic!("expected the author to be shut out"),
    }
    let (p, d, a) = go(p, d, TicketEvent::Completed);
    match &a {
        TicketAction::SetCategories { categories, .. } => {
            assert_eq!(categories[0].channels, vec!["x".to_string()]);
            assert_eq!(categories[1].channels, vec!["cmd".to_string()]);
        }
        _ => panic!("expected archived categories"),
    }
    let (p, _, a) = go(p, d, TicketEvent::Completed);
    assert!(p == Phase::Finished && matches!(a, TicketAction::Idle));
}

#[test]
fn complete_from_start_channel_does_nothing() {
    let (p, d, _) = go(Phase::Start, TicketData::new(), begin("complete", Some("start")));
    let cats = vec![cat("c1", "Tickets", &["cmd"])];
    let (p, d, _) = go(p, d, TicketEvent::ServerFetched { categories: Some(cats) });
    let (p, _, a) = go(p, d, TicketEvent::ChannelNameFetched { name: Some("start".into()) });
    assert!(p == Phase::Finished && matches!(a, TicketAction::Idle));
}
