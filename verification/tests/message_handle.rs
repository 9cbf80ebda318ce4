use autoguard::events::on_message::{step, Action, Context, Event, Stage};

fn ctx() -> Context {
    Context {
        bot_id: "BOT".to_string(),
        prefix: "?/".to_string(),
        channel: "chan".to_string(),
        author: "alice".to_string(),
    }
}

fn receive(content: &str) -> (Stage, Action) {
    step(&ctx(), Stage::Start, Event::Received { content: Some(content.to_string()) })
}

fn sent_text(a: &Action) -> Option<String> {
    match a {
        Action::Send { message } => message.content.clone(),
        _ => None,
    }
}

fn sent_embed(a: &Action) -> Option<String> {
    match a {
        Action::Send { message } => message.embeds.first().and_then(|e| e.title.clone()),
        _ => None,
    }
}

fn to_roles(content: &str, roles: &[&str]) -> (Stage, Action) {
    let (st, a) = receive(content);
    assert!(matches!(a, Action::ResolveServer));
    let (st, a) = step(&ctx(), st, Event::ServerResolved { server_id: Some("srv".to_string()) });
    match &a {
        Action::FetchRoles { server_id } => assert_eq!(server_id, "srv"),
        _ => panic!("expected a role fetch"),
    }
    step(
        &ctx(),
        st,
        Event::RolesFetched {
            role_names: roles.iter().map(|r| r.to_string()).collect(),
            admin_role: "ADMIN".to_string(),
        },
    )
}

#[test]
fn greeting_on_bare_mention() {
    let (st, a) = receive("<@BOT>");
    assert!(matches!(st, Stage::Finished));
    assert_eq!(
        sent_text(&a).as_deref(),
        Some("Hi! I'm Autoguard. my prefix is `?/`. \nRun `?/ help` for help!")
    );
}

#[test]
fn help_and_links() {
    let (_, a) = receive("?/ help");
    assert_eq!(sent_text(&a), Some(autoguard::doc::help("?/")));
    let (_, a) = receive("?/ links");
    assert_eq!(sent_text(&a), Some(autoguard::doc::links()));
}

#[test]
fn ignored_messages() {
    for c in ["hello there", "?/", "?/ ban", "?/ban x y"] {
        let (st, a) = receive(c);
        assert!(matches!(st, Stage::Finished));
        assert!(matches!(a, Action::Idle));
    }
    let (_, a) = step(&ctx(), Stage::Start, Event::Received { content: None });
    assert!(matches!(a, Action::Idle));
}

#[test]
fn outside_a_server() {
    let (st, _) = receive("?/ ban <@X>");
    let (st, a) = step(&ctx(), st, Event::ServerResolved { server_id: None });
    assert!(matches!(st, Stage::Finished));
    assert_eq!(sent_embed(&a).as_deref(), Some("Error! operation is only possible for a server"));
}

#[test]
fn ban_by_admin() {
    let (st, a) = to_roles("?/ ban <@X> spamming", &["member", "ADMIN"]);
    assert!(matches!(st, Stage::Finished));
    match a {
        Action::Ban { server_id, user, reason } => {
            assert_eq!(server_id, "srv");
            assert_eq!(user, "X");
            assert_eq!(reason.as_deref(), Some("spamming"));
        }
        _ => panic!("expected a ban"),
    }
}

#[test]
fn unauthorised_privileged_commands() {
    for op in ["ban", "unban", "kick", "delete", "warn"] {
        let (_, a) = to_roles(&format!("?/ {} X", op), &["member"]);
        assert_eq!(
            sent_embed(&a).as_deref(),
            Some("Unauthorised! (you require a role named \"ADMIN\") ")
        );
    }
}

#[test]
fn unprotected_aliases_work_without_admin() {
    let (_, a) = to_roles("?/ !ban X", &[]);
    assert!(matches!(a, Action::Unban { .. }));
    let (_, a) = to_roles("?/ del M1", &[]);
    match a {
        Action::DeleteMessage { message_id } => assert_eq!(message_id, "M1"),
        _ => panic!("expected a delete"),
    }
}

#[test]
fn bot_is_not_a_target() {
    let (_, a) = to_roles("?/ kick <@BOT>", &["ADMIN"]);
    assert_eq!(sent_text(&a).as_deref(), Some("No?"));
}

#[test]
fn kick_and_unban() {
    let (_, a) = to_roles("?/ kick X", &["ADMIN"]);
    assert!(matches!(a, Action::Kick { .. }));
    let (_, a) = to_roles("?/ unban X", &["ADMIN"]);
    assert!(matches!(a, Action::Unban { .. }));
    let (_, a) = to_roles("?/ frobnicate X", &["ADMIN"]);
    assert!(matches!(a, Action::Idle));
}

#[test]
fn warn_sends_notice_then_records() {
    let (st, a) = to_roles("?/ warn <@X>", &["ADMIN"]);
    assert_eq!(sent_embed(&a).as_deref(), Some("Infraction added for: X. no reason provided"));
    assert!(matches!(st, Stage::AwaitNotice { .. }));
    let (st, a) = step(&ctx(), st, Event::Completed);
    assert!(matches!(st, Stage::Finished));
    match a {
        Action::RecordWarning { warning } => {
            assert_eq!(warning.user_id, "X");
            assert_eq!(warning.server_id, "srv");
            assert_eq!(warning.message, None);
            assert!(warning._id.parse::<u32>().is_ok());
        }
        _ => panic!("expected a warning"),
    }
    let (_, a) = to_roles("?/ warn X rude", &["ADMIN"]);
    assert_eq!(sent_embed(&a).as_deref(), Some("Infraction added for: X. rude"));
}

#[test]
fn warns_counts() {
    let (st, a) = to_roles("?/ warns X", &[]);
    match &a {
        Action::CountWarnings { user, server_id } => {
            assert_eq!(user, "X");
            assert_eq!(server_id, "srv");
        }
        _ => panic!("expected a count"),
    }
    let (st, a) = step(&ctx(), st, Event::WarningsCounted { count: 3 });
    assert!(matches!(st, Stage::Finished));
    assert_eq!(sent_embed(&a).as_deref(), Some("3 warning(s) for user"));
    let (st, a) = step(&ctx(), st, Event::Completed);
    assert!(matches!(st, Stage::Finished));
    assert!(matches!(a, Action::Idle));
}
