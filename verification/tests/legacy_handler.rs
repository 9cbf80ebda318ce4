use autoguard::on_message::{step, Action, Context, Event, Stage, Target, EmbedColour};

fn ctx() -> Context {
    Context { prefix: "?/".to_string(), author: "alice".to_string() }
}

fn receive(content: &str) -> (Stage, Action) {
    step(&ctx(), Stage::Start, Event::Received { content: Some(content.to_string()) })
}

#[test]
fn colour_reexported() {
    assert_eq!(EmbedColour::Success.display(), "var(--success)");
}

#[test]
fn spam_keyword_bans_author() {
    let (st, a) = receive("buy KEYWORD now");
    assert!(matches!(st, Stage::Finished));
    match a {
        Action::Ban { server_id, user, reason } => {
            assert_eq!(server_id, "SERVER_ID");
            assert_eq!(user, "alice");
            assert_eq!(reason.as_deref(), Some("raid"));
        }
        _ => panic!("expected a ban"),
    }
}

#[test]
fn help_then_command_continues() {
    let (st, a) = receive("?/ help");
    match &a {
        Action::Send { message } => {
            assert_eq!(message.content.as_deref(), Some("<prefix> <action> <item>\nprefix is set to ?/"))
        }
        _ => panic!("expected the help"),
    }
    let (_, a) = step(&ctx(), st, Event::Completed);
    assert!(matches!(a, Action::FetchChannel));
}

#[test]
fn dbg_categories_listing() {
    let (st, a) = receive("?/ dbg categories");
    assert!(matches!(a, Action::FetchCategories));
    let (_, a) = step(
        &ctx(),
        st,
        Event::CategoriesFetched { titles: Some(vec!["One".to_string(), "Two".to_string()]) },
    );
    match a {
        Action::Send { message } => {
            assert_eq!(message.content.as_deref(), Some("```text\nOne\n```\n```text\nTwo\n```\n"))
        }
        _ => panic!("expected the listing"),
    }
    let (st, _) = receive("?/ dbg categories");
    let (_, a) = step(&ctx(), st, Event::CategoriesFetched { titles: None });
    match a {
        Action::Send { message } => assert_eq!(message.content.as_deref(), Some("none")),
        _ => panic!("expected none"),
    }
    let (_, a) = receive("?/ dbg other");
    match a {
        Action::Send { message } => assert_eq!(message.content.as_deref(), Some("notvalid")),
        _ => panic!("expected notvalid"),
    }
}

fn to_target(content: &str, admin: bool) -> (Stage, Action) {
    let (st, a) = receive(content);
    assert!(matches!(a, Action::FetchChannel));
    let (st, a) = step(&ctx(), st, Event::ChannelFetched { server_id: "srv".to_string() });
    assert!(matches!(a, Action::CheckAdmin { .. }));
    step(&ctx(), st, Event::AdminChecked { is_admin: admin })
}

#[test]
fn ticket_and_mention_are_handed_on() {
    let (st, _) = receive("?/ ticket lodge");
    let (_, a) = step(&ctx(), st, Event::ChannelFetched { server_id: "srv".to_string() });
    assert!(matches!(a, Action::RunTicket));
    let (_, a) = to_target("?/ mention everyone", true);
    assert!(matches!(a, Action::RunMention { .. }));
    let (_, a) = to_target("?/ mention everyone", false);
    assert!(matches!(a, Action::Idle));
}

#[test]
fn moderation_of_found_target() {
    let (st, a) = to_target("?/ ban x", true);
    assert!(matches!(a, Action::FindTarget));
    let (_, a) = step(&ctx(), st, Event::TargetFound { target: Target::One("u1".into()), reason: Some("r".into()) });
    match a {
        Action::Ban { server_id, user, reason } => {
            assert_eq!((server_id.as_str(), user.as_str(), reason.as_deref()), ("srv", "u1", Some("r")));
        }
        _ => panic!("expected a ban"),
    }
    let (st, _) = to_target("?/ delete x", true);
    let (_, a) = step(&ctx(), st, Event::TargetFound { target: Target::Many(vec!["m1".into(), "m2".into()]), reason: None });
    match a {
        Action::BulkDelete { message_ids } => assert_eq!(message_ids, vec!["m1".to_string(), "m2".to_string()]),
        _ => panic!("expected a bulk delete"),
    }
    let (st, _) = to_target("?/ kick x", true);
    let (_, a) = step(&ctx(), st, Event::TargetFound { target: Target::Many(vec![]), reason: None });
    assert!(matches!(a, Action::Idle));
}
