use autoguard::db::{alias_for_channel, merge_channels, new_warning, plan_alias_insert, AliasWrite, CAlias};
use autoguard::gateway::{choose_token, database_uri, is_other_instance, status_error_reply};

fn strings(v: &[&str]) -> Vec<String> {
    v.iter().map(|s| s.to_string()).collect()
}

#[test]
fn merge_keeps_old_and_adds_new_once() {
    let r = merge_channels(&strings(&["a", "b"]), &strings(&["b", "c", "c", "d"]));
    assert_eq!(r, strings(&["a", "b", "c", "d"]));
    let r = merge_channels(&strings(&["a"]), &strings(&["a"]));
    assert_eq!(r, strings(&["a"]));
    let r = merge_channels(&Vec::new(), &strings(&["x"]));
    assert_eq!(r, strings(&["x"]));
}

#[test]
fn alias_insert_plan() {
    let doc = CAlias { _id: "srv".to_string(), channels: strings(&["c2"]) };
    match plan_alias_insert(None, doc) {
        AliasWrite::Insert(d) => {
            assert_eq!(d._id, "srv");
            assert_eq!(d.channels, strings(&["c2"]));
        }
        _ => panic!("expected an insert"),
    }
    let existing = CAlias { _id: "srv".to_string(), channels: strings(&["c1"]) };
    let doc = CAlias { _id: "srv".to_string(), channels: strings(&["c2", "c1"]) };
    match plan_alias_insert(Some(existing), doc) {
        AliasWrite::SetChannels { id, channels } => {
            assert_eq!(id, "srv");
            assert_eq!(channels, strings(&["c1", "c2"]));
        }
        _ => panic!("expected an update"),
    }
}

#[test]
fn alias_for_a_channel() {
    let a = alias_for_channel("chan".to_string(), Some("srv".to_string())).unwrap();
    assert_eq!(a._id, "srv");
    assert_eq!(a.channels, strings(&["chan"]));
    assert!(alias_for_channel("chan".to_string(), None).is_none());
}

#[test]
fn warning_has_numeric_id() {
    let w = new_warning("srv".to_string(), "user".to_string(), Some("spam".to_string()));
    assert_eq!(w.server_id, "srv");
    assert_eq!(w.user_id, "user");
    assert_eq!(w.message.as_deref(), Some("spam"));
    assert!(w._id.parse::<u32>().is_ok());
    assert_eq!(w._id.parse::<u32>().unwrap().to_string(), w._id);
}

#[test]
fn token_choice() {
    assert_eq!(choose_token(Some("b".into()), None).as_deref(), Some("b"));
    assert_eq!(choose_token(None, Some("s".into())).as_deref(), Some("s"));
    assert_eq!(choose_token(Some("b".into()), Some("s".into())), None);
    assert_eq!(choose_token(None, None), None);
}

#[test]
fn other_instance_flag() {
    assert!(is_other_instance(&Some("true".to_string())));
    assert!(!is_other_instance(&Some("True".to_string())));
    assert!(!is_other_instance(&Some("false".to_string())));
    assert!(!is_other_instance(&None));
}

#[test]
fn quotes_removed_from_uri() {
    assert_eq!(database_uri("\"mongodb://h:1\""), "mongodb://h:1");
    assert_eq!(database_uri("mongodb://h"), "mongodb://h");
}

#[test]
fn status_error_answer() {
    let m = status_error_reply(403, "msg1".to_string());
    assert_eq!(m.embeds[0].title.as_deref(), Some("Error 403!"));
    assert_eq!(m.replies, vec!["msg1".to_string()]);
    assert_eq!(m.content, None);
}
