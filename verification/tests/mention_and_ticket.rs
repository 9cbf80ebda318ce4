use autoguard::mention::{is_everyone, plan_mentions, MentionPlan};
use autoguard::ticket::{
    archive_ticket, count_holding, file_ticket, find_role_id, may_lodge, ticket_name, Category, NamedRole,
};

fn ids(n: usize) -> Vec<String> {
    (0..n).map(|i| format!("{:026}", i)).collect()
}

fn lines(ids: &[String]) -> String {
    ids.iter().map(|i| format!("\n<@{}>", i)).collect()
}

#[test]
fn everyone_word() {
    let w: Vec<String> = ["?/", "mention", "everyone"].iter().map(|s| s.to_string()).collect();
    assert!(is_everyone(&w));
    assert!(!is_everyone(&w[..2].to_vec()));
}

#[test]
fn few_members_single_message() {
    let v = ids(65);
    match plan_mentions(&v) {
        MentionPlan::Single(t) => {
            assert_eq!(t, lines(&v));
            assert!(t.len() <= 2000);
        }
        _ => panic!("expected a single message"),
    }
    match plan_mentions(&Vec::new()) {
        MentionPlan::Single(t) => assert_eq!(t, ""),
        _ => panic!("expected a single message"),
    }
}

#[test]
fn many_members_batches_of_66() {
    for (n, sizes) in [(66usize, vec![66usize]), (67, vec![66, 1]), (132, vec![66, 66]), (200, vec![66, 66, 66, 2])] {
        let v = ids(n);
        match plan_mentions(&v) {
            MentionPlan::Batches(b) => {
                assert_eq!(b.len(), sizes.len());
                let mut start = 0;
                for (text, size) in b.iter().zip(sizes) {
                    assert_eq!(*text, lines(&v[start..start + size]));
                    assert!(text.len() <= 2000);
                    start += size;
                }
                assert_eq!(b.concat(), lines(&v));
            }
            _ => panic!("expected batches"),
        }
    }
}

fn cat(id: &str, title: &str, chans: &[&str]) -> Category {
    Category { id: id.into(), title: title.into(), channels: chans.iter().map(|c| c.to_string()).collect() }
}

#[test]
fn ticket_channel_name() {
    assert_eq!(ticket_name("alice", "0001"), "Issue-alice-0001");
}

#[test]
fn lodge_only_in_start_channel() {
    assert!(may_lodge(&Some("tickets".into()), &"tickets".to_string()));
    assert!(!may_lodge(&Some("general".into()), &"tickets".to_string()));
    assert!(!may_lodge(&None, &"tickets".to_string()));
}

#[test]
fn filing_moves_category_to_end() {
    let cats = vec![cat("1", "Support", &["a"]), cat("2", "General", &["b"])];
    let r = file_ticket(&cats, "support", "new").unwrap();
    assert_eq!(r.len(), 2);
    assert_eq!(r[0].id, "2");
    assert_eq!(r[1].id, "1");
    assert_eq!(r[1].channels, vec!["a".to_string(), "new".to_string()]);
    assert!(file_ticket(&cats, "missing", "new").is_none());
    let no_id = vec![cat("", "Support", &[])];
    assert!(file_ticket(&no_id, "SUPPORT", "new").is_none());
    let twice = vec![cat("1", "support", &[]), cat("2", "SUPPORT", &[]), cat("3", "x", &[])];
    let r = file_ticket(&twice, "Support", "n").unwrap();
    assert_eq!(r.iter().map(|c| c.id.as_str()).collect::<Vec<_>>(), vec!["1", "3", "2"]);
}

#[test]
fn role_lookup_takes_last_match() {
    let roles = vec![
        NamedRole { id: "r1".into(), name: "alice".into() },
        NamedRole { id: "r2".into(), name: "bob".into() },
        NamedRole { id: "r3".into(), name: "alice".into() },
    ];
    assert_eq!(find_role_id(&roles, &"alice".to_string()), "r3");
    assert_eq!(find_role_id(&roles, &"carol".to_string()), "");
}

#[test]
fn closing_moves_channel_to_archive() {
    let cats = vec![cat("1", "Tickets", &["x", "t1", "y"]), cat("2", "Archive", &["old"]), cat("3", "General", &["g"])];
    let r = archive_ticket(&cats, &"t1".to_string(), &"Archive".to_string(), &"Tickets".to_string());
    assert_eq!(r[0].channels, vec!["x".to_string(), "y".to_string()]);
    assert_eq!(r[1].channels, vec!["old".to_string(), "t1".to_string()]);
    assert_eq!(r[2].channels, vec!["g".to_string()]);
    assert_eq!(count_holding(&cats, &"t1".to_string()), 1);
    assert_eq!(count_holding(&cats, &"zz".to_string()), 0);
}

#[test]
fn closing_an_unlisted_channel_changes_nothing() {
    let cats = vec![cat("1", "Tickets", &["x"]), cat("2", "Archive", &[])];
    let r = archive_ticket(&cats, &"t9".to_string(), &"Archive".to_string(), &"Tickets".to_string());
    assert_eq!(r[0].channels, vec!["x".to_string()]);
    assert!(r[1].channels.is_empty());
}

#[test]
fn closing_a_channel_listed_twice() {
    // Each listing runs one pass; the removal walks the original indices.
    let cats = vec![cat("1", "Tickets", &["t", "t", "y"]), cat("2", "Archive", &[])];
    let r = archive_ticket(&cats, &"t".to_string(), &"Archive".to_string(), &"Tickets".to_string());
    assert_eq!(r[1].channels, vec!["t".to_string(), "t".to_string()]);
    assert!(r[0].channels.is_empty());
}
