use autoguard::decimal::to_decimal;
use autoguard::doc::{help, links};
use autoguard::embed::{embed_error, EmbedColour, OutgoingMessage};
use autoguard::text::{content_contains, split_str, strip_mention, to_lowercase};

#[test]
fn decimal_spelling() {
    assert_eq!(to_decimal(0), "0");
    assert_eq!(to_decimal(7), "7");
    assert_eq!(to_decimal(10), "10");
    assert_eq!(to_decimal(404), "404");
    assert_eq!(to_decimal(u64::MAX), u64::MAX.to_string());
    assert_eq!(to_decimal(u32::MAX as u64), "4294967295");
}

#[test]
fn help_names_prefix_for_each_command() {
    let h = help("?/");
    assert!(h.starts_with("## Help\n**Ban**"));
    assert!(h.contains("?/ ban USERID MESSAGE?"));
    assert!(h.contains("?/ !ban USERID"));
    assert!(h.contains("?/ kick USERID"));
    assert!(h.contains("?/ delete MESSAGEID"));
    assert!(h.contains("?/ warn USERID MESSAGE?"));
    assert!(h.ends_with("?/ warns USERID\n```"));
    assert_eq!(h.matches("?/").count(), 6);
}

#[test]
fn links_list() {
    assert_eq!(
        links(),
        "### Useful links\n[Source](https://github.com/toastxc/autoguard)\n[Issues](https://github.com/toastxc/autoguard/issues)\n[Wiki](https://github.com/toastxc/autoguard/wiki)\n"
    );
}

#[test]
fn colour_css_values() {
    assert_eq!(EmbedColour::Error.display(), "var(--error)");
    assert_eq!(EmbedColour::Warning.display(), "var(--warning)");
    assert_eq!(EmbedColour::Success.display(), "var(--success)");
}

#[test]
fn error_embed_with_and_without_description() {
    let m = embed_error("Oops".to_string(), Some("details"));
    assert_eq!(m.content, None);
    assert_eq!(m.embeds.len(), 1);
    assert_eq!(m.embeds[0].title.as_deref(), Some("Oops"));
    assert_eq!(m.embeds[0].description.as_deref(), Some("details"));
    assert_eq!(m.embeds[0].colour.as_deref(), Some("var(--error)"));
    let m = embed_error("Oops".to_string(), None);
    assert_eq!(m.embeds[0].description, None);
}

#[test]
fn message_builders() {
    let mut m = OutgoingMessage::text("hi".to_string());
    assert_eq!(m.content.as_deref(), Some("hi"));
    assert!(m.embeds.is_empty());
    m.add_embed_text("title".to_string());
    assert_eq!(m.embeds[0].title.as_deref(), Some("title"));
    m.add_reply("id1".to_string());
    assert_eq!(m.replies, vec!["id1".to_string()]);
    let e = OutgoingMessage::embed_text("t".to_string());
    assert_eq!(e.content, None);
    assert_eq!(e.embeds[0].title.as_deref(), Some("t"));
}

#[test]
fn split_like_std() {
    for (s, sep) in [
        ("?/ ban <@X> spam", " "),
        ("  a  b ", " "),
        ("", " "),
        ("abc", " "),
        ("a--b----c", "--"),
        ("aaa", "aa"),
    ] {
        let want: Vec<String> = s.split(sep).map(|w| w.to_string()).collect();
        assert_eq!(split_str(s, sep), want);
    }
}

#[test]
fn content_contains_needs_the_prefix_as_a_word() {
    let c = Some("?/ ban <@01ABC> spamming".to_string());
    assert_eq!(
        content_contains(&c, "?/", " "),
        Some(vec!["?/".to_string(), "ban".to_string(), "<@01ABC>".to_string(), "spamming".to_string()])
    );
    assert_eq!(content_contains(&Some("?/ban x".to_string()), "?/", " "), None);
    assert_eq!(content_contains(&None, "?/", " "), None);
    let later = Some("hey ?/ help".to_string());
    assert_eq!(content_contains(&later, "?/", " ").map(|v| v.len()), Some(3));
}

#[test]
fn mention_decoration_is_stripped() {
    assert_eq!(strip_mention("<@01ABC>"), "01ABC");
    assert_eq!(strip_mention("a b\nc@<>"), "abc");
    assert_eq!(strip_mention(""), "");
}

#[test]
fn ascii_lowercase() {
    assert_eq!(to_lowercase("Tickets ÄB"), "tickets Äb");
    assert_eq!(to_lowercase("AZaz09"), "azaz09");
}
