use akasa_core::topic::bytes_equal;
use akasa_core::topic::bytes_match;
use akasa_core::topic::levels_match;
use akasa_core::topic::split;
use akasa_core::topic::TopicFilter;
use akasa_core::topic::TopicName;

fn name(s: &str) -> TopicName {
    TopicName::try_from(s.to_string()).unwrap()
}

fn filter(s: &str) -> TopicFilter {
    TopicFilter::try_from(s.to_string()).unwrap()
}

fn is_match(f: &str, t: &str) -> bool {
    filter(f).matches(&name(t))
}

#[test]
fn filter_matches_literal_topic() {
    assert!(is_match("a/b", "a/b"));
    assert!(!is_match("a/b", "a/c"));
    assert!(!is_match("a/b", "a/b/c"));
    assert!(!is_match("a/b", "a"));
}

#[test]
fn single_level_wildcard_matches_exactly_one_level() {
    assert!(is_match("a/+", "a/b"));
    assert!(is_match("a/+", "a/"));
    assert!(!is_match("a/+", "a"));
    assert!(!is_match("a/+", "a/b/c"));
    assert!(is_match("+/+", "a/b"));
    assert!(is_match("+", "a"));
    assert!(!is_match("+", "a/b"));
    assert!(is_match("a/+/c", "a/b/c"));
    assert!(!is_match("a/+/c", "a/b/d"));
}

#[test]
fn multi_level_wildcard_matches_the_rest_and_the_parent() {
    assert!(is_match("#", "a"));
    assert!(is_match("#", "a/b/c"));
    assert!(is_match("a/#", "a/b"));
    assert!(is_match("a/#", "a/b/c/d"));
    assert!(is_match("a/#", "a"));
    assert!(!is_match("a/#", "b"));
    assert!(is_match("sport/tennis/player1/#", "sport/tennis/player1"));
    assert!(is_match("sport/tennis/player1/#", "sport/tennis/player1/ranking"));
    assert!(is_match("sport/tennis/player1/#", "sport/tennis/player1/score/wimbledon"));
}

#[test]
fn dollar_topics_are_hidden_from_root_wildcards() {
    assert!(!is_match("#", "$SYS/uptime"));
    assert!(!is_match("+/uptime", "$SYS/uptime"));
    assert!(is_match("$SYS/#", "$SYS/uptime"));
    assert!(is_match("$SYS/+", "$SYS/uptime"));
    assert!(is_match("$SYS/uptime", "$SYS/uptime"));
}

#[test]
fn empty_levels_match_only_empty_levels() {
    assert!(is_match("a//b", "a//b"));
    assert!(!is_match("a//b", "a/b"));
    assert!(!is_match("a/b", "a//b"));
    assert!(is_match("/", "/"));
    assert!(!is_match("/", "a"));
    assert!(is_match("+/", "/"));
    assert!(is_match("/+", "/finance"));
    assert!(!is_match("+", "/finance"));
}

#[test]
fn split_gives_one_level_more_than_separators() {
    assert_eq!(split(b""), vec![Vec::<u8>::new()]);
    assert_eq!(split(b"a"), vec![b"a".to_vec()]);
    assert_eq!(split(b"a/bc"), vec![b"a".to_vec(), b"bc".to_vec()]);
    assert_eq!(split(b"/a/"), vec![Vec::new(), b"a".to_vec(), Vec::new()]);
    assert_eq!(split(b"//"), vec![Vec::<u8>::new(), Vec::new(), Vec::new()]);
}

#[test]
fn levels_match_follows_the_levels() {
    let f = split(b"a/+/#");
    assert!(levels_match(&f, &split(b"a/x")));
    assert!(levels_match(&f, &split(b"a/x/y/z")));
    assert!(!levels_match(&f, &split(b"a")));
    assert!(!levels_match(&f, &split(b"b/x")));
    assert!(bytes_match(b"a/+/#", b"a/x/y"));
    assert!(!bytes_match(b"+/x", b"$a/x"));
}

#[test]
fn bytes_equal_compares_contents() {
    assert!(bytes_equal(b"abc", b"abc"));
    assert!(!bytes_equal(b"abc", b"abd"));
    assert!(!bytes_equal(b"abc", b"ab"));
    assert!(bytes_equal(b"", b""));
}

#[test]
fn topic_name_rejects_wildcards_and_nul() {
    assert!(TopicName::try_from("a/b".to_string()).is_ok());
    assert!(TopicName::try_from("".to_string()).is_ok());
    assert!(TopicName::try_from("/".to_string()).is_ok());
    assert_eq!(TopicName::try_from("a/+".to_string()).err(), Some("a/+".to_string()));
    assert_eq!(TopicName::try_from("#".to_string()).err(), Some("#".to_string()));
    assert!(TopicName::try_from("abc\0def".to_string()).is_err());
    assert!(TopicName::try_from("a".repeat(65535)).is_ok());
    assert!(TopicName::try_from("a".repeat(65536)).is_err());
}

#[test]
fn topic_name_accessors() {
    let n = name("a/bc");
    assert_eq!(n.as_str(), "a/bc");
    assert_eq!(n.as_bytes(), b"a/bc");
    assert_eq!(n.len(), 4);
    assert!(!n.is_empty());
    assert!(name("").is_empty());
    assert!(n.same(&name("a/bc")));
    assert!(!n.same(&name("a/bd")));
    let copy = n.clone();
    assert!(copy.same(&n));
    assert_eq!(name("h\u{e9}").len(), 3);
}

#[test]
fn topic_filter_validation_follows_the_codec() {
    for valid in ["abc/def", "abc/+", "abc/#", "#", "+", "+/", "+/+", "///", "//+/", "/abc/+//#"] {
        assert!(TopicFilter::try_from(valid.to_string()).is_ok(), "{}", valid);
    }
    for invalid in ["", "abc\0def", "++", "/++", "abc/++/", "#/abc", "/ab#", "##", "/+#", "x+/abc/"] {
        assert_eq!(
            TopicFilter::try_from(invalid.to_string()).err(),
            Some(invalid.to_string()),
            "{}",
            invalid
        );
    }
    assert!(TopicFilter::try_from("a".repeat(65536)).is_err());
}

#[test]
fn topic_filter_shared_and_accessors() {
    let shared = filter("$share/group/a/b");
    assert!(shared.is_shared());
    assert!(!filter("a/b").is_shared());
    assert!(!filter("$SYS/a").is_shared());
    assert!(TopicFilter::try_from("$share/group/".to_string()).is_err());
    let f = filter("a/+");
    assert_eq!(f.as_str(), "a/+");
    assert_eq!(f.as_bytes(), b"a/+");
    assert_eq!(f.shared().as_str(), "a/+");
    assert!(f.same(&filter("a/+")));
    assert!(!f.same(&filter("a/#")));
    assert!(f.clone().same(&f));
}
