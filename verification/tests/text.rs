use conduit_client::text::{chars_of, decimal_text, join_texts, same_text, split_text};

#[test]
fn split_keeps_empty_pieces() {
    assert_eq!(split_text("", '/'), vec![""]);
    assert_eq!(split_text("/", '/'), vec!["", ""]);
    assert_eq!(split_text("a/b", '/'), vec!["a", "b"]);
    assert_eq!(split_text("/a//b/", '/'), vec!["", "a", "", "b", ""]);
    assert_eq!(split_text("no separator", '#'), vec!["no separator"]);
    assert_eq!(split_text("é/ü", '/'), vec!["é", "ü"]);
}

#[test]
fn split_agrees_with_the_standard_library() {
    for s in ["", "#", "a#b#c", "##", "https://host/#/profile/jake", "ä#ö#"] {
        let expected: Vec<String> = s.split('#').map(|p| p.to_string()).collect();
        assert_eq!(split_text(s, '#'), expected);
    }
}

#[test]
fn join_puts_the_separator_between() {
    assert_eq!(join_texts(&vec![], "&"), "");
    assert_eq!(join_texts(&vec!["a".to_string()], "&"), "a");
    assert_eq!(join_texts(&vec!["a".to_string(), "b".to_string(), "c".to_string()], "&"), "a&b&c");
}

#[test]
fn decimal_is_what_the_standard_library_writes() {
    for n in [0u32, 1, 9, 10, 11, 99, 100, 101, 12345, 4294967295] {
        assert_eq!(decimal_text(n), n.to_string());
    }
}

#[test]
fn texts_are_compared_by_characters() {
    assert!(same_text("", ""));
    assert!(same_text("profile", "profile"));
    assert!(!same_text("profile", "profil"));
    assert!(!same_text("profile", "profilE"));
    assert_eq!(chars_of("aé"), vec!['a', 'é']);
}
