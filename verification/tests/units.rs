use deary::names::{commit_message, filter_visible, is_reserved_name, join_path, repo_path_in, trim_text};
use deary::tools::{decrypt_command, editor_command, encrypt_command, find_editor};
use deary::{Change, DearyError, ErrorKind};

#[test]
fn reserved_names_start_with_a_dot() {
    assert!(is_reserved_name(".gpg_id"));
    assert!(is_reserved_name("."));
    assert!(!is_reserved_name("20200101-010101"));
    assert!(!is_reserved_name(""));
    assert!(!is_reserved_name("a.b"));
}

#[test]
fn trim_strips_surrounding_white_space() {
    assert_eq!(trim_text(" my@key.example \n"), "my@key.example");
    assert_eq!(trim_text("no-space"), "no-space");
    assert_eq!(trim_text("   "), "");
    assert_eq!(trim_text(""), "");
    assert_eq!(trim_text("\u{a0}x\u{3000}"), "x");
    assert_eq!(trim_text("a b"), "a b");
    assert_eq!(trim_text("\t\r\nkey\t"), "key");
}

#[test]
fn join_path_adds_exactly_one_separator() {
    assert_eq!(join_path("/home/u/.deary", "x"), "/home/u/.deary/x");
    assert_eq!(join_path("/home/u/.deary/", "x"), "/home/u/.deary/x");
}

#[test]
fn repo_path_is_fixed_subdirectory_of_home() {
    assert_eq!(repo_path_in("/home/u"), "/home/u/.deary");
}

#[test]
fn commit_messages_are_word_then_name() {
    assert_eq!(commit_message(Change::Add, "20200101-010101"), "Add 20200101-010101");
    assert_eq!(commit_message(Change::Edit, "20200101-010101"), "Edit 20200101-010101");
    assert_eq!(commit_message(Change::Delete, "20200101-010101"), "Delete 20200101-010101");
    assert_eq!(commit_message(Change::Add, ".gpg_id"), "Add .gpg_id");
}

#[test]
fn decrypt_command_is_exact() {
    let argv = decrypt_command("/usr/bin/gpg", "/r/20200101-010101");
    let expected = vec![
        "/usr/bin/gpg".to_string(),
        "--quiet".to_string(),
        "--yes".to_string(),
        "--compress-algo=none".to_string(),
        "--no-encrypt-to".to_string(),
        "--decrypt".to_string(),
        "/r/20200101-010101".to_string(),
    ];
    assert_eq!(argv, expected);
}

#[test]
fn encrypt_command_is_exact_and_trims_the_recipient() {
    let argv = encrypt_command("/usr/bin/gpg", " me@example.com\n", "/r/out", "/tmp/in");
    let expected = vec![
        "/usr/bin/gpg".to_string(),
        "--quiet".to_string(),
        "--yes".to_string(),
        "--compress-algo=none".to_string(),
        "--no-encrypt-to".to_string(),
        "--encrypt".to_string(),
        "--recipient".to_string(),
        "me@example.com".to_string(),
        "--output".to_string(),
        "/r/out".to_string(),
        "/tmp/in".to_string(),
    ];
    assert_eq!(argv, expected);
}

#[test]
fn editor_command_is_binary_then_file() {
    let argv = editor_command("nano", "/tmp/staged");
    assert_eq!(argv, vec!["nano".to_string(), "/tmp/staged".to_string()]);
}

#[test]
fn configured_editor_wins_over_search() {
    let r = find_editor(&Some("my-editor".to_string()));
    assert!(matches!(r, Ok(e) if e == "my-editor"));
}

#[test]
fn general_errors_are_classified_as_io_failures() {
    let e = DearyError::new("boom");
    assert_eq!(e.kind(), ErrorKind::IoFailure);
    assert_eq!(e.message(), "boom");
    let e = DearyError::with_kind(ErrorKind::ToolFailed, "exit status: 1");
    assert_eq!(e.kind(), ErrorKind::ToolFailed);
}

#[test]
fn listing_excludes_every_reserved_name() {
    let names = vec![
        ".gpg_id".to_string(),
        "20200101-010101".to_string(),
        ".git".to_string(),
        "20200202-020202".to_string(),
        ".".to_string(),
    ];
    let visible = filter_visible(&names);
    assert_eq!(visible, vec!["20200101-010101".to_string(), "20200202-020202".to_string()]);
}

#[test]
fn listing_of_only_reserved_names_is_empty() {
    let names = vec![".a".to_string(), ".b".to_string(), ".c".to_string()];
    assert_eq!(filter_visible(&names), Vec::<String>::new());
}

#[test]
fn errors_compare_by_kind_message_and_status() {
    assert_eq!(DearyError::new("x"), DearyError::new("x"));
    assert_ne!(DearyError::new("x"), DearyError::new("y"));
    assert_ne!(DearyError::new("x"), DearyError::with_kind(ErrorKind::NotFound, "x"));
    assert_eq!(DearyError::tool_failed("x", Some(1)), DearyError::tool_failed("x", Some(1)));
    assert_ne!(DearyError::tool_failed("x", Some(1)), DearyError::tool_failed("x", Some(2)));
    assert_ne!(DearyError::tool_failed("x", Some(1)), DearyError::tool_failed("x", None));
}
