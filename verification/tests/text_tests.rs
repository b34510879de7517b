use matrixtui::config::Config;
use matrixtui::config::SavedAccount;
use matrixtui::text;
use matrixtui::types::RoomSortMode;

#[test]
fn normalize_homeserver_adds_scheme() {
    assert_eq!(text::normalize_homeserver("matrix.org"), "https://matrix.org");
    assert_eq!(text::normalize_homeserver("https://matrix.org"), "https://matrix.org");
    assert_eq!(text::normalize_homeserver("http://localhost"), "http://localhost");
}

#[test]
fn session_db_path_sanitizes() {
    assert_eq!(
        text::session_db_path("@alice:matrix.org", "matrix.org"),
        "sessions/_alice_matrix_org"
    );
}

#[test]
fn strip_reply_fallback_removes_quote() {
    let body = "> <@user:server> quoted text\n> more\n\nActual reply";
    assert_eq!(text::strip_reply_fallback(body), "Actual reply");
}

#[test]
fn strip_reply_fallback_keeps_plain_body() {
    assert_eq!(text::strip_reply_fallback("hello there"), "hello there");
}

#[test]
fn strip_reply_fallback_falls_back_when_empty() {
    // A body that is nothing but quotes is handed back whole.
    assert_eq!(text::strip_reply_fallback("> only a quote"), "> only a quote");
}

#[test]
fn snippet_truncates_long_bodies() {
    let long: String = "x".repeat(60);
    let snip = text::snippet(&long);
    assert_eq!(snip.chars().count(), 53);
    assert!(snip.ends_with("..."));
    assert_eq!(text::snippet("short"), "short");
}

#[test]
fn localpart_of_user_id() {
    assert_eq!(text::localpart("@alice:matrix.org"), "alice");
    assert_eq!(text::localpart("plain"), "plain");
}

#[test]
fn mime_from_extension_known_and_unknown() {
    assert_eq!(text::mime_from_extension("png"), "image/png");
    assert_eq!(text::mime_from_extension("JPG"), "image/jpeg");
    assert_eq!(text::mime_from_extension("webp"), "image/webp");
    assert_eq!(text::mime_from_extension("svg"), "image/svg+xml");
    assert_eq!(text::mime_from_extension("bin"), "application/octet-stream");
}

#[test]
fn str_contains_and_compare() {
    assert!(text::str_contains("hello world", "lo wo"));
    assert!(!text::str_contains("hello", "world"));
    assert!(text::str_lex_le("abc", "abd"));
    assert!(text::str_lex_le("ab", "abc"));
    assert!(!text::str_lex_le("b", "ab"));
}

#[test]
fn sort_mode_round_trip() {
    assert!(matches!(RoomSortMode::from_str("recent"), RoomSortMode::Recent));
    assert!(matches!(RoomSortMode::from_str("alpha"), RoomSortMode::Alpha));
    assert!(matches!(RoomSortMode::from_str("anything"), RoomSortMode::Unread));
    assert_eq!(RoomSortMode::Unread.as_str(), "unread");
    assert_eq!(RoomSortMode::Recent.label(), "Recent Activity");
    assert_eq!(matrixtui::config::default_room_sort(), "unread");
}

fn saved(uid: &str) -> SavedAccount {
    SavedAccount {
        homeserver: "matrix.org".to_string(),
        user_id: uid.to_string(),
        access_token: "tok".to_string(),
        device_id: "dev".to_string(),
    }
}

#[test]
fn config_add_account_replaces_same_user() {
    let mut cfg = Config::empty();
    cfg.add_account(saved("@a:x"));
    cfg.add_account(saved("@b:x"));
    let mut replacement = saved("@a:x");
    replacement.device_id = "dev2".to_string();
    cfg.add_account(replacement);
    assert_eq!(cfg.accounts.len(), 2);
    assert_eq!(cfg.accounts[0].user_id, "@a:x");
    assert_eq!(cfg.accounts[0].device_id, "dev2");
}

#[test]
fn config_remove_account_drops_entry() {
    let mut cfg = Config::empty();
    cfg.add_account(saved("@a:x"));
    cfg.add_account(saved("@b:x"));
    cfg.remove_account("@a:x");
    assert_eq!(cfg.accounts.len(), 1);
    assert_eq!(cfg.accounts[0].user_id, "@b:x");
}

#[test]
fn strip_reply_fallback_handles_crlf() {
    let body = "> <@user:server> quoted\r\n\r\nActual reply";
    assert_eq!(text::strip_reply_fallback(body), "Actual reply");
    assert_eq!(text::strip_reply_fallback("plain\r\n"), "plain");
}

#[test]
fn trim_spaces_strips_both_ends() {
    assert_eq!(text::trim_spaces("  alice\t"), "alice");
    assert_eq!(text::trim_spaces("alice"), "alice");
    assert_eq!(text::trim_spaces("   "), "");
}
