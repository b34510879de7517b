use matrixtui::config::Config;
use matrixtui::state::AppState;
use matrixtui::types::Account;
use matrixtui::types::DisplayMessage;
use matrixtui::types::MessageContent;
use matrixtui::types::RoomInfo;
use matrixtui::types::RoomSortMode;

fn room(id: &str, name: &str, unread: u64, account: &str) -> RoomInfo {
    RoomInfo {
        id: id.to_string(),
        name: name.to_string(),
        is_dm: false,
        unread,
        account_id: account.to_string(),
    }
}

fn account(uid: &str) -> Account {
    Account {
        user_id: uid.to_string(),
        homeserver: "matrix.org".to_string(),
        display_name: uid.to_string(),
        syncing: true,
        sync_complete: true,
    }
}

fn ids(s: &AppState) -> Vec<String> {
    s.rooms.all_rooms.iter().map(|r| r.id.clone()).collect()
}

#[test]
fn unread_sort_with_favorite_first() {
    // Two accounts; A has rooms with unread [3, 0, 7]; unread mode puts
    // [7, 3, 0] after the favorite, whatever its own unread count.
    let mut s = AppState::new(Config::empty());
    s.accounts.push(account("@a:x"));
    s.accounts.push(account("@b:x"));
    s.room_sort = RoomSortMode::Unread;
    s.config.favorites.push("!fav".to_string());
    let all = vec![
        room("!three", "cherry", 3, "@a:x"),
        room("!fav", "pinned", 0, "@a:x"),
        room("!seven", "apple", 7, "@a:x"),
        room("!zero", "banana", 0, "@a:x"),
    ];
    s.apply_room_list(all);
    assert_eq!(s.rooms.favorites_count, 1);
    assert_eq!(ids(&s), vec!["!fav", "!seven", "!three", "!zero"]);
}

#[test]
fn unread_ties_break_alphabetically_case_insensitive() {
    let mut s = AppState::new(Config::empty());
    s.accounts.push(account("@a:x"));
    s.room_sort = RoomSortMode::Unread;
    let all = vec![
        room("!b", "banana", 1, "@a:x"),
        room("!a", "Apple", 1, "@a:x"),
        room("!c", "cherry", 1, "@a:x"),
    ];
    s.apply_room_list(all);
    assert_eq!(ids(&s), vec!["!a", "!b", "!c"]);
}

#[test]
fn favorites_keep_configured_order_for_any_permutation() {
    let favs = vec!["!f2".to_string(), "!f1".to_string()];
    let pool = vec![
        room("!x", "xenon", 0, "@a:x"),
        room("!f1", "first", 0, "@a:x"),
        room("!f2", "second", 0, "@a:x"),
    ];
    // Whatever order the pool arrives in, the favorites block is exactly
    // the configured ids that exist, in configured order.
    for rotation in 0..3 {
        let mut rotated = pool.clone();
        rotated.rotate_left(rotation);
        let mut s = AppState::new(Config::empty());
        s.accounts.push(account("@a:x"));
        s.config.favorites = favs.clone();
        s.apply_room_list(rotated);
        assert_eq!(s.rooms.favorites_count, 2);
        assert_eq!(ids(&s)[..2], ["!f2".to_string(), "!f1".to_string()]);
    }
}

#[test]
fn missing_favorite_is_skipped() {
    let mut s = AppState::new(Config::empty());
    s.accounts.push(account("@a:x"));
    s.config.favorites = vec!["!gone".to_string(), "!here".to_string()];
    s.apply_room_list(vec![room("!here", "here", 0, "@a:x"), room("!b", "b", 0, "@a:x")]);
    assert_eq!(s.rooms.favorites_count, 1);
    assert_eq!(ids(&s)[0], "!here");
}

#[test]
fn selection_follows_room_id_across_refresh() {
    let mut s = AppState::new(Config::empty());
    s.accounts.push(account("@a:x"));
    s.room_sort = RoomSortMode::Alpha;
    s.apply_room_list(vec![
        room("!a", "aaa", 0, "@a:x"),
        room("!b", "bbb", 0, "@a:x"),
    ]);
    s.rooms.selected_room = 1;  // "!b"
    // A refresh that reorders the list keeps "!b" selected by id.
    s.apply_room_list(vec![
        room("!b", "bbb", 0, "@a:x"),
        room("!a", "aaa", 0, "@a:x"),
        room("!c", "ccc", 0, "@a:x"),
    ]);
    assert_eq!(s.rooms.all_rooms[s.rooms.selected_room].id, "!b");
}

#[test]
fn recent_sort_uses_cached_timestamps() {
    let mut s = AppState::new(Config::empty());
    s.accounts.push(account("@a:x"));
    s.room_sort = RoomSortMode::Recent;
    let m = |ts: u64| DisplayMessage {
        event_id: Some(format!("${ts}")),
        sender: "@a:x".to_string(),
        content: MessageContent::Text("m".to_string()),
        timestamp: ts,
        reply_to_sender: None,
        reply_to_body: None,
        reply_to_event_id_raw: None,
        reactions: Vec::new(),
    };
    s.room_messages.push_msg("!old", m(10));
    s.room_messages.push_msg("!new", m(99));
    s.apply_room_list(vec![
        room("!old", "older", 0, "@a:x"),
        room("!silent", "silent", 0, "@a:x"),
        room("!new", "newer", 0, "@a:x"),
    ]);
    assert_eq!(ids(&s), vec!["!new", "!old", "!silent"]);
}

#[test]
fn delete_room_clears_cache_and_selection() {
    let mut s = AppState::new(Config::empty());
    s.accounts.push(account("@a:x"));
    s.active_room = Some("!r".to_string());
    s.active_account_id = Some("@a:x".to_string());
    s.room_messages.push_msg("!r", DisplayMessage {
        event_id: Some("$m".to_string()),
        sender: "@a:x".to_string(),
        content: MessageContent::Text("bye".to_string()),
        timestamp: 1,
        reply_to_sender: None,
        reply_to_body: None,
        reply_to_event_id_raw: None,
        reactions: Vec::new(),
    });
    let effects = s.apply_forget_room_success("!r");
    assert!(s.room_messages.get("!r").is_none());
    assert!(s.active_room.is_none());
    assert!(s.chat.messages.is_empty());
    assert_eq!(effects.len(), 1);
    // The refresh that follows no longer lists the room.
    s.apply_room_list(vec![room("!other", "other", 0, "@a:x")]);
    assert!(!ids(&s).contains(&"!r".to_string()));
}

#[test]
fn switcher_filters_case_insensitively() {
    let mut s = AppState::new(Config::empty());
    s.accounts.push(account("@a:x"));
    s.room_sort = RoomSortMode::Alpha;
    s.apply_room_list(vec![
        room("!g", "General", 0, "@a:x"),
        room("!r", "random", 0, "@a:x"),
        room("!g2", "geno", 0, "@a:x"),
    ]);
    s.switcher.query = "GEN".to_string();
    let hits = s.filtered_rooms();
    let hit_ids: Vec<String> = hits.iter().map(|r| r.id.clone()).collect();
    assert_eq!(hit_ids, vec!["!g".to_string(), "!g2".to_string()]);
    s.switcher.query = String::new();
    assert_eq!(s.filtered_rooms().len(), 3);
}

#[test]
fn toggle_favorite_round_trip() {
    let mut s = AppState::new(Config::empty());
    s.accounts.push(account("@a:x"));
    s.apply_room_list(vec![room("!a", "aaa", 0, "@a:x")]);
    s.rooms.selected_room = 0;
    let _ = s.toggle_favorite();
    assert_eq!(s.config.favorites, vec!["!a".to_string()]);
    let _ = s.toggle_favorite();
    assert!(s.config.favorites.is_empty());
}

#[test]
fn waiting_for_sync_differs_from_empty() {
    // An unsynced account: opening a room reports waiting, not emptiness.
    let mut s = AppState::new(Config::empty());
    let mut a = account("@a:x");
    a.sync_complete = false;
    s.accounts.push(a);
    s.apply_room_list(vec![room("!r", "slowroom", 0, "@a:x")]);
    s.rooms.selected_room = 0;
    let effect = s.begin_open_room();
    assert!(effect.is_some());
    assert_eq!(s.status_msg, "slowroom - waiting for sync...");
    // An empty page with nothing cached keeps that status.
    let _ = s.apply_history_result("!r", Ok((Vec::new(), None)));
    assert_eq!(s.status_msg, "slowroom - waiting for sync...");
    // Once synced, the same situation reads as an empty room.
    let mut synced = AppState::new(Config::empty());
    synced.accounts.push(account("@a:x"));
    synced.apply_room_list(vec![room("!r", "fastroom", 0, "@a:x")]);
    synced.rooms.selected_room = 0;
    let _ = synced.begin_open_room();
    let _ = synced.apply_history_result("!r", Ok((Vec::new(), None)));
    assert_eq!(synced.status_msg, "No messages");
}

#[test]
fn open_room_flushes_previous_room_into_cache() {
    let mut s = AppState::new(Config::empty());
    s.accounts.push(account("@a:x"));
    s.apply_room_list(vec![
        room("!a", "aaa", 0, "@a:x"),
        room("!b", "bbb", 0, "@a:x"),
    ]);
    s.rooms.selected_room = 0;
    let _ = s.begin_open_room();
    let _ = s.handle_matrix_event(matrixtui::types::MatrixEvent::Message {
        room_id: "!a".to_string(),
        sender: "@bob:x".to_string(),
        body: "in a".to_string(),
        timestamp: 1,
        event_id: "$1".to_string(),
        reply_to_event_id: None,
    });
    assert_eq!(s.chat.messages.len(), 1);
    s.rooms.selected_room = 1;
    let _ = s.begin_open_room();
    assert!(s.chat.messages.is_empty());
    assert_eq!(s.room_messages.get("!a").unwrap().len(), 1);
}

#[test]
fn unread_separator_sits_above_unread_tail() {
    let mut s = AppState::new(Config::empty());
    s.accounts.push(account("@a:x"));
    s.active_room = Some("!r".to_string());
    s.active_account_id = Some("@a:x".to_string());
    s.apply_room_list(vec![room("!r", "rr", 2, "@a:x")]);
    let m = |i: u64| DisplayMessage {
        event_id: Some(format!("${i}")),
        sender: "@a:x".to_string(),
        content: MessageContent::Text(format!("m{i}")),
        timestamp: i,
        reply_to_sender: None,
        reply_to_body: None,
        reply_to_event_id_raw: None,
        reactions: Vec::new(),
    };
    let _ = s.apply_history_result("!r", Ok((vec![m(1), m(2), m(3), m(4), m(5)], None)));
    assert_eq!(s.chat.messages.len(), 5);
    assert_eq!(s.chat.first_unread_index, Some(3));
}

#[test]
fn reorder_favorites_swaps_configured_order() {
    let mut s = AppState::new(Config::empty());
    s.accounts.push(account("@a:x"));
    s.config.favorites = vec!["!f1".to_string(), "!f2".to_string()];
    s.apply_room_list(vec![
        room("!f1", "one", 0, "@a:x"),
        room("!f2", "two", 0, "@a:x"),
    ]);
    s.rooms.selected_room = 1;
    let effects = s.reorder_favorite_up();
    assert_eq!(s.config.favorites, vec!["!f2".to_string(), "!f1".to_string()]);
    assert_eq!(s.rooms.selected_room, 0);
    assert_eq!(effects.len(), 2);
}

#[test]
fn encrypted_page_schedules_key_retry() {
    let mut s = AppState::new(Config::empty());
    s.accounts.push(account("@a:x"));
    s.active_room = Some("!r".to_string());
    s.active_account_id = Some("@a:x".to_string());
    let locked = DisplayMessage {
        event_id: None,
        sender: String::new(),
        content: MessageContent::Text("[encrypted message - unable to decrypt]".to_string()),
        timestamp: 0,
        reply_to_sender: None,
        reply_to_body: None,
        reply_to_event_id_raw: None,
        reactions: Vec::new(),
    };
    let effects = s.apply_history_result("!r", Ok((vec![locked], None)));
    assert!(s.chat.downloading_keys);
    assert!(effects
        .iter()
        .any(|e| matches!(e, matrixtui::types::Effect::ScheduleKeysRetry { .. })));
}

#[test]
fn delete_room_finishes_the_editor() {
    let mut s = AppState::new(Config::empty());
    s.accounts.push(account("@a:x"));
    s.editor.busy = true;  // as the submitting keypress left it
    let _ = s.apply_forget_room_success("!r");
    assert!(!s.editor.busy);
    assert!(matches!(s.overlay, matrixtui::types::Overlay::Closed));
}
