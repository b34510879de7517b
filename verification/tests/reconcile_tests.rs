use matrixtui::config::Config;
use matrixtui::reconcile;
use matrixtui::state::AppState;
use matrixtui::types::Account;
use matrixtui::types::DisplayMessage;
use matrixtui::types::MatrixEvent;
use matrixtui::types::MessageContent;

fn msg(event_id: Option<&str>, sender: &str, body: &str) -> DisplayMessage {
    DisplayMessage {
        event_id: event_id.map(|e| e.to_string()),
        sender: sender.to_string(),
        content: MessageContent::Text(body.to_string()),
        timestamp: 0,
        reply_to_sender: None,
        reply_to_body: None,
        reply_to_event_id_raw: None,
        reactions: Vec::new(),
    }
}

fn account(uid: &str) -> Account {
    Account {
        user_id: uid.to_string(),
        homeserver: "matrix.org".to_string(),
        display_name: uid.to_string(),
        syncing: true,
        sync_complete: true,
    }
}

fn state_in_room(room: &str, uid: &str) -> AppState {
    let mut s = AppState::new(Config::empty());
    s.accounts.push(account(uid));
    s.active_room = Some(room.to_string());
    s.active_account_id = Some(uid.to_string());
    s
}

#[test]
fn echo_suppression_keeps_one_message() {
    let mut s = state_in_room("!r1", "@a:x");
    s.record_local_echo("!r1", "@a:x", "hello", 100, None);
    assert_eq!(s.chat.messages.len(), 1);
    assert_eq!(s.pending_echoes.len(), 1);
    let effects = s.handle_matrix_event(MatrixEvent::Message {
        room_id: "!r1".to_string(),
        sender: "@a:x".to_string(),
        body: "hello".to_string(),
        timestamp: 101,
        event_id: "$e1".to_string(),
        reply_to_event_id: None,
    });
    assert_eq!(s.chat.messages.len(), 1);
    assert_eq!(s.pending_echoes.len(), 0);
    assert!(effects.is_empty());
}

#[test]
fn foreign_message_with_same_body_is_kept() {
    let mut s = state_in_room("!r1", "@a:x");
    s.record_local_echo("!r1", "@a:x", "hello", 100, None);
    let _ = s.handle_matrix_event(MatrixEvent::Message {
        room_id: "!r1".to_string(),
        sender: "@stranger:x".to_string(),
        body: "hello".to_string(),
        timestamp: 101,
        event_id: "$e1".to_string(),
        reply_to_event_id: None,
    });
    // Not our own echo: both the echo and the new message stay.
    assert_eq!(s.chat.messages.len(), 2);
    assert_eq!(s.pending_echoes.len(), 1);
}

#[test]
fn reply_resolution_in_one_batch() {
    let mut list = vec![msg(Some("1"), "@alice:x", "x")];
    let mut b = msg(Some("2"), "@bob:x", "y");
    b.reply_to_event_id_raw = Some("1".to_string());
    list.push(b);
    reconcile::resolve_all_replies(&mut list);
    assert_eq!(list[1].reply_to_sender.as_deref(), Some("@alice:x"));
    assert_eq!(list[1].reply_to_body.as_deref(), Some("x"));
    // The referenced message itself is untouched.
    assert!(list[0].reply_to_sender.is_none());
}

#[test]
fn reply_backfills_on_next_rebuild() {
    // B arrives before A exists: it stays visible with empty reply fields.
    let mut b = msg(Some("2"), "@bob:x", "y");
    b.reply_to_event_id_raw = Some("1".to_string());
    let mut list = vec![b];
    reconcile::resolve_all_replies(&mut list);
    assert!(list[0].reply_to_sender.is_none());
    assert!(list[0].reply_to_body.is_none());
    // A turns up later; the next batch pass fills B in.
    list.push(msg(Some("1"), "@alice:x", "x"));
    reconcile::resolve_all_replies(&mut list);
    assert_eq!(list[0].reply_to_sender.as_deref(), Some("@alice:x"));
    assert_eq!(list[0].reply_to_body.as_deref(), Some("x"));
}

#[test]
fn incoming_reply_resolves_from_displayed_list() {
    let mut s = state_in_room("!r1", "@a:x");
    s.chat.messages.push(msg(Some("$orig"), "@alice:x", "original text"));
    let _ = s.handle_matrix_event(MatrixEvent::Message {
        room_id: "!r1".to_string(),
        sender: "@bob:x".to_string(),
        body: "a reply".to_string(),
        timestamp: 5,
        event_id: "$e2".to_string(),
        reply_to_event_id: Some("$orig".to_string()),
    });
    let last = s.chat.messages.last().unwrap();
    assert_eq!(last.reply_to_sender.as_deref(), Some("@alice:x"));
    assert_eq!(last.reply_to_body.as_deref(), Some("original text"));
}

#[test]
fn reaction_counts_aggregate() {
    let mut list = vec![msg(Some("$m"), "@a:x", "hi")];
    reconcile::apply_reaction_to_list(&mut list, "$m", "U+1F44D");
    reconcile::apply_reaction_to_list(&mut list, "$m", "U+1F44D");
    reconcile::apply_reaction_to_list(&mut list, "$m", "U+2764");
    assert_eq!(list[0].reactions.len(), 2);
    assert_eq!(list[0].reactions[0], ("U+1F44D".to_string(), 2));
    assert_eq!(list[0].reactions[1], ("U+2764".to_string(), 1));
}

#[test]
fn reaction_event_updates_cache_and_display() {
    let mut s = state_in_room("!r1", "@a:x");
    s.chat.messages.push(msg(Some("$m"), "@a:x", "hi"));
    s.room_messages.push_msg("!r1", msg(Some("$m"), "@a:x", "hi"));
    let _ = s.handle_matrix_event(MatrixEvent::Reaction {
        room_id: "!r1".to_string(),
        event_id: "$m".to_string(),
        key: "U+1F389".to_string(),
    });
    assert_eq!(s.chat.messages[0].reactions, vec![("U+1F389".to_string(), 1)]);
    let cached = s.room_messages.get("!r1").unwrap();
    assert_eq!(cached[0].reactions, vec![("U+1F389".to_string(), 1)]);
}

#[test]
fn finalize_history_page_reverses_and_limits() {
    // Backward pagination hands newest first.
    let page = vec![
        msg(Some("3"), "@a:x", "newest"),
        msg(Some("2"), "@a:x", "middle"),
        msg(Some("1"), "@a:x", "oldest"),
    ];
    let shaped = reconcile::finalize_history_page(&page, 50);
    assert_eq!(shaped.len(), 3);
    assert_eq!(shaped[0].event_id.as_deref(), Some("1"));
    assert_eq!(shaped[2].event_id.as_deref(), Some("3"));
    let capped = reconcile::finalize_history_page(&page, 2);
    assert_eq!(capped.len(), 2);
    // The most recent two survive, chronological.
    assert_eq!(capped[0].event_id.as_deref(), Some("2"));
    assert_eq!(capped[1].event_id.as_deref(), Some("3"));
}

#[test]
fn pagination_idempotent_after_exhaustion() {
    let mut s = state_in_room("!r1", "@a:x");
    s.chat.messages.push(msg(Some("$m"), "@a:x", "hi"));
    // An empty page exhausts the token.
    s.apply_older_page("!r1", Vec::new(), Some("tok2".to_string()));
    assert_eq!(s.status_msg, "No more messages");
    let before = s.chat.messages.len();
    // Repeated load_older calls stay no-ops and never duplicate messages.
    for _ in 0..3 {
        let effect = s.begin_fetch_older();
        assert!(effect.is_none());
        assert_eq!(s.chat.messages.len(), before);
    }
}

#[test]
fn older_page_prepends_and_shifts_cursor() {
    let mut s = state_in_room("!r1", "@a:x");
    s.chat.messages.push(msg(Some("$new"), "@a:x", "recent"));
    s.chat.selected_message = Some(0);
    s.room_history_tokens.set("!r1", Some("t0".to_string()));
    let older = vec![msg(Some("$old1"), "@a:x", "one"), msg(Some("$old2"), "@a:x", "two")];
    s.apply_older_page("!r1", older, Some("t1".to_string()));
    assert_eq!(s.chat.messages.len(), 3);
    assert_eq!(s.chat.messages[0].event_id.as_deref(), Some("$old1"));
    assert_eq!(s.chat.messages[2].event_id.as_deref(), Some("$new"));
    assert_eq!(s.chat.selected_message, Some(2));
    assert_eq!(s.chat.scroll_offset, 2);
    // The next token is stored for further pagination.
    let effect = s.begin_fetch_older();
    assert!(effect.is_some());
}

#[test]
fn inactive_room_message_goes_to_cache_only() {
    let mut s = state_in_room("!r1", "@a:x");
    let _ = s.handle_matrix_event(MatrixEvent::Message {
        room_id: "!other".to_string(),
        sender: "@bob:x".to_string(),
        body: "elsewhere".to_string(),
        timestamp: 7,
        event_id: "$e9".to_string(),
        reply_to_event_id: None,
    });
    assert!(s.chat.messages.is_empty());
    let cached = s.room_messages.get("!other").unwrap();
    assert_eq!(cached.len(), 1);
}
