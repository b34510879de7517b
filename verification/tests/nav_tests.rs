use matrixtui::config::Config;
use matrixtui::nav::Key;
use matrixtui::nav::KeyInput;
use matrixtui::state::AppState;
use matrixtui::types::Account;
use matrixtui::types::Effect;
use matrixtui::types::MatrixEvent;
use matrixtui::types::Overlay;
use matrixtui::types::SasOverlayState;
use matrixtui::verify_sm;
use matrixtui::verify_sm::RequestPhase;
use matrixtui::verify_sm::SasPhase;
use matrixtui::verify_sm::SasWatchStep;
use matrixtui::verify_sm::WatchStep;

fn key(k: Key) -> KeyInput {
    KeyInput { key: k, ctrl: false, shift: false }
}

fn account(uid: &str) -> Account {
    Account {
        user_id: uid.to_string(),
        homeserver: "matrix.org".to_string(),
        display_name: uid.to_string(),
        syncing: true,
        sync_complete: true,
    }
}

#[test]
fn ctrl_q_quits() {
    let mut s = AppState::new(Config::empty());
    let _ = s.handle_key(KeyInput { key: Key::Char('q'), ctrl: true, shift: false });
    assert!(!s.running);
}

#[test]
fn settings_esc_pops_one_level_at_a_time() {
    let mut s = AppState::new(Config::empty());
    s.accounts.push(account("@a:x"));
    s.open_settings();
    // Drill: accounts list, one account, its action menu, the verify menu.
    let _ = s.handle_settings_key(key(Key::Enter));  // open accounts sub-menu
    assert!(s.settings.accounts_open);
    let _ = s.handle_settings_key(key(Key::Down));  // hover the account
    let _ = s.handle_settings_key(key(Key::Enter));  // open action menu
    assert!(s.settings.account_action_open);
    let _ = s.handle_settings_key(key(Key::Down));
    let _ = s.handle_settings_key(key(Key::Down));
    let _ = s.handle_settings_key(key(Key::Down));
    let _ = s.handle_settings_key(key(Key::Enter));  // verify session sub-menu
    assert!(s.settings.verify_open);
    // Esc pops exactly one level each time; the overlay closes only at top.
    let _ = s.handle_settings_key(key(Key::Esc));
    assert!(!s.settings.verify_open && s.settings.account_action_open);
    assert!(matches!(s.overlay, Overlay::Settings));
    let _ = s.handle_settings_key(key(Key::Esc));
    assert!(!s.settings.account_action_open && s.settings.accounts_open);
    let _ = s.handle_settings_key(key(Key::Esc));
    assert!(!s.settings.accounts_open);
    assert!(matches!(s.overlay, Overlay::Settings));
    let _ = s.handle_settings_key(key(Key::Esc));
    assert!(matches!(s.overlay, Overlay::Closed));
}

#[test]
fn login_rejects_duplicate_identity() {
    let mut s = AppState::new(Config::empty());
    s.accounts.push(account("@alice:matrix.org"));
    s.open_login();
    s.login.username = "alice".to_string();
    s.login.password = "pw".to_string();
    s.login.focus_field = 2;
    let effects = s.handle_key(key(Key::Enter));
    assert!(effects.is_empty());
    assert!(s.login.error.is_some());
    assert!(!s.login.busy);
}

#[test]
fn login_submits_fresh_identity() {
    let mut s = AppState::new(Config::empty());
    s.open_login();
    s.login.username = "alice".to_string();
    s.login.password = "pw".to_string();
    s.login.focus_field = 2;
    let effects = s.handle_key(key(Key::Enter));
    assert_eq!(effects.len(), 1);
    assert!(matches!(&effects[0], Effect::Login { username, .. } if username == "alice"));
    assert!(s.login.busy);
    // While busy the form takes no input at all.
    let before = s.login.username.clone();
    let none = s.handle_key(key(Key::Char('x')));
    assert!(none.is_empty());
    assert_eq!(s.login.username, before);
}

#[test]
fn verification_race_ready_before_subscribe_still_starts_sas() {
    // The peer reached Ready before the watcher subscribed: the initial
    // check alone must start SAS.
    assert!(matches!(verify_sm::initial_watch_step(RequestPhase::Ready), WatchStep::StartSas));
    // Had it arrived later on the stream, the same step is taken.
    assert!(matches!(verify_sm::stream_watch_step(RequestPhase::Ready), WatchStep::StartSas));
    // A finished request reports instead of hanging.
    assert!(matches!(
        verify_sm::initial_watch_step(RequestPhase::Cancelled),
        WatchStep::ReportCancelled
    ));
    assert!(matches!(verify_sm::sas_watch_step(SasPhase::KeysExchanged), SasWatchStep::EmitEmojis));
}

#[test]
fn sas_events_ignore_stale_flow_ids() {
    let mut s = AppState::new(Config::empty());
    s.accounts.push(account("@a:x"));
    let _ = s.handle_matrix_event(MatrixEvent::VerificationIncoming {
        account_id: "@a:x".to_string(),
        user_id: "@a:x".to_string(),
        flow_id: "flow-live".to_string(),
    });
    assert!(matches!(s.overlay, Overlay::SasVerify));
    assert!(matches!(s.sas.state, SasOverlayState::Incoming));
    // Close the overlay; a result for a dead flow must not resurrect it.
    s.overlay = Overlay::Closed;
    s.sas.flow_id = None;
    let _ = s.handle_matrix_event(MatrixEvent::SasDone { flow_id: "flow-dead".to_string() });
    assert!(!matches!(s.sas.state, SasOverlayState::Done));
}

#[test]
fn sas_emoji_flow_reaches_done() {
    let mut s = AppState::new(Config::empty());
    s.accounts.push(account("@a:x"));
    let effects = s.open_sas_verify(0);
    assert!(matches!(&effects[0], Effect::RequestVerification { account_id } if account_id == "@a:x"));
    let _ = s.handle_matrix_event(MatrixEvent::SasStarted { flow_id: "f1".to_string() });
    assert!(s.sas.has_handle);
    let _ = s.handle_matrix_event(MatrixEvent::SasEmojis {
        flow_id: "f1".to_string(),
        emojis: vec![("e".to_string(), "emoji".to_string())],
    });
    assert!(matches!(s.sas.state, SasOverlayState::Emojis));
    let confirm = s.handle_key(key(Key::Enter));
    assert!(matches!(confirm[0], Effect::SasConfirm));
    assert!(matches!(s.sas.state, SasOverlayState::Confirming));
    // While confirming, input is ignored.
    let none = s.handle_key(key(Key::Char('n')));
    assert!(none.is_empty());
    let _ = s.handle_matrix_event(MatrixEvent::SasDone { flow_id: "f1".to_string() });
    assert!(matches!(s.sas.state, SasOverlayState::Done));
}

#[test]
fn typing_event_hides_own_accounts() {
    let mut s = AppState::new(Config::empty());
    s.accounts.push(account("@me:x"));
    s.active_room = Some("!r".to_string());
    s.active_account_id = Some("@me:x".to_string());
    let _ = s.handle_matrix_event(MatrixEvent::Typing {
        room_id: "!r".to_string(),
        user_ids: vec!["@me:x".to_string(), "@peer:x".to_string()],
    });
    assert_eq!(s.chat.typing_users, vec!["peer".to_string()]);
}

#[test]
fn sync_error_marks_only_that_account() {
    let mut s = AppState::new(Config::empty());
    s.accounts.push(account("@a:x"));
    s.accounts.push(account("@b:x"));
    let _ = s.handle_matrix_event(MatrixEvent::SyncError {
        account_id: "@a:x".to_string(),
        error: "boom".to_string(),
    });
    assert!(!s.accounts[0].sync_complete);
    assert!(s.accounts[1].sync_complete);
}

#[test]
fn remove_account_clears_its_active_room() {
    let mut s = AppState::new(Config::empty());
    s.accounts.push(account("@a:x"));
    s.config.add_account(matrixtui::config::SavedAccount {
        homeserver: "matrix.org".to_string(),
        user_id: "@a:x".to_string(),
        access_token: "t".to_string(),
        device_id: "d".to_string(),
    });
    s.active_room = Some("!r".to_string());
    s.active_account_id = Some("@a:x".to_string());
    let effects = s.remove_account_by_index(0);
    assert!(s.accounts.is_empty());
    assert!(s.config.accounts.is_empty());
    assert!(s.active_room.is_none());
    assert!(matches!(effects[0], Effect::StopSync { .. }));
    assert!(matches!(effects[1], Effect::SaveConfig));
    assert!(matches!(effects[2], Effect::RefreshRooms));
}

#[test]
fn send_flow_arms_reply_and_emits_effect() {
    let mut s = AppState::new(Config::empty());
    s.accounts.push(account("@a:x"));
    s.active_room = Some("!r".to_string());
    s.active_account_id = Some("@a:x".to_string());
    s.focus = matrixtui::types::Focus::Input;
    for c in "hi".chars() {
        let _ = s.handle_key(key(Key::Char(c)));
    }
    s.chat.replying_to = Some(("$orig".to_string(), "@peer:x".to_string(), "snippet".to_string()));
    let effects = s.handle_key(key(Key::Enter));
    assert_eq!(effects.len(), 2);
    assert!(matches!(&effects[0], Effect::SendTyping { typing: false, .. }));
    assert!(matches!(&effects[1], Effect::SendReply { body, reply_to_event_id, .. }
        if body == "hi" && reply_to_event_id == "$orig"));
    assert!(s.input.is_empty());
    assert!(s.chat.replying_to.is_none());
}

#[test]
fn rooms_updated_asks_for_refresh() {
    let mut s = AppState::new(Config::empty());
    let effects = s.handle_matrix_event(MatrixEvent::RoomsUpdated);
    assert_eq!(effects.len(), 1);
    assert!(matches!(effects[0], Effect::RefreshRooms));
}

#[test]
fn accept_loop_waits_for_ready() {
    assert!(matches!(verify_sm::accept_wait_step(RequestPhase::Requested), WatchStep::Listen));
    assert!(matches!(verify_sm::accept_wait_step(RequestPhase::Ready), WatchStep::StartSas));
    assert!(matches!(
        verify_sm::accept_wait_step(RequestPhase::Done),
        WatchStep::ReportCancelled
    ));
}

#[test]
fn duplicate_login_matches_all_forms() {
    let mut s = AppState::new(Config::empty());
    s.accounts.push(account("@alice:matrix.org"));
    assert!(s.duplicate_login("alice", "matrix.org"));
    assert!(s.duplicate_login("@alice", "matrix.org"));
    assert!(s.duplicate_login("@alice:matrix.org", "matrix.org"));
    assert!(!s.duplicate_login("bob", "matrix.org"));
    assert!(!s.duplicate_login("alice", "other.org"));
}

#[test]
fn emoji_picker_sends_armed_reaction() {
    let mut s = AppState::new(Config::empty());
    s.accounts.push(account("@a:x"));
    s.active_room = Some("!r".to_string());
    s.active_account_id = Some("@a:x".to_string());
    s.overlay = Overlay::EmojiPicker;
    s.emoji_picker.event_id = Some("$m".to_string());
    s.emoji_picker.selected = 0;
    let effects = s.handle_key(key(Key::Enter));
    assert_eq!(effects.len(), 1);
    assert!(matches!(&effects[0], Effect::SendReaction { event_id, .. } if event_id == "$m"));
    assert!(matches!(s.overlay, Overlay::Closed));
}

#[test]
fn sync_complete_refetches_empty_active_room() {
    let mut s = AppState::new(Config::empty());
    let mut a = account("@a:x");
    a.sync_complete = false;
    s.accounts.push(a);
    s.active_room = Some("!r".to_string());
    s.active_account_id = Some("@a:x".to_string());
    let effects = s.handle_matrix_event(MatrixEvent::SyncComplete {
        account_id: "@a:x".to_string(),
    });
    assert!(s.accounts[0].sync_complete);
    assert!(matches!(effects[0], Effect::RefreshRooms));
    assert!(matches!(&effects[1], Effect::FetchHistory { room_id, .. } if room_id == "!r"));
}

#[test]
fn stale_flow_ignored_even_with_overlay_open() {
    // A bound flow ignores results for any other flow id, even while the
    // verification overlay is open.
    let mut s = AppState::new(Config::empty());
    s.accounts.push(account("@a:x"));
    let _ = s.open_sas_verify(0);
    let _ = s.handle_matrix_event(MatrixEvent::SasStarted { flow_id: "f1".to_string() });
    assert_eq!(s.sas.flow_id.as_deref(), Some("f1"));
    let _ = s.handle_matrix_event(MatrixEvent::SasCancelled {
        flow_id: "f-stale".to_string(),
        reason: "old".to_string(),
    });
    assert!(!matches!(s.sas.state, SasOverlayState::Failed));
    let _ = s.handle_matrix_event(MatrixEvent::SasDone { flow_id: "f-stale".to_string() });
    assert!(!matches!(s.sas.state, SasOverlayState::Done));
}

#[test]
fn duplicate_login_is_format_normalized() {
    let mut s = AppState::new(Config::empty());
    s.accounts.push(account("@alice:matrix.org"));
    // Stray whitespace and letter case do not evade the check.
    assert!(s.duplicate_login(" alice ", "matrix.org"));
    assert!(s.duplicate_login("Alice", "MATRIX.ORG"));
    assert!(s.duplicate_login(" @Alice:Matrix.org ", " matrix.org "));
    assert!(!s.duplicate_login("malice", "matrix.org"));
}

#[test]
fn settings_arrows_move_within_open_level() {
    let mut s = AppState::new(Config::empty());
    s.accounts.push(account("@a:x"));
    s.open_settings();
    let _ = s.handle_settings_key(key(Key::Down));
    assert_eq!(s.settings.selected, 1);
    let _ = s.handle_settings_key(key(Key::Up));
    let _ = s.handle_settings_key(key(Key::Up));
    assert_eq!(s.settings.selected, 0);
}

#[test]
fn sas_watcher_checks_emojis_before_subscribing() {
    assert!(matches!(verify_sm::initial_sas_watch_step(true), SasWatchStep::EmitEmojis));
    assert!(matches!(verify_sm::initial_sas_watch_step(false), SasWatchStep::Listen));
}
