//! The application state owned by the coordinator.  Transient fields of each
//! overlay live in a sub-struct of their own, reset when the overlay opens and
//! meaningless once it closes.

use vstd::prelude::*;
use crate::config::Config;
use crate::store::RoomMessageStore;
use crate::store::TokenStore;
use crate::types::Account;
use crate::types::DisplayMessage;
use crate::types::Focus;
use crate::types::Overlay;
use crate::types::RoomDetails;
use crate::types::RoomInfo;
use crate::types::RoomSortMode;
use crate::types::SasOverlayState;

verus! {

/// Login overlay fields.
#[derive(Debug)]
pub struct LoginForm {
    pub homeserver: String,
    pub username: String,
    pub password: String,
    /// 0 = homeserver, 1 = username, 2 = password.
    pub focus_field: usize,
    pub error: Option<String>,
    pub busy: bool,
}

impl LoginForm {
    /// The state the login overlay opens with.
    pub fn opened() -> (r: LoginForm)
        ensures
            r.homeserver@ == "matrix.org"@,
            r.username@.len() == 0,
            r.password@.len() == 0,
            r.focus_field == 0,
            r.error is None,
            !r.busy,
    {
        LoginForm {
            homeserver: <String as vstd::string::StringExecFns>::from_str("matrix.org"),
            username: String::new(),
            password: String::new(),
            focus_field: 0,
            error: None,
            busy: false,
        }
    }
}

/// Room switcher overlay fields.
#[derive(Debug)]
pub struct SwitcherState {
    pub query: String,
    pub selected: usize,
}

/// Settings overlay fields: a menu with sub-menus that open one at a time.
#[derive(Debug)]
pub struct SettingsState {
    /// 0 = accounts, 1 = theme, 2 = sort, 3 = clear cache.
    pub selected: usize,
    pub accounts_open: bool,
    /// 0 = add account, 1.. = the accounts.
    pub accounts_selected: usize,
    pub account_action_open: bool,
    /// 0 = reconnect, 1 = remove, 2 = edit profile, 3 = verify session.
    pub account_action_selected: usize,
    pub verify_open: bool,
    /// 0 = recovery key, 1 = another device.
    pub verify_selected: usize,
    pub theme_open: bool,
    pub theme_selected: usize,
    pub sort_open: bool,
    pub sort_selected: usize,
}

impl SettingsState {
    /// No sub-menu open.
    pub open spec fn at_top(&self) -> bool {
        !self.accounts_open && !self.account_action_open && !self.verify_open && !self.theme_open
            && !self.sort_open
    }

    /// The state the settings overlay opens with.
    pub fn opened() -> (r: SettingsState)
        ensures
            r.selected == 0,
            r.at_top(),
            r.verify_selected == 0,
    {
        SettingsState {
            selected: 0,
            accounts_open: false,
            accounts_selected: 0,
            account_action_open: false,
            account_action_selected: 0,
            verify_open: false,
            verify_selected: 0,
            theme_open: false,
            theme_selected: 0,
            sort_open: false,
            sort_selected: 0,
        }
    }
}

/// Profile editor overlay fields.
#[derive(Debug)]
pub struct ProfileForm {
    pub display_name: String,
    pub avatar_url: String,
    pub avatar_path: String,
    /// 0 = display name, 1 = avatar url, 2 = avatar file.
    pub focus_field: usize,
    pub error: Option<String>,
    pub busy: bool,
    pub account_idx: usize,
    pub current_name: String,
    pub current_avatar: String,
}

/// Room creator overlay fields.
#[derive(Debug)]
pub struct CreatorForm {
    pub name: String,
    pub topic: String,
    /// 0 = private, 1 = public.
    pub visibility: usize,
    pub e2ee: bool,
    pub federated: bool,
    pub invite: String,
    pub account_idx: usize,
    /// 0 = account, 1 = name, 2 = topic, 3 = visibility, 4 = e2ee,
    /// 5 = federated, 6 = invite.
    pub focus_field: usize,
    pub error: Option<String>,
    pub busy: bool,
}

/// Room editor overlay fields.
#[derive(Debug)]
pub struct EditorForm {
    pub name: String,
    pub topic: String,
    pub invite_user: String,
    /// 0 = name, 1 = topic, 2 = invite, 3 = leave, 4 = delete.
    pub focus_field: usize,
    pub error: Option<String>,
    pub busy: bool,
    pub confirm_leave: bool,
    pub confirm_delete: bool,
    pub room_id: Option<String>,
    pub account_id: Option<String>,
}

/// Recovery-key overlay fields.
#[derive(Debug)]
pub struct RecoveryForm {
    pub key: String,
    pub error: Option<String>,
    pub busy: bool,
    pub account_idx: usize,
}

/// Message action overlay fields.
#[derive(Debug)]
pub struct MessageActionState {
    /// 0 = edit, 1 = delete.
    pub selected: usize,
    pub editing: bool,
    pub edit_text: String,
    pub edit_cursor: usize,
    pub error: Option<String>,
    pub busy: bool,
}

/// Device-verification overlay fields.  The SAS handle itself stays with the
/// caller; `has_handle` mirrors whether one is held.
#[derive(Debug)]
pub struct SasUiState {
    pub state: SasOverlayState,
    pub emojis: Vec<(String, String)>,
    pub error: Option<String>,
    pub account_idx: usize,
    pub flow_id: Option<String>,
    pub user_id: Option<String>,
    pub has_handle: bool,
}

/// Emoji picker overlay fields.
#[derive(Debug)]
pub struct EmojiPickerState {
    pub selected: usize,
    pub event_id: Option<String>,
}

/// The chat panel: the displayed message list and its cursors.
#[derive(Debug)]
pub struct ChatState {
    pub messages: Vec<DisplayMessage>,
    pub scroll_offset: usize,
    pub selected_message: Option<usize>,
    pub first_unread_index: Option<usize>,
    pub typing_users: Vec<String>,
    /// (event id, sender, body snippet) of the message being replied to.
    pub replying_to: Option<(String, String, String)>,
    pub downloading_keys: bool,
}

/// The room list panel.
#[derive(Debug)]
pub struct RoomListState {
    pub all_rooms: Vec<RoomInfo>,
    pub selected_room: usize,
    /// How many leading entries of `all_rooms` are favorites.
    pub favorites_count: usize,
}

/// Everything the coordinator owns.  One value of this struct is the whole
/// application state; handlers mutate it and hand effect requests back.
#[derive(Debug)]
pub struct AppState {
    pub config: Config,
    pub accounts: Vec<Account>,
    pub focus: Focus,
    pub overlay: Overlay,
    pub running: bool,
    pub rooms: RoomListState,
    pub active_room: Option<String>,
    pub active_account_id: Option<String>,
    pub chat: ChatState,
    pub input: String,
    pub cursor_pos: usize,
    pub login: LoginForm,
    pub switcher: SwitcherState,
    pub settings: SettingsState,
    pub profile: ProfileForm,
    pub creator: CreatorForm,
    pub editor: EditorForm,
    pub recovery: RecoveryForm,
    pub msg_action: MessageActionState,
    pub sas: SasUiState,
    pub emoji_picker: EmojiPickerState,
    pub room_sort: RoomSortMode,
    pub pending_echoes: Vec<String>,
    pub room_messages: RoomMessageStore,
    pub room_history_tokens: TokenStore,
    pub chat_viewport_msgs: usize,
    pub help_scroll: usize,
    pub room_details: Option<RoomDetails>,
    pub theme_name: String,
    pub status_msg: String,
    pub selected_account: usize,
}

impl AppState {
    /// The state at startup, before any session is restored.
    pub fn new(config: Config) -> (r: AppState)
        ensures
            r.config == config,
            r.accounts@.len() == 0,
            r.focus is Rooms,
            r.overlay is Closed,
            r.running,
            r.rooms.all_rooms@.len() == 0,
            r.rooms.selected_room == 0,
            r.active_room is None,
            r.active_account_id is None,
            r.chat.messages@.len() == 0,
            r.pending_echoes@.len() == 0,
            forall|id: Seq<char>| !r.room_messages.contains_room(id),
            forall|id: Seq<char>| !r.room_history_tokens.contains_room(id),
            r.room_sort == RoomSortMode::of_name(config.room_sort@),
            r.theme_name@ == config.theme@,
            r.status_msg@ == "No accounts - press 'a' to add one"@,
            r.selected_account == 0,
    {
        let room_sort = RoomSortMode::from_str(config.room_sort.as_str());
        let theme_name = config.theme.clone();
        AppState {
            config,
            accounts: Vec::new(),
            focus: Focus::Rooms,
            overlay: Overlay::Closed,
            running: true,
            rooms: RoomListState { all_rooms: Vec::new(), selected_room: 0, favorites_count: 0 },
            active_room: None,
            active_account_id: None,
            chat: ChatState {
                messages: Vec::new(),
                scroll_offset: 0,
                selected_message: None,
                first_unread_index: None,
                typing_users: Vec::new(),
                replying_to: None,
                downloading_keys: false,
            },
            input: String::new(),
            cursor_pos: 0,
            login: LoginForm::opened(),
            switcher: SwitcherState { query: String::new(), selected: 0 },
            settings: SettingsState::opened(),
            profile: ProfileForm {
                display_name: String::new(),
                avatar_url: String::new(),
                avatar_path: String::new(),
                focus_field: 0,
                error: None,
                busy: false,
                account_idx: 0,
                current_name: String::new(),
                current_avatar: String::new(),
            },
            creator: CreatorForm {
                name: String::new(),
                topic: String::new(),
                visibility: 0,
                e2ee: true,
                federated: true,
                invite: String::new(),
                account_idx: 0,
                focus_field: 0,
                error: None,
                busy: false,
            },
            editor: EditorForm {
                name: String::new(),
                topic: String::new(),
                invite_user: String::new(),
                focus_field: 0,
                error: None,
                busy: false,
                confirm_leave: false,
                confirm_delete: false,
                room_id: None,
                account_id: None,
            },
            recovery: RecoveryForm {
                key: String::new(),
                error: None,
                busy: false,
                account_idx: 0,
            },
            msg_action: MessageActionState {
                selected: 0,
                editing: false,
                edit_text: String::new(),
                edit_cursor: 0,
                error: None,
                busy: false,
            },
            sas: SasUiState {
                state: SasOverlayState::Waiting,
                emojis: Vec::new(),
                error: None,
                account_idx: 0,
                flow_id: None,
                user_id: None,
                has_handle: false,
            },
            emoji_picker: EmojiPickerState { selected: 0, event_id: None },
            room_sort,
            pending_echoes: Vec::new(),
            room_messages: RoomMessageStore::new(),
            room_history_tokens: TokenStore::new(),
            chat_viewport_msgs: 10,
            help_scroll: 0,
            room_details: None,
            theme_name,
            status_msg: <String as vstd::string::StringExecFns>::from_str(
                "No accounts - press 'a' to add one",
            ),
            selected_account: 0,
        }
    }

    /// Index of the active account among `accounts`, by user id.
    pub open spec fn account_index_of(&self, uid: Seq<char>) -> int {
        crate::state::account_index(self.accounts@, uid, 0)
    }

    /// Whether an account with the given user id is logged in.
    pub open spec fn has_account(&self, uid: Seq<char>) -> bool {
        self.account_index_of(uid) < self.accounts@.len()
    }
}

/// The overlay forms that an event leaves untouched.
pub open spec fn same_forms(a: &AppState, b: &AppState) -> bool {
    a.login == b.login && a.switcher == b.switcher && a.settings == b.settings && a.profile
        == b.profile && a.creator == b.creator && a.editor == b.editor && a.recovery == b.recovery
        && a.msg_action == b.msg_action && a.emoji_picker == b.emoji_picker
}

/// Preferences and viewer bookkeeping that events leave untouched.
pub open spec fn same_prefs(a: &AppState, b: &AppState) -> bool {
    a.config == b.config && a.room_sort == b.room_sort && a.theme_name == b.theme_name
        && a.selected_account == b.selected_account && a.chat_viewport_msgs == b.chat_viewport_msgs
        && a.help_scroll == b.help_scroll && a.room_details == b.room_details
}

/// Viewer preferences and bookkeeping no key handler silently changes.
pub open spec fn same_view(a: &AppState, b: &AppState) -> bool {
    a.help_scroll == b.help_scroll && a.chat_viewport_msgs == b.chat_viewport_msgs
        && a.room_details == b.room_details && a.theme_name == b.theme_name && a.room_sort
        == b.room_sort
}

/// Focus, overlay and the run flag.
pub open spec fn same_nav(a: &AppState, b: &AppState) -> bool {
    a.focus == b.focus && a.overlay == b.overlay && a.running == b.running
}

/// The room list panel and the active room selection.
pub open spec fn same_room_panel(a: &AppState, b: &AppState) -> bool {
    a.rooms == b.rooms && a.active_room == b.active_room && a.active_account_id
        == b.active_account_id
}

/// First index in `s` of the account with the given user id, or the length.
pub open spec fn account_index(s: Seq<Account>, uid: Seq<char>, from: int) -> int
    decreases s.len() - from when 0 <= from <= s.len()
{
    if from >= s.len() {
        s.len() as int
    } else if s[from].user_id@ == uid {
        from
    } else {
        account_index(s, uid, from + 1)
    }
}

pub proof fn lemma_account_index(s: Seq<Account>, uid: Seq<char>, from: int)
    requires
        0 <= from <= s.len(),
    ensures
        from <= account_index(s, uid, from) <= s.len(),
        account_index(s, uid, from) < s.len() ==> s[account_index(s, uid, from)].user_id@ == uid,
        forall|k: int| from <= k < account_index(s, uid, from) ==> s[k].user_id@ != uid,
    decreases s.len() - from,
{
    if from < s.len() && s[from].user_id@ != uid {
        lemma_account_index(s, uid, from + 1);
    }
}

/// Updating an account without changing its user id moves no first index.
pub proof fn lemma_account_index_update(
    s: Seq<Account>,
    uid: Seq<char>,
    from: int,
    i: int,
    a: Account,
)
    requires
        0 <= from <= s.len(),
        0 <= i < s.len(),
        a.user_id@ == s[i].user_id@,
    ensures
        account_index(s.update(i, a), uid, from) == account_index(s, uid, from),
    decreases s.len() - from,
{
    if from < s.len() && s[from].user_id@ != uid {
        lemma_account_index_update(s, uid, from + 1, i, a);
    }
}

/// Find a logged-in account by user id.
pub fn find_account(accounts: &Vec<Account>, uid: &str) -> (r: Option<usize>)
    ensures
        match r {
            Some(i) => i == account_index(accounts@, uid@, 0) && i < accounts@.len(),
            None => account_index(accounts@, uid@, 0) == accounts@.len(),
        },
{
    let n = accounts.len();
    let mut i: usize = 0;
    while i < n
        invariant
            i <= n,
            n == accounts@.len(),
            account_index(accounts@, uid@, 0) == account_index(accounts@, uid@, i as int),
        decreases n - i,
    {
        if crate::text::str_eq(accounts[i].user_id.as_str(), uid) {
            return Some(i);
        }
        i += 1;
    }
    None
}

} // verus!
