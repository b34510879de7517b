//! The focus and overlay navigation machine: every keystroke lands here and
//! is turned into state changes plus effect requests.  While an overlay is
//! open it receives all input; a busy overlay takes nothing but dismissal.

use vstd::prelude::*;
use crate::state::AppState;
use crate::text;
use crate::types::Effect;
use crate::types::Focus;
use crate::types::Overlay;

verus! {

/// One decoded key press.
#[derive(Debug, Clone, Copy, PartialEq, Eq, Structural)]
pub enum Key {
    Char(char),
    Enter,
    Esc,
    Tab,
    BackTab,
    Up,
    Down,
    Left,
    Right,
    Home,
    End,
    Backspace,
    Delete,
}

/// A key press with its modifiers.
#[derive(Debug, Clone, Copy, PartialEq, Eq, Structural)]
pub struct KeyInput {
    pub key: Key,
    pub ctrl: bool,
    pub shift: bool,
}

impl AppState {
    /// Open the settings overlay at its top level.
    pub fn open_settings(&mut self)
        ensures
            *final(self) == (AppState {
                overlay: Overlay::Settings,
                settings: final(self).settings,
                ..*old(self)
            }),
            final(self).settings.selected == 0,
            final(self).settings.at_top(),
    {
        self.overlay = Overlay::Settings;
        self.settings = crate::state::SettingsState::opened();
    }

    /// Open the login overlay with a fresh form.
    pub fn open_login(&mut self)
        ensures
            *final(self) == (AppState {
                overlay: Overlay::Login,
                login: final(self).login,
                ..*old(self)
            }),
            final(self).login.homeserver@ == "matrix.org"@,
            final(self).login.username@.len() == 0,
            final(self).login.password@.len() == 0,
            final(self).login.focus_field == 0,
            final(self).login.error is None,
            !final(self).login.busy,
    {
        self.overlay = Overlay::Login;
        self.login = crate::state::LoginForm::opened();
    }

    /// Keys on the accounts panel: move the selection, open the login form,
    /// or move focus to the room list.
    pub fn handle_accounts_key(&mut self, key: KeyInput)
        ensures
            accounts_key_post(old(self), final(self), key),
    {
        match key.key {
            Key::Char(c) => {
                if c == 'a' {
                    self.open_login();
                } else if c == '?' {
                    self.overlay = Overlay::Help;
                }
            },
            Key::Up => {
                if self.selected_account > 0 {
                    self.selected_account = self.selected_account - 1;
                }
            },
            Key::Down => {
                let len = self.accounts.len();
                if len > 0 && self.selected_account < len - 1 {
                    self.selected_account = self.selected_account + 1;
                }
            },
            Key::Tab | Key::Right => {
                self.focus = Focus::Rooms;
            },
            _ => {},
        }
    }

    /// Keys on the room list: move or reorder the selection, open the
    /// selected room, toggle a favorite, or hand focus on.
    pub fn handle_rooms_key(&mut self, key: KeyInput) -> (effects: Vec<Effect>)
        ensures
            rooms_key_post(old(self), final(self), key, effects@),
    {
        match key.key {
            Key::Up => {
                if key.shift {
                    return self.reorder_favorite_up();
                }
                if self.rooms.selected_room > 0 {
                    self.rooms.selected_room = self.rooms.selected_room - 1;
                }
                Vec::new()
            },
            Key::Down => {
                if key.shift {
                    return self.reorder_favorite_down();
                }
                let len = self.rooms.all_rooms.len();
                if len > 0 && self.rooms.selected_room < len - 1 {
                    self.rooms.selected_room = self.rooms.selected_room + 1;
                }
                Vec::new()
            },
            Key::Enter => {
                match self.begin_open_room() {
                    Some(e) => {
                        let mut effects: Vec<Effect> = Vec::new();
                        effects.push(e);
                        effects
                    },
                    None => Vec::new(),
                }
            },
            Key::Tab => {
                self.focus = Focus::Chat;
                Vec::new()
            },
            Key::BackTab | Key::Left => {
                self.focus = Focus::Accounts;
                Vec::new()
            },
            Key::Right => {
                self.focus = Focus::Chat;
                Vec::new()
            },
            Key::Char(c) => {
                if c == 'f' {
                    self.toggle_favorite()
                } else if c == 'a' {
                    self.open_login();
                    Vec::new()
                } else if c == '?' {
                    self.overlay = Overlay::Help;
                    Vec::new()
                } else {
                    Vec::new()
                }
            },
            _ => Vec::new(),
        }
    }

    /// Keys on the help overlay: scroll, or dismiss it.
    pub fn handle_help_key(&mut self, key: KeyInput)
        ensures
            help_key_post(old(self), final(self), key),
    {
        match key.key {
            Key::Esc => {
                self.overlay = Overlay::Closed;
                self.help_scroll = 0;
            },
            Key::Up => {
                if self.help_scroll > 0 {
                    self.help_scroll = self.help_scroll - 1;
                }
            },
            Key::Down => {
                if self.help_scroll < usize::MAX {
                    self.help_scroll = self.help_scroll + 1;
                }
            },
            Key::Char(c) => {
                if c == '?' {
                    self.overlay = Overlay::Closed;
                    self.help_scroll = 0;
                } else if c == 'k' {
                    if self.help_scroll > 0 {
                        self.help_scroll = self.help_scroll - 1;
                    }
                } else if c == 'j' {
                    if self.help_scroll < usize::MAX {
                        self.help_scroll = self.help_scroll + 1;
                    }
                }
            },
            _ => {},
        }
    }
}


impl AppState {
    /// The typing-notice effect for the active room, if any.
    fn typing_effect(&self, typing: bool) -> (r: Option<Effect>)
        ensures
            r is Some <==> (self.active_room is Some && self.active_account_id is Some),
            r matches Some(e) ==> (e matches Effect::SendTyping { account_id, room_id, typing: t }
                && (self.active_account_id matches Some(aid) && account_id@ == aid@)
                && (self.active_room matches Some(ar) && room_id@ == ar@) && t == typing),
    {
        match (&self.active_room, &self.active_account_id) {
            (Some(r), Some(a)) => Some(
                Effect::SendTyping { account_id: a.clone(), room_id: r.clone(), typing },
            ),
            _ => None,
        }
    }

    /// Keys in the input box: edit the draft, send it, or leave the box.
    /// Sending clears the draft and asks the caller to send a plain message,
    /// or a reply when one was armed.
    pub fn handle_input_key(&mut self, key: KeyInput) -> (effects: Vec<Effect>)
        ensures
            input_key_post(old(self), final(self), key, effects@),
    {
        let mut effects: Vec<Effect> = Vec::new();
        match key.key {
            Key::Enter => {
                if self.input.as_str().unicode_len() > 0 {
                    if self.active_room.is_some() && self.active_account_id.is_some() {
                        let msg = self.input.clone();
                        self.input = String::new();
                        self.cursor_pos = 0;
                        if let Some(e) = self.typing_effect(false) {
                            effects.push(e);
                        }
                        let reply: Option<(String, String, String)> = match &self
                            .chat.replying_to {
                            Some(t) => Some((t.0.clone(), t.1.clone(), t.2.clone())),
                            None => None,
                        };
                        self.chat.replying_to = None;
                        let room_id = match &self.active_room {
                            Some(r) => r.clone(),
                            None => String::new(),
                        };
                        let account_id = match &self.active_account_id {
                            Some(a) => a.clone(),
                            None => String::new(),
                        };
                        match reply {
                            Some((eid, sender, _snip)) => {
                                effects.push(
                                    Effect::SendReply {
                                        account_id,
                                        room_id,
                                        body: msg,
                                        reply_to_event_id: eid,
                                        reply_to_sender: sender,
                                    },
                                );
                            },
                            None => {
                                effects.push(
                                    Effect::SendMessage { account_id, room_id, body: msg },
                                );
                            },
                        }
                    }
                }
            },
            Key::Char(c) => {
                if self.cursor_pos <= self.input.as_str().unicode_len() && self.input.as_str()
                    .unicode_len() < usize::MAX {
                    self.input = text::insert_char_at(self.input.as_str(), self.cursor_pos, c);
                    self.cursor_pos = self.cursor_pos + 1;
                    if let Some(e) = self.typing_effect(true) {
                        effects.push(e);
                    }
                }
            },
            Key::Backspace => {
                if self.cursor_pos > 0 && self.cursor_pos <= self.input.as_str().unicode_len() {
                    self.cursor_pos = self.cursor_pos - 1;
                    self.input = text::remove_char_at(self.input.as_str(), self.cursor_pos);
                }
            },
            Key::Delete => {
                if self.cursor_pos < self.input.as_str().unicode_len() {
                    self.input = text::remove_char_at(self.input.as_str(), self.cursor_pos);
                }
            },
            Key::Left => {
                if self.cursor_pos > 0 {
                    self.cursor_pos = self.cursor_pos - 1;
                }
            },
            Key::Right => {
                if self.cursor_pos < self.input.as_str().unicode_len() {
                    self.cursor_pos = self.cursor_pos + 1;
                }
            },
            Key::Home => {
                self.cursor_pos = 0;
            },
            Key::End => {
                self.cursor_pos = self.input.as_str().unicode_len();
            },
            Key::Esc => {
                self.chat.replying_to = None;
                if let Some(e) = self.typing_effect(false) {
                    effects.push(e);
                }
                self.focus = Focus::Chat;
            },
            Key::Tab => {
                self.focus = Focus::Rooms;
            },
            _ => {},
        }
        effects
    }

    /// Open the message-action overlay on the selected message.
    pub fn open_message_action(&mut self)
        ensures
            crate::state::same_view(old(self), final(self)),
            final(self).config == old(self).config,
            final(self).chat == old(self).chat,
            final(self).accounts == old(self).accounts,
            (old(self).chat.selected_message matches Some(i) && i < old(self).chat.messages@.len()) ==> {
                &&& *final(self) == (AppState {
                    overlay: Overlay::MessageAction,
                    msg_action: final(self).msg_action,
                    ..*old(self)
                })
                &&& final(self).overlay is MessageAction
                &&& final(self).msg_action.selected == 0
                &&& !final(self).msg_action.editing
                &&& final(self).msg_action.edit_text@ == old(self).chat.messages@[old(self).chat.selected_message->Some_0 as int].body_view()
                &&& final(self).msg_action.error is None
                &&& !final(self).msg_action.busy
            },
            !(old(self).chat.selected_message matches Some(i) && i < old(self).chat.messages@.len()) ==> *final(self) == *old(self),
    {
        if let Some(idx) = self.chat.selected_message {
            if idx < self.chat.messages.len() {
                let body = self.chat.messages[idx].content.body_text().clone();
                let cursor = body.as_str().unicode_len();
                self.msg_action = crate::state::MessageActionState {
                    selected: 0,
                    editing: false,
                    edit_text: body,
                    edit_cursor: cursor,
                    error: None,
                    busy: false,
                };
                self.overlay = Overlay::MessageAction;
            }
        }
    }

    /// Keys in the chat panel: move the message selection, page older
    /// history in at the top, arm a reply or a reaction, or leave the panel.
    pub fn handle_chat_key(&mut self, key: KeyInput) -> (effects: Vec<Effect>)
        ensures
            chat_key_post(old(self), final(self), key, effects@),
    {
        let viewport: usize = if self.chat_viewport_msgs > 1 {
            self.chat_viewport_msgs
        } else {
            1
        };
        let mut effects: Vec<Effect> = Vec::new();
        match key.key {
            Key::Up => {
                if self.chat.messages.len() == 0 {
                    return effects;
                }
                match self.chat.selected_message {
                    None => {
                        self.chat.selected_message = Some(self.chat.messages.len() - 1);
                        self.chat.scroll_offset = 0;
                    },
                    Some(idx) => {
                        if idx == 0 {
                            if let Some(e) = self.begin_fetch_older() {
                                effects.push(e);
                            }
                        } else {
                            let new_idx = idx - 1;
                            self.chat.selected_message = Some(new_idx);
                            let end = if self.chat.messages.len() >= self.chat.scroll_offset {
                                self.chat.messages.len() - self.chat.scroll_offset
                            } else {
                                0
                            };
                            let start = if end >= viewport {
                                end - viewport
                            } else {
                                0
                            };
                            if new_idx < start && self.chat.scroll_offset < usize::MAX {
                                self.chat.scroll_offset = self.chat.scroll_offset + 1;
                            }
                        }
                    },
                }
            },
            Key::Down => {
                match self.chat.selected_message {
                    Some(idx) => {
                        if idx < usize::MAX && idx + 1 < self.chat.messages.len() {
                            let new_idx = idx + 1;
                            self.chat.selected_message = Some(new_idx);
                            let end = if self.chat.messages.len() >= self.chat.scroll_offset {
                                self.chat.messages.len() - self.chat.scroll_offset
                            } else {
                                0
                            };
                            if new_idx >= end && self.chat.scroll_offset > 0 {
                                self.chat.scroll_offset = self.chat.scroll_offset - 1;
                            }
                        } else {
                            self.chat.selected_message = None;
                            self.chat.scroll_offset = 0;
                        }
                    },
                    None => {},
                }
            },
            Key::Enter => {
                if self.chat.selected_message.is_some() {
                    self.open_message_action();
                }
            },
            Key::Home => {
                if self.chat.messages.len() > 0 {
                    self.chat.selected_message = Some(0);
                    let len = self.chat.messages.len();
                    self.chat.scroll_offset = if len >= viewport {
                        len - viewport
                    } else {
                        0
                    };
                }
            },
            Key::End => {
                self.chat.selected_message = None;
                self.chat.scroll_offset = 0;
            },
            Key::Tab => {
                self.focus = Focus::Input;
            },
            Key::BackTab | Key::Left => {
                self.focus = Focus::Rooms;
            },
            Key::Esc => {
                if self.chat.selected_message.is_some() {
                    self.chat.selected_message = None;
                    self.chat.scroll_offset = 0;
                } else {
                    self.focus = Focus::Rooms;
                }
            },
            Key::Char(c) => {
                if c == '?' {
                    self.overlay = Overlay::Help;
                } else if c == 'r' {
                    let target: Option<usize> = match self.chat.selected_message {
                        Some(i) => Some(i),
                        None => {
                            if self.chat.messages.len() > 0 {
                                Some(self.chat.messages.len() - 1)
                            } else {
                                None
                            }
                        },
                    };
                    if let Some(idx) = target {
                        if idx < self.chat.messages.len() {
                            let eid_opt = crate::types::clone_opt_string(
                                &self.chat.messages[idx].event_id,
                            );
                            if let Some(eid) = eid_opt {
                                let snip = text::snippet(
                                    self.chat.messages[idx].content.body_text().as_str(),
                                );
                                let sender = self.chat.messages[idx].sender.clone();
                                self.chat.replying_to = Some((eid, sender, snip));
                                self.focus = Focus::Input;
                            }
                        }
                    }
                } else if c == 'e' {
                    let target: Option<usize> = match self.chat.selected_message {
                        Some(i) => Some(i),
                        None => {
                            if self.chat.messages.len() > 0 {
                                Some(self.chat.messages.len() - 1)
                            } else {
                                None
                            }
                        },
                    };
                    if let Some(idx) = target {
                        if idx < self.chat.messages.len() {
                            let eid_opt = crate::types::clone_opt_string(
                                &self.chat.messages[idx].event_id,
                            );
                            if let Some(eid) = eid_opt {
                                self.emoji_picker = crate::state::EmojiPickerState {
                                    selected: 0,
                                    event_id: Some(eid),
                                };
                                self.overlay = Overlay::EmojiPicker;
                            }
                        }
                    }
                }
            },
            _ => {},
        }
        effects
    }
}

/// The message a reply or reaction aims at: the selected one, else the
/// newest.
pub open spec fn choose_target(s: &AppState) -> Option<usize> {
    match s.chat.selected_message {
        Some(i) => if i < s.chat.messages@.len() {
            Some(i)
        } else {
            None
        },
        None => if s.chat.messages@.len() > 0 {
            Some((s.chat.messages@.len() - 1) as usize)
        } else {
            None
        },
    }
}


impl AppState {
    /// Everything but the named overlay form and the overlay id stands still.
    pub open spec fn only_form_changed(&self, pre: &AppState) -> bool {
        &&& crate::state::same_view(pre, self)
        &&& self.config == pre.config
        &&& self.accounts == pre.accounts
        &&& self.chat == pre.chat
        &&& self.rooms == pre.rooms
        &&& self.active_room == pre.active_room
        &&& self.active_account_id == pre.active_account_id
        &&& self.room_messages == pre.room_messages
        &&& self.room_history_tokens == pre.room_history_tokens
        &&& self.pending_echoes == pre.pending_echoes
        &&& self.running == pre.running
        &&& self.input == pre.input
        &&& self.cursor_pos == pre.cursor_pos
        &&& self.selected_account == pre.selected_account
    }

    /// Keys in the login form: move between fields, type, or submit.  A busy
    /// form takes no input at all; a submission with an already-active
    /// identity is rejected with an error instead of a network call.
    pub fn handle_login_key(&mut self, key: KeyInput) -> (effects: Vec<Effect>)
        ensures
            login_key_post(old(self), final(self), key, effects@),
    {
        let mut effects: Vec<Effect> = Vec::new();
        if self.login.busy {
            return effects;
        }
        match key.key {
            Key::Tab => {
                self.login.focus_field = (self.login.focus_field % 3 + 1) % 3;
            },
            Key::BackTab => {
                self.login.focus_field = if self.login.focus_field == 0 {
                    2
                } else {
                    self.login.focus_field - 1
                };
            },
            Key::Enter => {
                let submit = self.login.focus_field == 2 || (self.login.username.as_str()
                    .unicode_len() > 0 && self.login.password.as_str().unicode_len() > 0);
                if submit {
                    if self.duplicate_login(
                        self.login.username.as_str(),
                        self.login.homeserver.as_str(),
                    ) {
                        self.login.error = Some(
                            <String as vstd::string::StringExecFns>::from_str(
                                "Already logged in - use Verify Session to recover keys",
                            ),
                        );
                    } else {
                        self.login.busy = true;
                        self.login.error = None;
                        effects.push(
                            Effect::Login {
                                homeserver: self.login.homeserver.clone(),
                                username: self.login.username.clone(),
                                password: self.login.password.clone(),
                            },
                        );
                    }
                } else {
                    self.login.focus_field = (self.login.focus_field % 3 + 1) % 3;
                }
            },
            Key::Esc => {
                self.overlay = Overlay::Closed;
            },
            Key::Char(c) => {
                if self.login.focus_field == 0 {
                    self.login.homeserver = text::append_char(self.login.homeserver.as_str(), c);
                } else if self.login.focus_field == 1 {
                    self.login.username = text::append_char(self.login.username.as_str(), c);
                } else {
                    self.login.password = text::append_char(self.login.password.as_str(), c);
                }
            },
            Key::Backspace => {
                if self.login.focus_field == 0 {
                    self.login.homeserver = text::pop_char(self.login.homeserver.as_str());
                } else if self.login.focus_field == 1 {
                    self.login.username = text::pop_char(self.login.username.as_str());
                } else {
                    self.login.password = text::pop_char(self.login.password.as_str());
                }
            },
            _ => {},
        }
        effects
    }

    /// A login finished: on success the account joins the registry, its
    /// session is saved, sync starts and the room list refreshes; on failure
    /// the form shows the error and takes input again.
    pub fn apply_login_result(
        &mut self,
        result: Result<(crate::types::Account, crate::config::SavedAccount), String>,
    ) -> (effects: Vec<Effect>)
        ensures
            crate::state::same_view(old(self), final(self)),
            final(self).chat == old(self).chat,
            final(self).room_messages == old(self).room_messages,
            !final(self).login.busy,
            match result {
                Ok(ok) => {
                    &&& final(self).accounts@ == old(self).accounts@.push(ok.0)
                    &&& ({
                        let idx = crate::config::saved_index(
                            old(self).config.accounts@,
                            ok.1.user_id@,
                            0,
                        );
                        &&& (if idx < old(self).config.accounts@.len() {
                            final(self).config.accounts@ == old(self).config.accounts@.update(
                                idx,
                                ok.1,
                            )
                        } else {
                            final(self).config.accounts@ == old(self).config.accounts@.push(ok.1)
                        })
                        &&& final(self).config.theme == old(self).config.theme
                        &&& final(self).config.favorites == old(self).config.favorites
                        &&& final(self).config.room_sort == old(self).config.room_sort
                    })
                    &&& final(self).overlay is Closed
                    &&& effects@.len() == 3
                    &&& (effects@[0] matches Effect::StartSync { account_id } && account_id@
                        == ok.0.user_id@)
                    &&& effects@[1] is SaveConfig
                    &&& effects@[2] is RefreshRooms
                },
                Err(e) => {
                    &&& final(self).accounts == old(self).accounts
                    &&& final(self).config == old(self).config
                    &&& final(self).overlay == old(self).overlay
                    &&& (final(self).login.error matches Some(msg) && msg@ == e@)
                    &&& effects@.len() == 0
                },
            },
    {
        let mut effects: Vec<Effect> = Vec::new();
        match result {
            Ok((account, saved)) => {
                let user_id = account.user_id.clone();
                self.config.add_account(saved);
                self.accounts.push(account);
                self.overlay = Overlay::Closed;
                self.login.busy = false;
                effects.push(Effect::StartSync { account_id: user_id });
                effects.push(Effect::SaveConfig);
                effects.push(Effect::RefreshRooms);
            },
            Err(e) => {
                self.login.error = Some(e);
                self.login.busy = false;
                self.status_msg = <String as vstd::string::StringExecFns>::from_str(
                    "Login failed",
                );
            },
        }
        effects
    }

    /// Keys in the room switcher: narrow the query, move the selection, or
    /// jump to the chosen room.
    pub fn handle_switcher_key(&mut self, key: KeyInput) -> (effects: Vec<Effect>)
        ensures
            switcher_key_post(old(self), final(self), key, effects@),
    {
        let mut effects: Vec<Effect> = Vec::new();
        match key.key {
            Key::Esc => {
                self.overlay = Overlay::Closed;
            },
            Key::Enter => {
                let filtered = self.filtered_rooms();
                if self.switcher.selected < filtered.len() {
                    let target = filtered[self.switcher.selected].id.clone();
                    if let Some(idx) = crate::rooms::find_room(
                        &self.rooms.all_rooms,
                        target.as_str(),
                    ) {
                        self.rooms.selected_room = idx;
                    }
                    self.overlay = Overlay::Closed;
                    if let Some(e) = self.begin_open_room() {
                        effects.push(e);
                    }
                }
            },
            Key::Up => {
                if self.switcher.selected > 0 {
                    self.switcher.selected = self.switcher.selected - 1;
                }
            },
            Key::Down => {
                let count = self.filtered_rooms().len();
                if count > 0 && self.switcher.selected < count - 1 {
                    self.switcher.selected = self.switcher.selected + 1;
                }
            },
            Key::Char(c) => {
                self.switcher.query = text::append_char(self.switcher.query.as_str(), c);
                self.switcher.selected = 0;
            },
            Key::Backspace => {
                self.switcher.query = text::pop_char(self.switcher.query.as_str());
                self.switcher.selected = 0;
            },
            _ => {},
        }
        effects
    }

    /// The reactions offered by the emoji picker.
    pub fn reaction_emojis() -> (r: Vec<String>)
        ensures
            r@.len() == 8,
    {
        let mut out: Vec<String> = Vec::new();
        out.push(<String as vstd::string::StringExecFns>::from_str("\u{1F44D}"));
        out.push(<String as vstd::string::StringExecFns>::from_str("\u{2764}\u{FE0F}"));
        out.push(<String as vstd::string::StringExecFns>::from_str("\u{1F602}"));
        out.push(<String as vstd::string::StringExecFns>::from_str("\u{1F62E}"));
        out.push(<String as vstd::string::StringExecFns>::from_str("\u{1F622}"));
        out.push(<String as vstd::string::StringExecFns>::from_str("\u{1F389}"));
        out.push(<String as vstd::string::StringExecFns>::from_str("\u{1F525}"));
        out.push(<String as vstd::string::StringExecFns>::from_str("\u{1F440}"));
        out
    }

    /// Keys in the emoji picker: choose a reaction for the armed message.
    pub fn handle_emoji_picker_key(&mut self, key: KeyInput) -> (effects: Vec<Effect>)
        ensures
            emoji_picker_key_post(old(self), final(self), key, effects@),
    {
        let mut effects: Vec<Effect> = Vec::new();
        match key.key {
            Key::Left => {
                if self.emoji_picker.selected > 0 {
                    self.emoji_picker.selected = self.emoji_picker.selected - 1;
                }
            },
            Key::Right => {
                if self.emoji_picker.selected < 7 {
                    self.emoji_picker.selected = self.emoji_picker.selected + 1;
                }
            },
            Key::Enter => {
                let armed: Option<String> = crate::types::clone_opt_string(
                    &self.emoji_picker.event_id,
                );
                if let Some(eid) = armed {
                    if self.emoji_picker.selected < 8 {
                        let emojis = Self::reaction_emojis();
                        let emoji = emojis[self.emoji_picker.selected].clone();
                        match (&self.active_room, &self.active_account_id) {
                            (Some(r), Some(a)) => {
                                effects.push(
                                    Effect::SendReaction {
                                        account_id: a.clone(),
                                        room_id: r.clone(),
                                        event_id: eid,
                                        key: emoji,
                                    },
                                );
                            },
                            _ => {},
                        }
                    }
                }
                self.overlay = Overlay::Closed;
                self.emoji_picker.event_id = None;
            },
            Key::Esc => {
                self.overlay = Overlay::Closed;
                self.emoji_picker.event_id = None;
            },
            _ => {},
        }
        effects
    }

    /// Open the recovery-key overlay for an account.
    pub fn open_recovery(&mut self, account_idx: usize)
        ensures
            *final(self) == (AppState {
                overlay: Overlay::Recovery,
                recovery: final(self).recovery,
                ..*old(self)
            }),
            final(self).recovery.key@.len() == 0,
            final(self).recovery.error is None,
            !final(self).recovery.busy,
            final(self).recovery.account_idx == account_idx,
    {
        self.recovery = crate::state::RecoveryForm {
            key: String::new(),
            error: None,
            busy: false,
            account_idx,
        };
        self.overlay = Overlay::Recovery;
    }

    /// Keys in the recovery form: type the key, submit it, or step back to
    /// the settings overlay.  A busy form takes no input.
    pub fn handle_recovery_key(&mut self, key: KeyInput) -> (effects: Vec<Effect>)
        ensures
            recovery_key_post(old(self), final(self), key, effects@),
    {
        let mut effects: Vec<Effect> = Vec::new();
        if self.recovery.busy {
            return effects;
        }
        match key.key {
            Key::Enter => {
                if self.recovery.key.as_str().unicode_len() > 0 && self.recovery.account_idx
                    < self.accounts.len() {
                    self.recovery.busy = true;
                    self.recovery.error = None;
                    let account_id = self.accounts[self.recovery.account_idx].user_id.clone();
                    effects.push(
                        Effect::Recover { account_id, key: self.recovery.key.clone() },
                    );
                }
            },
            Key::Char(c) => {
                self.recovery.key = text::append_char(self.recovery.key.as_str(), c);
            },
            Key::Backspace => {
                self.recovery.key = text::pop_char(self.recovery.key.as_str());
            },
            Key::Esc => {
                self.overlay = Overlay::Settings;
            },
            _ => {},
        }
        effects
    }

    /// A recovery attempt finished: close the overlay on success, show the
    /// error and accept input again on failure.
    pub fn apply_recover_result(&mut self, result: Result<(), String>)
        ensures
            final(self).only_form_changed(old(self)),
            final(self).sas == old(self).sas,
            !final(self).recovery.busy,
            result is Ok ==> final(self).overlay is Closed,
            result matches Err(e) ==> final(self).overlay == old(self).overlay && (final(self).recovery.error matches Some(msg) && msg@ == e@),
    {
        match result {
            Ok(_) => {
                self.overlay = Overlay::Closed;
                self.recovery.busy = false;
                self.status_msg = <String as vstd::string::StringExecFns>::from_str(
                    "Session verified",
                );
            },
            Err(e) => {
                self.recovery.error = Some(e);
                self.recovery.busy = false;
            },
        }
    }
}


/// A well-formed settings overlay: at most one first-level sub-menu open,
/// and each deeper level only inside its parent.
pub open spec fn settings_wf(st: &crate::state::SettingsState) -> bool {
    &&& (st.account_action_open ==> st.accounts_open)
    &&& (st.verify_open ==> st.account_action_open)
    &&& (!(st.accounts_open && st.theme_open) && !(st.accounts_open && st.sort_open) && !(
    st.theme_open && st.sort_open))
}

/// Where the settings selection lands after one arrow key, in whichever
/// level is open.
pub open spec fn settings_moved(
    st: &crate::state::SettingsState,
    n_accounts: int,
    down: bool,
) -> crate::state::SettingsState {
    if st.verify_open {
        crate::state::SettingsState {
            verify_selected: moved_index(st.verify_selected as int, 1, down),
            ..*st
        }
    } else if st.account_action_open {
        crate::state::SettingsState {
            account_action_selected: moved_index(st.account_action_selected as int, 3, down),
            ..*st
        }
    } else if st.accounts_open {
        crate::state::SettingsState {
            accounts_selected: moved_index(st.accounts_selected as int, n_accounts, down),
            ..*st
        }
    } else if st.theme_open {
        crate::state::SettingsState {
            theme_selected: moved_index(st.theme_selected as int, 3, down),
            ..*st
        }
    } else if st.sort_open {
        crate::state::SettingsState {
            sort_selected: moved_index(st.sort_selected as int, 2, down),
            ..*st
        }
    } else {
        crate::state::SettingsState { selected: moved_index(st.selected as int, 3, down), ..*st }
    }
}

/// One arrow step within `0..=cap`.
pub open spec fn moved_index(i: int, cap: int, down: bool) -> usize {
    if down {
        if i < cap {
            (i + 1) as usize
        } else {
            i as usize
        }
    } else {
        if i > 0 {
            (i - 1) as usize
        } else {
            0
        }
    }
}

/// What Enter does in the settings overlay, level by level: drill into the
/// hovered sub-menu, or run the hovered action and hand its effects out.
pub open spec fn settings_enter_post(a: &AppState, b: &AppState, effects: Seq<Effect>) -> bool {
    &&& b.room_messages == a.room_messages
    &&& b.running == a.running
    &&& (if a.settings.verify_open {
        if a.settings.accounts_selected == 0 {
            *b == *a && effects.len() == 0
        } else {
            let acct_idx = a.settings.accounts_selected - 1;
            &&& !b.settings.verify_open
            &&& !b.settings.account_action_open
            &&& (if a.settings.verify_selected == 0 {
                &&& b.overlay is Recovery
                &&& b.recovery.key@.len() == 0
                &&& b.recovery.error is None
                &&& !b.recovery.busy
                &&& b.recovery.account_idx == acct_idx
                &&& effects.len() == 0
            } else {
                if acct_idx < a.accounts@.len() {
                    &&& b.overlay is SasVerify
                    &&& b.sas.state is Waiting
                    &&& effects.len() == 1
                    &&& (effects[0] matches Effect::RequestVerification { account_id }
                        && account_id@ == a.accounts@[acct_idx as int].user_id@)
                } else {
                    effects.len() == 0
                }
            })
        }
    } else if a.settings.account_action_open {
        if a.settings.accounts_selected == 0 {
            *b == *a && effects.len() == 0
        } else {
            let acct_idx = a.settings.accounts_selected - 1;
            if a.settings.account_action_selected == 0 {
                &&& !b.settings.account_action_open
                &&& (if acct_idx < a.accounts@.len() {
                    let uid = a.accounts@[acct_idx as int].user_id@;
                    &&& b.accounts@ == a.accounts@.remove(acct_idx as int)
                    &&& effects.len() == 2
                    &&& (effects[0] matches Effect::StopSync { account_id } && account_id@
                        == uid)
                    &&& (effects[1] matches Effect::RestoreAccount { user_id } && user_id@
                        == uid)
                } else {
                    effects.len() == 0
                })
            } else if a.settings.account_action_selected == 1 {
                &&& !b.settings.account_action_open
                &&& (if acct_idx < a.accounts@.len() {
                    let uid = a.accounts@[acct_idx as int].user_id@;
                    &&& b.accounts@ == a.accounts@.remove(acct_idx as int)
                    &&& b.config.accounts@ == a.config.accounts@.filter(
                        |sa: crate::config::SavedAccount| sa.user_id@ != uid,
                    )
                    &&& effects.len() == 3
                    &&& (effects[0] matches Effect::StopSync { account_id } && account_id@
                        == uid)
                    &&& effects[1] is SaveConfig
                    &&& effects[2] is RefreshRooms
                } else {
                    effects.len() == 0
                })
            } else if a.settings.account_action_selected == 2 {
                &&& !b.settings.account_action_open
                &&& (if acct_idx < a.accounts@.len() {
                    &&& b.overlay is ProfileEditor
                    &&& b.profile.busy
                    &&& b.profile.account_idx == acct_idx
                    &&& effects.len() == 1
                    &&& (effects[0] matches Effect::FetchProfile { account_id } && account_id@
                        == a.accounts@[acct_idx as int].user_id@)
                } else {
                    effects.len() == 0
                })
            } else {
                &&& b.settings.verify_open
                &&& b.settings.verify_selected == 0
                &&& effects.len() == 0
            }
        }
    } else if a.settings.accounts_open {
        if a.settings.accounts_selected == 0 {
            &&& b.overlay is Login
            &&& b.login.username@.len() == 0
            &&& b.login.error is None
            &&& !b.login.busy
            &&& effects.len() == 0
        } else {
            &&& b.settings.account_action_open
            &&& b.settings.account_action_selected == 0
            &&& effects.len() == 0
        }
    } else if a.settings.theme_open {
        &&& !b.settings.theme_open
        &&& (if a.settings.theme_selected < 4 {
            &&& b.theme_name@ == theme_name_of(a.settings.theme_selected as int)
            &&& b.config.theme@ == theme_name_of(a.settings.theme_selected as int)
            &&& effects.len() == 1
            &&& effects[0] is SaveConfig
        } else {
            effects.len() == 0
        })
    } else if a.settings.sort_open {
        let mode = if a.settings.sort_selected == 0 {
            crate::types::RoomSortMode::Unread
        } else if a.settings.sort_selected == 1 {
            crate::types::RoomSortMode::Recent
        } else {
            crate::types::RoomSortMode::Alpha
        };
        &&& !b.settings.sort_open
        &&& b.room_sort == mode
        &&& b.config.room_sort@ == mode.name_view()
        &&& effects.len() == 2
        &&& effects[0] is SaveConfig
        &&& effects[1] is RefreshRooms
    } else if a.settings.selected == 0 {
        &&& b.settings.accounts_open
        &&& !b.settings.theme_open
        &&& !b.settings.sort_open
        &&& b.settings.accounts_selected == 0
        &&& effects.len() == 0
    } else if a.settings.selected == 1 {
        &&& b.settings.theme_open
        &&& !b.settings.accounts_open
        &&& !b.settings.sort_open
        &&& b.settings.theme_selected == 0
        &&& effects.len() == 0
    } else if a.settings.selected == 2 {
        &&& b.settings.sort_open
        &&& !b.settings.accounts_open
        &&& !b.settings.theme_open
        &&& b.settings.sort_selected == 0
        &&& effects.len() == 0
    } else {
        &&& b.overlay is Closed
        &&& effects.len() == 1
        &&& effects[0] is ClearCache
    })
}

/// One level of the settings overlay's nesting, outermost first: the menu
/// itself, an open sub-menu, and the account-action and verify levels.
pub open spec fn settings_depth(st: &crate::state::SettingsState) -> int {
    if st.verify_open {
        3
    } else if st.account_action_open {
        2
    } else if st.accounts_open || st.theme_open || st.sort_open {
        1
    } else {
        0
    }
}

impl AppState {
    /// Keys in the settings overlay, a nested menu machine.  Escape pops
    /// exactly one level of nesting, closing the overlay only from the top.
    pub fn handle_settings_key(&mut self, key: KeyInput) -> (effects: Vec<Effect>)
        ensures
            settings_key_post(old(self), final(self), key, effects@),
    {
        let mut effects: Vec<Effect> = Vec::new();
        match key.key {
            Key::Esc => {
                if self.settings.verify_open {
                    self.settings.verify_open = false;
                } else if self.settings.account_action_open {
                    self.settings.account_action_open = false;
                } else if self.settings.accounts_open {
                    self.settings.accounts_open = false;
                } else if self.settings.theme_open {
                    self.settings.theme_open = false;
                } else if self.settings.sort_open {
                    self.settings.sort_open = false;
                } else {
                    self.overlay = Overlay::Closed;
                }
            },
            Key::Up => {
                if self.settings.verify_open {
                    if self.settings.verify_selected > 0 {
                        self.settings.verify_selected = self.settings.verify_selected - 1;
                    }
                } else if self.settings.account_action_open {
                    if self.settings.account_action_selected > 0 {
                        self.settings.account_action_selected =
                            self.settings.account_action_selected - 1;
                    }
                } else if self.settings.accounts_open {
                    if self.settings.accounts_selected > 0 {
                        self.settings.accounts_selected = self.settings.accounts_selected - 1;
                    }
                } else if self.settings.theme_open {
                    if self.settings.theme_selected > 0 {
                        self.settings.theme_selected = self.settings.theme_selected - 1;
                    }
                } else if self.settings.sort_open {
                    if self.settings.sort_selected > 0 {
                        self.settings.sort_selected = self.settings.sort_selected - 1;
                    }
                } else {
                    if self.settings.selected > 0 {
                        self.settings.selected = self.settings.selected - 1;
                    }
                }
            },
            Key::Down => {
                if self.settings.verify_open {
                    if self.settings.verify_selected < 1 {
                        self.settings.verify_selected = self.settings.verify_selected + 1;
                    }
                } else if self.settings.account_action_open {
                    if self.settings.account_action_selected < 3 {
                        self.settings.account_action_selected =
                            self.settings.account_action_selected + 1;
                    }
                } else if self.settings.accounts_open {
                    // one entry to add an account, then one per account
                    if self.settings.accounts_selected < self.accounts.len() {
                        self.settings.accounts_selected = self.settings.accounts_selected + 1;
                    }
                } else if self.settings.theme_open {
                    if self.settings.theme_selected < 3 {
                        self.settings.theme_selected = self.settings.theme_selected + 1;
                    }
                } else if self.settings.sort_open {
                    if self.settings.sort_selected < 2 {
                        self.settings.sort_selected = self.settings.sort_selected + 1;
                    }
                } else {
                    if self.settings.selected < 3 {
                        self.settings.selected = self.settings.selected + 1;
                    }
                }
            },
            Key::Enter => {
                return self.settings_enter();
            },
            _ => {},
        }
        effects
    }

    /// Enter in the settings overlay: drill into the hovered entry or run
    /// the hovered action.
    fn settings_enter(&mut self) -> (effects: Vec<Effect>)
        ensures
            settings_enter_post(old(self), final(self), effects@),
    {
        let mut effects: Vec<Effect> = Vec::new();
        if self.settings.verify_open {
            if self.settings.accounts_selected == 0 {
                return effects;
            }
            let acct_idx = self.settings.accounts_selected - 1;
            if self.settings.verify_selected == 0 {
                self.settings.verify_open = false;
                self.settings.account_action_open = false;
                self.open_recovery(acct_idx);
            } else {
                self.settings.verify_open = false;
                self.settings.account_action_open = false;
                return self.open_sas_verify(acct_idx);
            }
        } else if self.settings.account_action_open {
            if self.settings.accounts_selected == 0 {
                return effects;
            }
            let acct_idx = self.settings.accounts_selected - 1;
            if self.settings.account_action_selected == 0 {
                self.settings.account_action_open = false;
                return self.begin_reconnect(acct_idx);
            } else if self.settings.account_action_selected == 1 {
                self.settings.account_action_open = false;
                let out = self.remove_account_by_index(acct_idx);
                let count = self.accounts.len();
                if self.settings.accounts_selected > count {
                    self.settings.accounts_selected = count;
                }
                return out;
            } else if self.settings.account_action_selected == 2 {
                self.settings.account_action_open = false;
                return self.open_profile_editor(acct_idx);
            } else {
                self.settings.verify_open = true;
                self.settings.verify_selected = 0;
            }
        } else if self.settings.accounts_open {
            if self.settings.accounts_selected == 0 {
                self.open_login();
            } else {
                self.settings.account_action_open = true;
                self.settings.account_action_selected = 0;
            }
        } else if self.settings.theme_open {
            let names = builtin_theme_names();
            if self.settings.theme_selected < names.len() {
                let name = names[self.settings.theme_selected].clone();
                self.theme_name = name.clone();
                self.config.theme = name;
                effects.push(Effect::SaveConfig);
            }
            self.settings.theme_open = false;
        } else if self.settings.sort_open {
            let mode = if self.settings.sort_selected == 0 {
                crate::types::RoomSortMode::Unread
            } else if self.settings.sort_selected == 1 {
                crate::types::RoomSortMode::Recent
            } else {
                crate::types::RoomSortMode::Alpha
            };
            self.room_sort = mode;
            self.config.room_sort = <String as vstd::string::StringExecFns>::from_str(
                mode.as_str(),
            );
            effects.push(Effect::SaveConfig);
            effects.push(Effect::RefreshRooms);
            self.settings.sort_open = false;
        } else if self.settings.selected == 0 {
            self.settings.accounts_open = true;
            self.settings.theme_open = false;
            self.settings.sort_open = false;
            self.settings.accounts_selected = 0;
        } else if self.settings.selected == 1 {
            self.settings.theme_open = true;
            self.settings.accounts_open = false;
            self.settings.sort_open = false;
            self.settings.theme_selected = 0;
        } else if self.settings.selected == 2 {
            self.settings.sort_open = true;
            self.settings.accounts_open = false;
            self.settings.theme_open = false;
            self.settings.sort_selected = 0;
        } else {
            effects.push(Effect::ClearCache);
            self.overlay = Overlay::Closed;
        }
        effects
    }

    /// Open the device-verification overlay and ask for a self-verification
    /// request to this user's other devices.
    pub fn open_sas_verify(&mut self, account_idx: usize) -> (effects: Vec<Effect>)
        ensures
            final(self).settings == old(self).settings,
            final(self).chat == old(self).chat,
            final(self).accounts == old(self).accounts,
            final(self).room_messages == old(self).room_messages,
            final(self).running == old(self).running,
            final(self).config == old(self).config,
            final(self).pending_echoes == old(self).pending_echoes,
            account_idx < old(self).accounts@.len() ==> {
                &&& final(self).overlay is SasVerify
                &&& final(self).sas.state is Waiting
                &&& final(self).sas.emojis@.len() == 0
                &&& final(self).sas.error is None
                &&& final(self).sas.flow_id is None
                &&& !final(self).sas.has_handle
                &&& final(self).sas.account_idx == account_idx
                &&& effects@.len() == 1
                &&& (effects@[0] matches Effect::RequestVerification { account_id }
                    && account_id@ == old(self).accounts@[account_idx as int].user_id@)
            },
            account_idx >= old(self).accounts@.len() ==> *final(self) == *old(self)
                && effects@.len() == 0,
    {
        let mut effects: Vec<Effect> = Vec::new();
        if account_idx >= self.accounts.len() {
            return effects;
        }
        self.sas = crate::state::SasUiState {
            state: crate::types::SasOverlayState::Waiting,
            emojis: Vec::new(),
            error: None,
            account_idx,
            flow_id: None,
            user_id: None,
            has_handle: false,
        };
        self.overlay = Overlay::SasVerify;
        effects.push(
            Effect::RequestVerification { account_id: self.accounts[account_idx].user_id.clone() },
        );
        effects
    }

    /// Keys in the verification overlay, by its state: accept an incoming
    /// request, confirm or reject the emoji set, or dismiss a finished flow.
    /// While confirming, nothing is accepted.
    pub fn handle_sas_verify_key(&mut self, key: KeyInput) -> (effects: Vec<Effect>)
        ensures
            sas_verify_key_post(old(self), final(self), key, effects@),
    {
        let mut effects: Vec<Effect> = Vec::new();
        match self.sas.state {
            crate::types::SasOverlayState::Waiting => {
                if matches!(key.key, Key::Esc) {
                    self.overlay = Overlay::Closed;
                }
            },
            crate::types::SasOverlayState::Incoming => {
                match key.key {
                    Key::Enter => {
                        if self.sas.account_idx < self.accounts.len() {
                            self.sas.state = crate::types::SasOverlayState::Waiting;
                            let user_id = match &self.sas.user_id {
                                Some(u) => u.clone(),
                                None => String::new(),
                            };
                            let flow_id = match &self.sas.flow_id {
                                Some(f) => f.clone(),
                                None => String::new(),
                            };
                            effects.push(
                                Effect::AcceptVerification {
                                    account_id: self.accounts[self.sas.account_idx].user_id
                                        .clone(),
                                    user_id,
                                    flow_id,
                                },
                            );
                        }
                    },
                    Key::Esc => {
                        self.overlay = Overlay::Closed;
                    },
                    _ => {},
                }
            },
            crate::types::SasOverlayState::Emojis => {
                match key.key {
                    Key::Enter => {
                        self.sas.state = crate::types::SasOverlayState::Confirming;
                        effects.push(Effect::SasConfirm);
                    },
                    Key::Char(c) => {
                        if c == 'y' {
                            self.sas.state = crate::types::SasOverlayState::Confirming;
                            effects.push(Effect::SasConfirm);
                        } else if c == 'n' {
                            self.sas.state = crate::types::SasOverlayState::Failed;
                            self.sas.error = Some(
                                <String as vstd::string::StringExecFns>::from_str(
                                    "Emojis did not match - verification cancelled",
                                ),
                            );
                            effects.push(Effect::SasMismatch);
                        }
                    },
                    Key::Esc => {
                        effects.push(Effect::SasCancel);
                        self.overlay = Overlay::Closed;
                    },
                    _ => {},
                }
            },
            crate::types::SasOverlayState::Confirming => {},
            crate::types::SasOverlayState::Done | crate::types::SasOverlayState::Failed => {
                if matches!(key.key, Key::Enter) || matches!(key.key, Key::Esc) {
                    self.overlay = Overlay::Closed;
                }
            },
        }
        effects
    }
}

/// The name of the built-in theme at a picker position.
pub open spec fn theme_name_of(i: int) -> Seq<char> {
    if i == 0 {
        "dark"@
    } else if i == 1 {
        "light"@
    } else if i == 2 {
        "solarized"@
    } else {
        "midnight"@
    }
}

/// The names of the built-in themes, as the renderer knows them.
pub fn builtin_theme_names() -> (r: Vec<String>)
    ensures
        r@.len() == 4,
        forall|i: int| 0 <= i < 4 ==> (#[trigger] r@[i])@ == theme_name_of(i),
{
    proof {
        reveal_strlit("dark");
        reveal_strlit("light");
        reveal_strlit("solarized");
        reveal_strlit("midnight");
    }
    let mut out: Vec<String> = Vec::new();
    out.push(<String as vstd::string::StringExecFns>::from_str("dark"));
    out.push(<String as vstd::string::StringExecFns>::from_str("light"));
    out.push(<String as vstd::string::StringExecFns>::from_str("solarized"));
    out.push(<String as vstd::string::StringExecFns>::from_str("midnight"));
    out
}


impl AppState {
    /// Open the profile editor for an account and ask for its current
    /// profile; the form stays busy until the answer arrives.
    pub fn open_profile_editor(&mut self, account_idx: usize) -> (effects: Vec<Effect>)
        ensures
            final(self).settings == old(self).settings,
            final(self).chat == old(self).chat,
            final(self).accounts == old(self).accounts,
            final(self).room_messages == old(self).room_messages,
            final(self).running == old(self).running,
            final(self).config == old(self).config,
            final(self).pending_echoes == old(self).pending_echoes,
            account_idx < old(self).accounts@.len() ==> {
                &&& final(self).overlay is ProfileEditor
                &&& final(self).profile.busy
                &&& final(self).profile.account_idx == account_idx
                &&& final(self).profile.error is None
                &&& effects@.len() == 1
                &&& (effects@[0] matches Effect::FetchProfile { account_id } && account_id@
                    == old(self).accounts@[account_idx as int].user_id@)
            },
            account_idx >= old(self).accounts@.len() ==> *final(self) == *old(self)
                && effects@.len() == 0,
    {
        let mut effects: Vec<Effect> = Vec::new();
        if account_idx >= self.accounts.len() {
            return effects;
        }
        self.profile = crate::state::ProfileForm {
            display_name: String::new(),
            avatar_url: String::new(),
            avatar_path: String::new(),
            focus_field: 0,
            error: None,
            busy: true,
            account_idx,
            current_name: String::new(),
            current_avatar: String::new(),
        };
        self.overlay = Overlay::ProfileEditor;
        effects.push(
            Effect::FetchProfile { account_id: self.accounts[account_idx].user_id.clone() },
        );
        effects
    }

    /// The profile arrived: show it and accept input.
    pub fn apply_profile_loaded(&mut self, display_name: String, avatar_url: String)
        ensures
            final(self).only_form_changed(old(self)),
            final(self).sas == old(self).sas,
            !final(self).profile.busy,
            final(self).profile.current_name@ == display_name@,
            final(self).profile.current_avatar@ == avatar_url@,
            final(self).profile.display_name@ == display_name@,
    {
        self.profile.current_name = display_name.clone();
        self.profile.current_avatar = avatar_url;
        self.profile.display_name = display_name;
        self.profile.busy = false;
    }

    /// Keys in the profile editor: edit the three fields or submit the
    /// focused one.  A busy form takes no input.
    pub fn handle_profile_key(&mut self, key: KeyInput) -> (effects: Vec<Effect>)
        ensures
            profile_key_post(old(self), final(self), key, effects@),
    {
        let mut effects: Vec<Effect> = Vec::new();
        if self.profile.busy {
            return effects;
        }
        match key.key {
            Key::Tab => {
                self.profile.focus_field = (self.profile.focus_field % 3 + 1) % 3;
            },
            Key::BackTab => {
                self.profile.focus_field = if self.profile.focus_field == 0 {
                    2
                } else {
                    self.profile.focus_field - 1
                };
            },
            Key::Enter => {
                if self.profile.account_idx < self.accounts.len() {
                    let account_id = self.accounts[self.profile.account_idx].user_id.clone();
                    if self.profile.focus_field == 0 {
                        if self.profile.display_name.as_str().unicode_len() > 0 {
                            self.profile.busy = true;
                            self.profile.error = None;
                            effects.push(
                                Effect::SetDisplayName {
                                    account_id,
                                    name: self.profile.display_name.clone(),
                                },
                            );
                        }
                    } else if self.profile.focus_field == 1 {
                        if self.profile.avatar_url.as_str().unicode_len() > 0 {
                            self.profile.busy = true;
                            self.profile.error = None;
                            effects.push(
                                Effect::SetAvatarUrl {
                                    account_id,
                                    url: self.profile.avatar_url.clone(),
                                },
                            );
                        }
                    } else {
                        if self.profile.avatar_path.as_str().unicode_len() > 0 {
                            self.profile.busy = true;
                            self.profile.error = None;
                            effects.push(
                                Effect::UploadAvatar {
                                    account_id,
                                    path: self.profile.avatar_path.clone(),
                                },
                            );
                        }
                    }
                }
            },
            Key::Esc => {
                self.overlay = Overlay::Closed;
            },
            Key::Char(c) => {
                if self.profile.focus_field == 0 {
                    self.profile.display_name = text::append_char(
                        self.profile.display_name.as_str(),
                        c,
                    );
                } else if self.profile.focus_field == 1 {
                    self.profile.avatar_url = text::append_char(
                        self.profile.avatar_url.as_str(),
                        c,
                    );
                } else {
                    self.profile.avatar_path = text::append_char(
                        self.profile.avatar_path.as_str(),
                        c,
                    );
                }
            },
            Key::Backspace => {
                if self.profile.focus_field == 0 {
                    self.profile.display_name = text::pop_char(self.profile.display_name.as_str());
                } else if self.profile.focus_field == 1 {
                    self.profile.avatar_url = text::pop_char(self.profile.avatar_url.as_str());
                } else {
                    self.profile.avatar_path = text::pop_char(self.profile.avatar_path.as_str());
                }
            },
            _ => {},
        }
        effects
    }

    /// A profile mutation finished: close on success, report on failure.
    pub fn apply_profile_result(&mut self, result: Result<(), String>)
        ensures
            final(self).only_form_changed(old(self)),
            final(self).sas == old(self).sas,
            !final(self).profile.busy,
            result is Ok ==> final(self).overlay is Closed,
            result matches Err(e) ==> (final(self).profile.error matches Some(msg) && msg@ == e@)
                && final(self).overlay == old(self).overlay,
    {
        match result {
            Ok(_) => {
                self.overlay = Overlay::Closed;
                self.profile.busy = false;
                self.status_msg = <String as vstd::string::StringExecFns>::from_str(
                    "Profile updated",
                );
            },
            Err(e) => {
                self.profile.error = Some(e);
                self.profile.busy = false;
            },
        }
    }

    /// Open the room creator with a blank form.
    pub fn open_room_creator(&mut self)
        ensures
            *final(self) == (AppState {
                overlay: Overlay::RoomCreator,
                creator: final(self).creator,
                ..*old(self)
            }),
            final(self).creator.name@.len() == 0,
            final(self).creator.error is None,
            !final(self).creator.busy,
            final(self).creator.e2ee,
            final(self).creator.federated,
    {
        let account_idx: usize = match &self.active_account_id {
            Some(aid) => {
                match crate::state::find_account(&self.accounts, aid.as_str()) {
                    Some(i) => i,
                    None => 0,
                }
            },
            None => 0,
        };
        self.creator = crate::state::CreatorForm {
            name: String::new(),
            topic: String::new(),
            visibility: 0,
            e2ee: true,
            federated: true,
            invite: String::new(),
            account_idx,
            focus_field: 0,
            error: None,
            busy: false,
        };
        self.overlay = Overlay::RoomCreator;
    }

    /// Keys in the room creator: move focus, toggle switches, type into the
    /// fields, or submit.  A busy form takes no input; a submission without
    /// a name is rejected with an error instead of a request.
    pub fn handle_creator_key(&mut self, key: KeyInput) -> (effects: Vec<Effect>)
        ensures
            creator_key_post(old(self), final(self), key, effects@),
    {
        let mut effects: Vec<Effect> = Vec::new();
        if self.creator.busy {
            return effects;
        }
        match key.key {
            Key::Tab => {
                self.creator.focus_field = (self.creator.focus_field % 7 + 1) % 7;
            },
            Key::BackTab => {
                self.creator.focus_field = if self.creator.focus_field == 0 {
                    6
                } else {
                    self.creator.focus_field - 1
                };
            },
            Key::Enter => {
                if self.creator.focus_field == 0 && self.accounts.len() > 1 {
                    self.creator.account_idx = (self.creator.account_idx % self.accounts.len() + 1)
                        % self.accounts.len();
                } else if self.creator.focus_field == 3 {
                    self.creator.visibility = if self.creator.visibility == 0 {
                        1
                    } else {
                        0
                    };
                } else if self.creator.focus_field == 4 {
                    self.creator.e2ee = !self.creator.e2ee;
                } else if self.creator.focus_field == 5 {
                    self.creator.federated = !self.creator.federated;
                } else {
                    return self.submit_create_room();
                }
            },
            Key::Esc => {
                self.overlay = Overlay::Closed;
            },
            Key::Char(c) => {
                if self.creator.focus_field == 1 {
                    self.creator.name = text::append_char(self.creator.name.as_str(), c);
                } else if self.creator.focus_field == 2 {
                    self.creator.topic = text::append_char(self.creator.topic.as_str(), c);
                } else if self.creator.focus_field == 6 {
                    self.creator.invite = text::append_char(self.creator.invite.as_str(), c);
                }
            },
            Key::Backspace => {
                if self.creator.focus_field == 1 {
                    self.creator.name = text::pop_char(self.creator.name.as_str());
                } else if self.creator.focus_field == 2 {
                    self.creator.topic = text::pop_char(self.creator.topic.as_str());
                } else if self.creator.focus_field == 6 {
                    self.creator.invite = text::pop_char(self.creator.invite.as_str());
                }
            },
            _ => {},
        }
        effects
    }

    /// Validate the creator form and request the room: an empty name is an
    /// error, a missing account is an error, anything else goes out.
    fn submit_create_room(&mut self) -> (effects: Vec<Effect>)
        ensures
            final(self).only_form_changed(old(self)),
            final(self).sas == old(self).sas,
            final(self).overlay == old(self).overlay,
            effects@.len() > 0 ==> effects@.len() == 1 && (effects@[0] matches
                Effect::CreateRoom { name, is_public, e2ee, .. } && name@ == old(self).creator.name@ && old(self).creator.name@.len() > 0 && is_public == (old(self).creator.visibility == 1) && e2ee == old(self).creator.e2ee) && final(self).creator.busy,
            old(self).creator.name@.len() == 0 ==> effects@.len() == 0 && final(self).creator.error is Some,
            (old(self).creator.name@.len() > 0 && old(self).creator.account_idx < old(self).accounts@.len()) ==> effects@.len() == 1,
    {
        let mut effects: Vec<Effect> = Vec::new();
        if self.creator.name.as_str().unicode_len() == 0 {
            self.creator.error = Some(
                <String as vstd::string::StringExecFns>::from_str("Room name is required"),
            );
            return effects;
        }
        if self.creator.account_idx >= self.accounts.len() {
            self.creator.error = Some(
                <String as vstd::string::StringExecFns>::from_str("No account available"),
            );
            return effects;
        }
        self.creator.busy = true;
        self.creator.error = None;
        let topic: Option<String> = if self.creator.topic.as_str().unicode_len() == 0 {
            None
        } else {
            Some(self.creator.topic.clone())
        };
        let mut invites: Vec<String> = Vec::new();
        invites.push(self.creator.invite.clone());
        effects.push(
            Effect::CreateRoom {
                account_id: self.accounts[self.creator.account_idx].user_id.clone(),
                name: self.creator.name.clone(),
                topic,
                is_public: self.creator.visibility == 1,
                e2ee: self.creator.e2ee,
                invites,
            },
        );
        effects
    }

    /// Room creation finished: close and refresh on success, report on
    /// failure.
    pub fn apply_create_room_result(&mut self, result: Result<String, String>) -> (effects: Vec<
        Effect,
    >)
        ensures
            final(self).only_form_changed(old(self)),
            final(self).sas == old(self).sas,
            !final(self).creator.busy,
            result is Ok ==> final(self).overlay is Closed && effects@.len() == 1 && effects@[0]
                is RefreshRooms,
            result matches Err(e) ==> (final(self).creator.error matches Some(msg) && msg@ == e@)
                && final(self).overlay == old(self).overlay && effects@.len() == 0,
    {
        let mut effects: Vec<Effect> = Vec::new();
        match result {
            Ok(_room_id) => {
                self.overlay = Overlay::Closed;
                self.creator.busy = false;
                self.status_msg = <String as vstd::string::StringExecFns>::from_str(
                    "Room created",
                );
                effects.push(Effect::RefreshRooms);
            },
            Err(e) => {
                self.creator.error = Some(e);
                self.creator.busy = false;
            },
        }
        effects
    }

    /// Open the room editor on the active room, with the current name and
    /// topic filled in by the caller.
    pub fn open_room_editor(&mut self, current_topic: String)
        ensures
            (old(self).active_room is Some && old(self).active_account_id is Some) ==> {
                &&& final(self).overlay is RoomEditor
                &&& final(self).editor.room_id == old(self).active_room
                &&& final(self).editor.account_id == old(self).active_account_id
                &&& final(self).editor.topic@ == current_topic@
                &&& !final(self).editor.busy
                &&& !final(self).editor.confirm_leave
                &&& !final(self).editor.confirm_delete
            },
            !(old(self).active_room is Some && old(self).active_account_id is Some) ==> *final(self) == *old(self),
    {
        if self.active_room.is_some() && self.active_account_id.is_some() {
            let room_id = crate::types::clone_opt_string(&self.active_room);
            let account_id = crate::types::clone_opt_string(&self.active_account_id);
            let name: String = match &self.active_room {
                Some(rid) => {
                    match crate::rooms::find_room(&self.rooms.all_rooms, rid.as_str()) {
                        Some(i) => self.rooms.all_rooms[i].name.clone(),
                        None => String::new(),
                    }
                },
                None => String::new(),
            };
            self.editor = crate::state::EditorForm {
                name,
                topic: current_topic,
                invite_user: String::new(),
                focus_field: 0,
                error: None,
                busy: false,
                confirm_leave: false,
                confirm_delete: false,
                room_id,
                account_id,
            };
            self.overlay = Overlay::RoomEditor;
        }
    }

    /// Keys in the room editor: rename, retopic, invite, or leave or delete
    /// the room behind a two-step confirmation.  A busy form takes no input.
    pub fn handle_editor_key(&mut self, key: KeyInput) -> (effects: Vec<Effect>)
        ensures
            editor_key_post(old(self), final(self), key, effects@),
    {
        let mut effects: Vec<Effect> = Vec::new();
        if self.editor.busy {
            return effects;
        }
        match key.key {
            Key::Tab => {
                self.editor.focus_field = (self.editor.focus_field % 5 + 1) % 5;
                self.editor.confirm_leave = false;
                self.editor.confirm_delete = false;
            },
            Key::BackTab => {
                self.editor.focus_field = if self.editor.focus_field == 0 {
                    4
                } else {
                    self.editor.focus_field - 1
                };
                self.editor.confirm_leave = false;
                self.editor.confirm_delete = false;
            },
            Key::Enter => {
                let ids: Option<(String, String)> = match (
                    &self.editor.room_id,
                    &self.editor.account_id,
                ) {
                    (Some(r), Some(a)) => Some((r.clone(), a.clone())),
                    _ => None,
                };
                if let Some((room_id, account_id)) = ids {
                    if self.editor.focus_field == 0 {
                        if self.editor.name.as_str().unicode_len() == 0 {
                            self.editor.error = Some(
                                <String as vstd::string::StringExecFns>::from_str(
                                    "Name cannot be empty",
                                ),
                            );
                        } else {
                            self.editor.busy = true;
                            self.editor.error = None;
                            effects.push(
                                Effect::SetRoomName {
                                    account_id,
                                    room_id,
                                    name: self.editor.name.clone(),
                                },
                            );
                        }
                    } else if self.editor.focus_field == 1 {
                        self.editor.busy = true;
                        self.editor.error = None;
                        effects.push(
                            Effect::SetRoomTopic {
                                account_id,
                                room_id,
                                topic: self.editor.topic.clone(),
                            },
                        );
                    } else if self.editor.focus_field == 2 {
                        if self.editor.invite_user.as_str().unicode_len() == 0 {
                            self.editor.error = Some(
                                <String as vstd::string::StringExecFns>::from_str(
                                    "Enter a user ID",
                                ),
                            );
                        } else {
                            self.editor.busy = true;
                            self.editor.error = None;
                            effects.push(
                                Effect::InviteUser {
                                    account_id,
                                    room_id,
                                    user_id: self.editor.invite_user.clone(),
                                },
                            );
                        }
                    } else if self.editor.focus_field == 3 {
                        if self.editor.confirm_leave {
                            self.editor.busy = true;
                            effects.push(Effect::LeaveRoom { account_id, room_id });
                        } else {
                            self.editor.confirm_leave = true;
                        }
                    } else if self.editor.focus_field == 4 {
                        if self.editor.confirm_delete {
                            self.editor.busy = true;
                            effects.push(Effect::ForgetRoom { account_id, room_id });
                        } else {
                            self.editor.confirm_delete = true;
                        }
                    }
                }
            },
            Key::Esc => {
                if self.editor.confirm_leave || self.editor.confirm_delete {
                    self.editor.confirm_leave = false;
                    self.editor.confirm_delete = false;
                } else {
                    self.overlay = Overlay::Closed;
                }
            },
            Key::Char(c) => {
                self.editor.confirm_leave = false;
                self.editor.confirm_delete = false;
                if self.editor.focus_field == 0 {
                    self.editor.name = text::append_char(self.editor.name.as_str(), c);
                } else if self.editor.focus_field == 1 {
                    self.editor.topic = text::append_char(self.editor.topic.as_str(), c);
                } else if self.editor.focus_field == 2 {
                    self.editor.invite_user = text::append_char(self.editor.invite_user.as_str(), c);
                }
            },
            Key::Backspace => {
                self.editor.confirm_leave = false;
                self.editor.confirm_delete = false;
                if self.editor.focus_field == 0 {
                    self.editor.name = text::pop_char(self.editor.name.as_str());
                } else if self.editor.focus_field == 1 {
                    self.editor.topic = text::pop_char(self.editor.topic.as_str());
                } else if self.editor.focus_field == 2 {
                    self.editor.invite_user = text::pop_char(self.editor.invite_user.as_str());
                }
            },
            _ => {},
        }
        effects
    }

    /// A room-editor request finished: clear busy; show the error if any.
    pub fn apply_editor_result(&mut self, result: Result<(), String>)
        ensures
            final(self).only_form_changed(old(self)),
            final(self).sas == old(self).sas,
            final(self).overlay == old(self).overlay,
            !final(self).editor.busy,
            result matches Err(e) ==> final(self).editor.error matches Some(msg) && msg@ == e@,
    {
        match result {
            Ok(_) => {
                self.editor.busy = false;
            },
            Err(e) => {
                self.editor.error = Some(e);
                self.editor.busy = false;
            },
        }
    }

    /// Keys in the message-action overlay: pick edit or delete, or edit the
    /// replacement text.  A busy overlay takes no input.
    pub fn handle_message_action_key(&mut self, key: KeyInput) -> (effects: Vec<Effect>)
        ensures
            message_action_key_post(old(self), final(self), key, effects@),
    {
        let mut effects: Vec<Effect> = Vec::new();
        if self.msg_action.busy {
            return effects;
        }
        if self.msg_action.editing {
            match key.key {
                Key::Enter => {
                    return self.submit_edit_message();
                },
                Key::Esc => {
                    self.msg_action.editing = false;
                    self.msg_action.error = None;
                },
                Key::Char(c) => {
                    if self.msg_action.edit_cursor <= self.msg_action.edit_text.as_str()
                        .unicode_len() && self.msg_action.edit_text.as_str().unicode_len()
                        < usize::MAX {
                        self.msg_action.edit_text = text::insert_char_at(
                            self.msg_action.edit_text.as_str(),
                            self.msg_action.edit_cursor,
                            c,
                        );
                        self.msg_action.edit_cursor = self.msg_action.edit_cursor + 1;
                    }
                },
                Key::Backspace => {
                    if self.msg_action.edit_cursor > 0 && self.msg_action.edit_cursor
                        <= self.msg_action.edit_text.as_str().unicode_len() {
                        self.msg_action.edit_cursor = self.msg_action.edit_cursor - 1;
                        self.msg_action.edit_text = text::remove_char_at(
                            self.msg_action.edit_text.as_str(),
                            self.msg_action.edit_cursor,
                        );
                    }
                },
                Key::Delete => {
                    if self.msg_action.edit_cursor < self.msg_action.edit_text.as_str()
                        .unicode_len() {
                        self.msg_action.edit_text = text::remove_char_at(
                            self.msg_action.edit_text.as_str(),
                            self.msg_action.edit_cursor,
                        );
                    }
                },
                Key::Left => {
                    if self.msg_action.edit_cursor > 0 {
                        self.msg_action.edit_cursor = self.msg_action.edit_cursor - 1;
                    }
                },
                Key::Right => {
                    if self.msg_action.edit_cursor < self.msg_action.edit_text.as_str()
                        .unicode_len() {
                        self.msg_action.edit_cursor = self.msg_action.edit_cursor + 1;
                    }
                },
                Key::Home => {
                    self.msg_action.edit_cursor = 0;
                },
                Key::End => {
                    self.msg_action.edit_cursor = self.msg_action.edit_text.as_str().unicode_len();
                },
                _ => {},
            }
            return effects;
        }
        match key.key {
            Key::Up => {
                if self.msg_action.selected > 0 {
                    self.msg_action.selected = self.msg_action.selected - 1;
                }
            },
            Key::Down => {
                if self.msg_action.selected < 1 {
                    self.msg_action.selected = self.msg_action.selected + 1;
                }
            },
            Key::Enter => {
                if self.msg_action.selected == 0 {
                    // Edit: only a confirmed message can be edited.
                    let editable = match self.chat.selected_message {
                        Some(idx) => {
                            if idx < self.chat.messages.len() {
                                self.chat.messages[idx].event_id.is_some()
                            } else {
                                false
                            }
                        },
                        None => false,
                    };
                    if editable {
                        self.msg_action.editing = true;
                        self.msg_action.edit_cursor = self.msg_action.edit_text.as_str()
                            .unicode_len();
                        self.msg_action.error = None;
                    } else {
                        self.msg_action.error = Some(
                            <String as vstd::string::StringExecFns>::from_str(
                                "Cannot edit: no event ID",
                            ),
                        );
                    }
                } else {
                    return self.submit_delete_message();
                }
            },
            Key::Esc => {
                self.overlay = Overlay::Closed;
            },
            _ => {},
        }
        effects
    }

    /// Ask for the selected message to be replaced by the edited text.
    fn submit_edit_message(&mut self) -> (effects: Vec<Effect>)
        ensures
            final(self).running == old(self).running,
            final(self).chat == old(self).chat,
            final(self).accounts == old(self).accounts,
            final(self).config == old(self).config,
            final(self).room_messages == old(self).room_messages,
            effects@.len() > 0 ==> effects@.len() == 1 && effects@[0] is EditMessage && final(self).msg_action.busy,
            ({
                let target_ok = old(self).chat.selected_message matches Some(idx) && idx < old(self).chat.messages@.len() && old(self).chat.messages@[idx as int].event_id is Some;
                let ids_ok = old(self).active_room is Some && old(self).active_account_id is Some;
                &&& ((target_ok && ids_ok) ==> effects@.len() == 1 && (effects@[0] matches
                    Effect::EditMessage { new_body, .. } && new_body@ == old(self).msg_action.edit_text@))
                &&& (!target_ok ==> effects@.len() == 0 && final(self).msg_action.error is Some)
            }),
    {
        let mut effects: Vec<Effect> = Vec::new();
        let target: Option<String> = match self.chat.selected_message {
            Some(idx) => {
                if idx < self.chat.messages.len() {
                    crate::types::clone_opt_string(&self.chat.messages[idx].event_id)
                } else {
                    None
                }
            },
            None => None,
        };
        let eid = match target {
            Some(e) => e,
            None => {
                self.msg_action.error = Some(
                    <String as vstd::string::StringExecFns>::from_str("Cannot edit: no event ID"),
                );
                return effects;
            },
        };
        let ids: Option<(String, String)> = match (&self.active_room, &self.active_account_id) {
            (Some(r), Some(a)) => Some((r.clone(), a.clone())),
            _ => None,
        };
        if let Some((room_id, account_id)) = ids {
            self.msg_action.busy = true;
            self.msg_action.error = None;
            effects.push(
                Effect::EditMessage {
                    account_id,
                    room_id,
                    event_id: eid,
                    new_body: self.msg_action.edit_text.clone(),
                },
            );
        }
        effects
    }

    /// Ask for the selected message to be redacted.
    fn submit_delete_message(&mut self) -> (effects: Vec<Effect>)
        ensures
            final(self).running == old(self).running,
            final(self).chat == old(self).chat,
            final(self).accounts == old(self).accounts,
            final(self).config == old(self).config,
            final(self).room_messages == old(self).room_messages,
            effects@.len() > 0 ==> effects@.len() == 1 && effects@[0] is RedactMessage && final(self).msg_action.busy,
            ({
                let target_ok = old(self).chat.selected_message matches Some(idx) && idx < old(self).chat.messages@.len() && old(self).chat.messages@[idx as int].event_id is Some;
                let ids_ok = old(self).active_room is Some && old(self).active_account_id is Some;
                &&& ((target_ok && ids_ok) ==> effects@.len() == 1)
                &&& (!target_ok ==> effects@.len() == 0 && final(self).msg_action.error is Some)
            }),
    {
        let mut effects: Vec<Effect> = Vec::new();
        let target: Option<String> = match self.chat.selected_message {
            Some(idx) => {
                if idx < self.chat.messages.len() {
                    crate::types::clone_opt_string(&self.chat.messages[idx].event_id)
                } else {
                    None
                }
            },
            None => None,
        };
        let eid = match target {
            Some(e) => e,
            None => {
                self.msg_action.error = Some(
                    <String as vstd::string::StringExecFns>::from_str(
                        "Cannot delete: no event ID",
                    ),
                );
                return effects;
            },
        };
        let ids: Option<(String, String)> = match (&self.active_room, &self.active_account_id) {
            (Some(r), Some(a)) => Some((r.clone(), a.clone())),
            _ => None,
        };
        if let Some((room_id, account_id)) = ids {
            self.msg_action.busy = true;
            self.msg_action.error = None;
            effects.push(Effect::RedactMessage { account_id, room_id, event_id: eid });
        }
        effects
    }

    /// An edit was accepted: the displayed message takes the new body.
    pub fn apply_edit_message_success(&mut self, new_body: String)
        ensures
            final(self).accounts == old(self).accounts,
            final(self).config == old(self).config,
            final(self).room_messages == old(self).room_messages,
            final(self).overlay is Closed,
            !final(self).msg_action.busy,
            (old(self).chat.selected_message matches Some(idx) && idx < old(self).chat.messages@.len()) ==> crate::types::models(final(self).chat.messages@) == crate::types::models(
                old(self).chat.messages@,
            ).update(
                old(self).chat.selected_message->Some_0 as int,
                crate::types::MessageModel {
                    content: crate::types::ContentModel::Text(new_body@),
                    ..old(self).chat.messages@[old(self).chat.selected_message->Some_0 as int]@
                },
            ),
    {
        if let Some(idx) = self.chat.selected_message {
            if idx < self.chat.messages.len() {
                let ghost pre = self.chat.messages@;
                let mut m = self.chat.messages.remove(idx);
                m.content = crate::types::MessageContent::Text(new_body);
                let ghost mm = m@;
                self.chat.messages.insert(idx, m);
                proof {
                    assert(self.chat.messages@ =~= pre.update(idx as int, self.chat.messages@[idx as int]));
                    assert(crate::types::models(self.chat.messages@) =~= crate::types::models(
                        pre,
                    ).update(idx as int, mm));
                }
            }
        }
        self.overlay = Overlay::Closed;
        self.msg_action.busy = false;
        self.status_msg = <String as vstd::string::StringExecFns>::from_str("Message edited");
    }

    /// A redaction was accepted: the message leaves the displayed list and
    /// the selection is clamped.
    pub fn apply_delete_message_success(&mut self)
        ensures
            final(self).accounts == old(self).accounts,
            final(self).config == old(self).config,
            final(self).room_messages == old(self).room_messages,
            final(self).overlay is Closed,
            !final(self).msg_action.busy,
            (old(self).chat.selected_message matches Some(idx) && idx < old(self).chat.messages@.len()) ==> {
                &&& final(self).chat.messages@ == old(self).chat.messages@.remove(
                    old(self).chat.selected_message->Some_0 as int,
                )
                &&& (final(self).chat.messages@.len() == 0 ==> final(self).chat.selected_message is None)
                &&& (final(self).chat.messages@.len() > 0 ==> (final(self).chat.selected_message matches Some(ns) && ns < final(self).chat.messages@.len()))
            },
    {
        if let Some(idx) = self.chat.selected_message {
            if idx < self.chat.messages.len() {
                self.chat.messages.remove(idx);
                if self.chat.messages.len() == 0 {
                    self.chat.selected_message = None;
                } else if idx >= self.chat.messages.len() {
                    self.chat.selected_message = Some(self.chat.messages.len() - 1);
                }
            }
        }
        self.overlay = Overlay::Closed;
        self.msg_action.busy = false;
        self.status_msg = <String as vstd::string::StringExecFns>::from_str("Message deleted");
    }

    /// A message-action request failed: show the error, accept input again.
    pub fn apply_message_action_failure(&mut self, error: String)
        ensures
            final(self).chat == old(self).chat,
            final(self).accounts == old(self).accounts,
            final(self).config == old(self).config,
            final(self).room_messages == old(self).room_messages,
            !final(self).msg_action.busy,
            final(self).msg_action.error matches Some(e) && e@ == error@,
    {
        self.msg_action.error = Some(error);
        self.msg_action.busy = false;
    }
}


/// Whether a key is one of the global shortcuts that pre-empt the focused
/// panel: they fire only with no overlay open and the input box unfocused.
pub open spec fn global_shortcut(s: &AppState, key: KeyInput) -> bool {
    !key.ctrl && s.overlay is Closed && !(s.focus is Input) && (key.key == Key::Char('s') || (
    key.key == Key::Char('n') && s.accounts@.len() > 0) || (key.key == Key::Char('e')
        && s.active_room is Some && !(s.focus is Chat)))
}

impl AppState {
    /// Route one key press: global shortcuts first, then the open overlay
    /// exclusively, then the focused panel.  Ctrl-Q always quits; while an
    /// overlay is open no panel sees any key.
    pub fn handle_key(&mut self, key: KeyInput) -> (effects: Vec<Effect>)
        ensures
            (key.ctrl && key.key == Key::Char('q')) ==> *final(self) == (AppState {
                running: false,
                ..*old(self)
            }) && effects@.len() == 0,
            (key.ctrl && key.key == Key::Char('k')) ==> final(self).overlay is RoomSwitcher
                && final(self).switcher.query@.len() == 0 && final(self).switcher.selected == 0
                && effects@.len() == 0,
            (key.ctrl && key.key == Key::Char('i')) ==> ({
                if old(self).overlay is Closed && old(self).active_room is Some && old(
                    self,
                ).active_account_id is Some {
                    final(self).overlay is RoomInfo && effects@.len() == 1 && (effects@[0]
                        matches Effect::FetchRoomDetails { account_id, room_id } && (old(
                        self,
                    ).active_account_id matches Some(aid) && account_id@ == aid@) && (old(
                        self,
                    ).active_room matches Some(ar) && room_id@ == ar@))
                } else {
                    *final(self) == *old(self) && effects@.len() == 0
                }
            }),
            !(key.ctrl && (key.key == Key::Char('q'))) ==> final(self).running == old(self).running,
            (!key.ctrl && global_shortcut(old(self), key)) ==> ({
                if key.key == Key::Char('s') {
                    &&& *final(self) == (AppState {
                        overlay: Overlay::Settings,
                        settings: final(self).settings,
                        ..*old(self)
                    })
                    &&& final(self).settings.at_top()
                    &&& final(self).settings.selected == 0
                    &&& effects@.len() == 0
                } else if key.key == Key::Char('n') {
                    &&& *final(self) == (AppState {
                        overlay: Overlay::RoomCreator,
                        creator: final(self).creator,
                        ..*old(self)
                    })
                    &&& final(self).creator.name@.len() == 0
                    &&& final(self).creator.error is None
                    &&& !final(self).creator.busy
                    &&& effects@.len() == 0
                } else {
                    *final(self) == *old(self) && (match old(self).active_account_id {
                        Some(aid) => effects@.len() == 1 && (effects@[0] matches
                            Effect::FetchRoomTopic { account_id, room_id } && account_id@
                            == aid@ && (old(self).active_room matches Some(ar) && room_id@
                            == ar@)),
                        None => effects@.len() == 0,
                    })
                }
            }),
            (!key.ctrl && !global_shortcut(old(self), key)) ==> match old(self).overlay {
                Overlay::Login => login_key_post(old(self), final(self), key, effects@),
                Overlay::Help => help_key_post(old(self), final(self), key) && effects@.len()
                    == 0,
                Overlay::RoomSwitcher => switcher_key_post(old(self), final(self), key, effects@),
                Overlay::Settings => settings_key_post(old(self), final(self), key, effects@),
                Overlay::ProfileEditor => profile_key_post(old(self), final(self), key, effects@),
                Overlay::RoomCreator => creator_key_post(old(self), final(self), key, effects@),
                Overlay::RoomEditor => editor_key_post(old(self), final(self), key, effects@),
                Overlay::Recovery => recovery_key_post(old(self), final(self), key, effects@),
                Overlay::MessageAction => message_action_key_post(
                    old(self),
                    final(self),
                    key,
                    effects@,
                ),
                Overlay::SasVerify => sas_verify_key_post(old(self), final(self), key, effects@),
                Overlay::EmojiPicker => emoji_picker_key_post(
                    old(self),
                    final(self),
                    key,
                    effects@,
                ),
                Overlay::RoomInfo => effects@.len() == 0 && (if key.key is Esc {
                    *final(self) == (AppState { overlay: Overlay::Closed, ..*old(self) })
                } else {
                    *final(self) == *old(self)
                }),
                Overlay::Closed => match old(self).focus {
                    Focus::Accounts => accounts_key_post(old(self), final(self), key)
                        && effects@.len() == 0,
                    Focus::Rooms => rooms_key_post(old(self), final(self), key, effects@),
                    Focus::Chat => chat_key_post(old(self), final(self), key, effects@),
                    Focus::Input => input_key_post(old(self), final(self), key, effects@),
                },
            },
    {
        let mut effects: Vec<Effect> = Vec::new();
        // Global shortcuts, overlay or not.
        if key.ctrl {
            if let Key::Char(c) = key.key {
                if c == 'q' {
                    self.running = false;
                    return effects;
                }
                if c == 'k' {
                    self.overlay = Overlay::RoomSwitcher;
                    self.switcher = crate::state::SwitcherState {
                        query: String::new(),
                        selected: 0,
                    };
                    return effects;
                }
                if c == 'i' {
                    if matches!(self.overlay, Overlay::Closed) {
                        match (&self.active_room, &self.active_account_id) {
                            (Some(r), Some(a)) => {
                                effects.push(
                                    Effect::FetchRoomDetails {
                                        account_id: a.clone(),
                                        room_id: r.clone(),
                                    },
                                );
                                self.overlay = Overlay::RoomInfo;
                            },
                            _ => {},
                        }
                    }
                    return effects;
                }
                return effects;
            }
            return effects;
        }
        // Global shortcuts when nothing modal is open and not typing.
        if matches!(self.overlay, Overlay::Closed) && !matches!(self.focus, Focus::Input) {
            if let Key::Char(c) = key.key {
                if c == 's' {
                    self.open_settings();
                    return effects;
                }
                if c == 'n' && self.accounts.len() > 0 {
                    self.open_room_creator();
                    return effects;
                }
                if c == 'e' && self.active_room.is_some() && !matches!(self.focus, Focus::Chat) {
                    // The caller fetches the topic and opens the editor.
                    match (&self.active_room, &self.active_account_id) {
                        (Some(r), Some(a)) => {
                            effects.push(
                                Effect::FetchRoomTopic {
                                    account_id: a.clone(),
                                    room_id: r.clone(),
                                },
                            );
                        },
                        _ => {},
                    }
                    return effects;
                }
            }
        }
        match self.overlay {
            Overlay::Login => self.handle_login_key(key),
            Overlay::Help => {
                self.handle_help_key(key);
                effects
            },
            Overlay::RoomSwitcher => self.handle_switcher_key(key),
            Overlay::Settings => self.handle_settings_key(key),
            Overlay::ProfileEditor => self.handle_profile_key(key),
            Overlay::RoomCreator => self.handle_creator_key(key),
            Overlay::RoomEditor => self.handle_editor_key(key),
            Overlay::Recovery => self.handle_recovery_key(key),
            Overlay::MessageAction => self.handle_message_action_key(key),
            Overlay::SasVerify => self.handle_sas_verify_key(key),
            Overlay::EmojiPicker => self.handle_emoji_picker_key(key),
            Overlay::RoomInfo => {
                if matches!(key.key, Key::Esc) {
                    self.overlay = Overlay::Closed;
                }
                effects
            },
            Overlay::Closed => {
                match self.focus {
                    Focus::Accounts => {
                        self.handle_accounts_key(key);
                        effects
                    },
                    Focus::Rooms => self.handle_rooms_key(key),
                    Focus::Chat => self.handle_chat_key(key),
                    Focus::Input => self.handle_input_key(key),
                }
            },
        }
    }
}



/// What one key does on the accounts panel.
pub open spec fn accounts_key_post(a: &AppState, b: &AppState, key: KeyInput) -> bool {
    &&& (b.running == a.running)
    &&& (crate::state::same_view(a, b))
    &&& (b.config == a.config)
    &&& (b.running == a.running)
    &&& (b.accounts == a.accounts)
    &&& (b.chat == a.chat)
    &&& (b.rooms == a.rooms)
    &&& (b.room_messages == a.room_messages)
    &&& (key.key is Up ==> *b == (AppState {
                selected_account: if a.selected_account > 0 {
                    (a.selected_account - 1) as usize
                } else {
                    0
                },
                ..*a
            }))
    &&& (key.key is Down ==> *b == (AppState {
                selected_account: if a.selected_account + 1 < a.accounts@.len() {
                    (a.selected_account + 1) as usize
                } else {
                    a.selected_account
                },
                ..*a
            }))
    &&& ((key.key is Tab || key.key is Right) ==> *b == (AppState {
                focus: Focus::Rooms,
                ..*a
            }))
    &&& (key.key == Key::Char('a') ==> b.overlay is Login)
    &&& (key.key == Key::Char('?') ==> *b == (AppState {
                overlay: Overlay::Help,
                ..*a
            }))
}


/// What one key does on the room list.
pub open spec fn rooms_key_post(a: &AppState, b: &AppState, key: KeyInput, effects: Seq<Effect>) -> bool {
    &&& (crate::state::same_view(a, b))
    &&& (b.config.accounts == a.config.accounts)
    &&& (b.running == a.running)
    &&& (b.accounts == a.accounts)
    &&& ((key.key is Up && !key.shift) ==> *b == (AppState {
                rooms: b.rooms,
                ..*a
            }) && b.rooms == (crate::state::RoomListState {
                selected_room: if a.rooms.selected_room > 0 {
                    (a.rooms.selected_room - 1) as usize
                } else {
                    0
                },
                ..a.rooms
            }) && effects.len() == 0)
    &&& ((key.key is Down && !key.shift) ==> *b == (AppState {
                rooms: b.rooms,
                ..*a
            }) && b.rooms == (crate::state::RoomListState {
                selected_room: if a.rooms.selected_room + 1 < a.rooms.all_rooms@.len() {
                    (a.rooms.selected_room + 1) as usize
                } else {
                    a.rooms.selected_room
                },
                ..a.rooms
            }) && effects.len() == 0)
    &&& (key.key is Enter ==> ({
                if a.rooms.selected_room < a.rooms.all_rooms@.len() {
                    effects.len() == 1 && crate::rooms::open_room_post(
                        a,
                        b,
                        Some(effects[0]),
                    )
                } else {
                    *b == *a && effects.len() == 0
                }
            }))
    &&& (key.key is Tab ==> *b == (AppState { focus: Focus::Chat, ..*a }))
    &&& ((key.key is BackTab || key.key is Left) ==> *b == (AppState {
                focus: Focus::Accounts,
                ..*a
            }))
    &&& (key.key == Key::Char('?') ==> *b == (AppState {
                overlay: Overlay::Help,
                ..*a
            }))
    &&& (key.key == Key::Char('a') ==> b.overlay is Login)
}


/// What one key does on the help overlay.
pub open spec fn help_key_post(a: &AppState, b: &AppState, key: KeyInput) -> bool {
    &&& (b.running == a.running)
    &&& ((key.key is Esc || key.key == Key::Char('?')) ==> *b == (AppState {
                overlay: Overlay::Closed,
                help_scroll: 0,
                ..*a
            }))
    &&& ((key.key is Up || key.key == Key::Char('k')) ==> *b == (AppState {
                help_scroll: if a.help_scroll > 0 {
                    (a.help_scroll - 1) as usize
                } else {
                    0
                },
                ..*a
            }))
    &&& ((key.key is Down || key.key == Key::Char('j')) ==> *b == (AppState {
                help_scroll: if a.help_scroll < usize::MAX {
                    (a.help_scroll + 1) as usize
                } else {
                    a.help_scroll
                },
                ..*a
            }))
}


/// What one key does in the input box.
pub open spec fn input_key_post(a: &AppState, b: &AppState, key: KeyInput, effects: Seq<Effect>) -> bool {
    &&& (crate::state::same_view(a, b))
    &&& (b.config == a.config)
    &&& (b.accounts == a.accounts)
    &&& (b.running == a.running)
    &&& (b.overlay == a.overlay)
    &&& (b.rooms == a.rooms)
    &&& (b.room_messages == a.room_messages)
    &&& (b.pending_echoes == a.pending_echoes)
    &&& (b.chat.messages == a.chat.messages)
    &&& ((key.key is Enter && a.input@.len() > 0 && a.active_room is Some
                && a.active_account_id is Some) ==> {
                &&& b.input@.len() == 0
                &&& b.cursor_pos == 0
                &&& b.chat.replying_to is None
                &&& effects.len() == 2
                &&& (effects[0] matches Effect::SendTyping { typing, .. } && !typing)
                &&& (match a.chat.replying_to {
                    Some(rep) => effects[1] matches Effect::SendReply {
                        body,
                        reply_to_event_id,
                        reply_to_sender,
                        ..
                    } && body@ == a.input@ && reply_to_event_id@ == rep.0@
                        && reply_to_sender@ == rep.1@,
                    None => effects[1] matches Effect::SendMessage { body, .. } && body@ == a.input@,
                })
            })
    &&& ((key.key matches Key::Char(c) && a.cursor_pos <= a.input@.len()
                && a.input@.len() < usize::MAX) ==> {
                &&& b.input@ == a.input@.subrange(
                    0,
                    a.cursor_pos as int,
                ).push(key.key->Char_0) + a.input@.subrange(
                    a.cursor_pos as int,
                    a.input@.len() as int,
                )
                &&& b.cursor_pos == a.cursor_pos + 1
            })
    &&& (key.key is Esc ==> {
                &&& b.chat.replying_to is None
                &&& b.focus is Chat
                &&& b.input == a.input
            })
    &&& (key.key is Tab ==> *b == (AppState { focus: Focus::Rooms, ..*a }))
    &&& ((key.key is Backspace && 0 < a.cursor_pos <= a.input@.len()) ==> {
                &&& b.cursor_pos == a.cursor_pos - 1
                &&& b.input@ == a.input@.subrange(
                    0,
                    a.cursor_pos - 1,
                ) + a.input@.subrange(
                    a.cursor_pos as int,
                    a.input@.len() as int,
                )
            })
    &&& ((key.key is Delete && a.cursor_pos < a.input@.len()) ==> {
                &&& b.cursor_pos == a.cursor_pos
                &&& b.input@ == a.input@.subrange(0, a.cursor_pos as int)
                    + a.input@.subrange(
                    a.cursor_pos + 1,
                    a.input@.len() as int,
                )
            })
    &&& (key.key is Left ==> b.input == a.input && b.cursor_pos
                == (if a.cursor_pos > 0 {
                (a.cursor_pos - 1) as usize
            } else {
                0
            }))
    &&& ((key.key is Right && a.cursor_pos < a.input@.len()) ==> b.input == a.input && b.cursor_pos == a.cursor_pos + 1)
    &&& (key.key is Home ==> b.input == a.input && b.cursor_pos
                == 0)
    &&& (key.key is End ==> b.input == a.input && b.cursor_pos
                == a.input@.len())
}


/// What one key does in the chat panel.
pub open spec fn chat_key_post(a: &AppState, b: &AppState, key: KeyInput, effects: Seq<Effect>) -> bool {
    &&& (crate::state::same_view(a, b))
    &&& (b.config == a.config)
    &&& (b.accounts == a.accounts)
    &&& (b.running == a.running)
    &&& (b.rooms == a.rooms)
    &&& (b.pending_echoes == a.pending_echoes)
    &&& ((key.key is Up && a.chat.selected_message is None && a.chat.messages@.len() > 0) ==> b.chat.selected_message == Some(
                (a.chat.messages@.len() - 1) as usize,
            ) && b.chat.scroll_offset == 0)
    &&& ((key.key is Up && a.chat.messages@.len() > 0 && a.chat.selected_message == Some(0usize)) ==> (
            effects.len() <= 1 && (effects.len() == 1 ==> effects[0] is FetchOlder)
                && (effects.len() == 1 <==> a.can_fetch_older())))
    &&& (key.key is End ==> b.chat.selected_message is None && b.chat.scroll_offset == 0)
    &&& ((key.key is Esc && a.chat.selected_message is Some) ==> b.chat.selected_message is None && b.chat.scroll_offset == 0 && b.focus == a.focus)
    &&& ((key.key is Esc && a.chat.selected_message is None) ==> b.focus
                is Rooms)
    &&& (key.key is Down ==> (match a.chat.selected_message {
                Some(idx) => {
                    if idx < usize::MAX && idx + 1 < a.chat.messages@.len() {
                        let end = if a.chat.messages@.len()
                            >= a.chat.scroll_offset {
                            a.chat.messages@.len() - a.chat.scroll_offset
                        } else {
                            0int
                        };
                        &&& b.chat.selected_message == Some((idx + 1) as usize)
                        &&& b.chat.scroll_offset == (if idx + 1 >= end && a.chat.scroll_offset > 0 {
                            (a.chat.scroll_offset - 1) as usize
                        } else {
                            a.chat.scroll_offset
                        })
                    } else {
                        b.chat.selected_message is None && b.chat.scroll_offset == 0
                    }
                },
                None => *b == *a,
            }) && effects.len() == 0)
    &&& (key.key is Home ==> effects.len() == 0 && (if a.chat.messages@.len() > 0 {
                let viewport = if a.chat_viewport_msgs > 1 {
                    a.chat_viewport_msgs as int
                } else {
                    1int
                };
                b.chat.selected_message == Some(0usize) && b.chat.scroll_offset == (if a.chat.messages@.len() >= viewport {
                    (a.chat.messages@.len() - viewport) as usize
                } else {
                    0
                })
            } else {
                *b == *a
            }))
    &&& (key.key is Enter ==> effects.len() == 0 && (match a.chat.selected_message {
                Some(i) => {
                    if i < a.chat.messages@.len() {
                        &&& b.overlay is MessageAction
                        &&& b.msg_action.selected == 0
                        &&& !b.msg_action.editing
                        &&& b.msg_action.edit_text@ == a.chat.messages@[
                            i as int
                        ].body_view()
                        &&& b.msg_action.error is None
                        &&& !b.msg_action.busy
                    } else {
                        *b == *a
                    }
                },
                None => *b == *a,
            }))
    &&& ((key.key == Key::Char('e') && (match choose_target(a) {
                Some(t) => a.chat.messages@[t as int].event_id is Some,
                None => false,
            })) ==> ({
                let t = choose_target(a)->Some_0 as int;
                &&& b.overlay is EmojiPicker
                &&& b.emoji_picker.selected == 0
                &&& b.emoji_picker.event_id matches Some(e) && e@ == a.chat.messages@[t].event_id->Some_0@
            }))
    &&& ((key.key == Key::Char('r') && (match choose_target(a) {
                Some(t) => a.chat.messages@[t as int].event_id is Some,
                None => false,
            })) ==> ({
                let t = choose_target(a)->Some_0 as int;
                b.chat.replying_to matches Some(rep) && rep.0@ == a.chat.messages@[t].event_id->Some_0@ && rep.1@ == a.chat.messages@[t].sender@ && rep.2@ == text::snippet_of(
                    a.chat.messages@[t].body_view(),
                ) && b.focus is Input
            }))
}


/// What one key does in the login form.
pub open spec fn login_key_post(a: &AppState, b: &AppState, key: KeyInput, effects: Seq<Effect>) -> bool {
    &&& (b.only_form_changed(a))
    &&& (b.sas == a.sas)
    &&& (b.msg_action == a.msg_action)
    &&& (a.login.busy ==> *b == *a && effects.len() == 0)
    &&& (!a.login.busy ==> {
                let submit = key.key is Enter && (a.login.focus_field == 2 || (a.login.username@.len() > 0 && a.login.password@.len() > 0));
                let dup = crate::session::dup_login(
                    a.accounts@,
                    a.login.username@,
                    a.login.homeserver@,
                );
                &&& (key.key is Esc ==> b.overlay is Closed && effects.len() == 0)
                &&& (key.key is Tab ==> b.login.focus_field == ((a.login.focus_field + 1) % 3) && effects.len() == 0)
                &&& ((submit && !dup) ==> effects.len() == 1 && (effects[0] matches
                    Effect::Login { homeserver, username, password } && homeserver@ == a.login.homeserver@ && username@ == a.login.username@ && password@ == a.login.password@) && b.login.busy && b.login.error is None)
                &&& ((submit && dup) ==> effects.len() == 0 && b.login.error is Some
                    && !b.login.busy)
                &&& (effects.len() > 0 ==> submit && !dup)
            })
}


/// What one key does in the room switcher.
pub open spec fn switcher_key_post(a: &AppState, b: &AppState, key: KeyInput, effects: Seq<Effect>) -> bool {
    &&& (b.sas == a.sas)
    &&& (b.accounts == a.accounts)
    &&& (b.config == a.config)
    &&& (b.running == a.running)
    &&& (key.key is Esc ==> *b == (AppState {
                overlay: Overlay::Closed,
                ..*a
            }) && effects.len() == 0)
    &&& ((key.key matches Key::Char(c)) ==> *b == (AppState {
                switcher: b.switcher,
                ..*a
            }) && b.switcher.query@ == a.switcher.query@.push(key.key->Char_0)
                && b.switcher.selected == 0 && effects.len() == 0)
    &&& (key.key is Backspace ==> b.switcher.selected == 0 && (a.switcher.query@.len() == 0 ==> b.switcher.query@ == a.switcher.query@) && (a.switcher.query@.len() > 0 ==> b.switcher.query@ == a.switcher.query@.subrange(
                0,
                a.switcher.query@.len() - 1,
            )))
}


/// What one key does in the recovery form.
pub open spec fn recovery_key_post(a: &AppState, b: &AppState, key: KeyInput, effects: Seq<Effect>) -> bool {
    &&& (b.only_form_changed(a))
    &&& (b.sas == a.sas)
    &&& (b.login == a.login)
    &&& (a.recovery.busy ==> *b == *a && effects.len() == 0)
    &&& ((!a.recovery.busy && key.key is Esc) ==> b.overlay is Settings
                && effects.len() == 0)
    &&& ((!a.recovery.busy && key.key is Enter) ==> ({
                let can = a.recovery.key@.len() > 0 && a.recovery.account_idx
                    < a.accounts@.len();
                if can {
                    effects.len() == 1 && (effects[0] matches Effect::Recover {
                        account_id,
                        key: k,
                    } && account_id@ == a.accounts@[a.recovery.account_idx as int].user_id@) && b.recovery.busy
                } else {
                    effects.len() == 0
                }
            }))
}


/// What one key does in the emoji picker.
pub open spec fn emoji_picker_key_post(a: &AppState, b: &AppState, key: KeyInput, effects: Seq<Effect>) -> bool {
    &&& (b.only_form_changed(a))
    &&& (b.sas == a.sas)
    &&& (b.login == a.login)
    &&& (b.msg_action == a.msg_action)
    &&& (key.key is Esc ==> b.overlay is Closed && b.emoji_picker.event_id is None && effects.len() == 0)
    &&& (key.key is Enter ==> b.overlay is Closed && b.emoji_picker.event_id is None && ({
                let may_send = a.emoji_picker.event_id is Some && a.active_room is Some && a.active_account_id is Some && a.emoji_picker.selected < 8;
                if may_send {
                    effects.len() == 1 && (effects[0] matches Effect::SendReaction {
                        event_id,
                        ..
                    } && event_id@ == a.emoji_picker.event_id->Some_0@)
                } else {
                    effects.len() == 0
                }
            }))
}


/// What one key does in the settings overlay.
pub open spec fn settings_key_post(a: &AppState, b: &AppState, key: KeyInput, effects: Seq<Effect>) -> bool {
    &&& (b.room_messages == a.room_messages)
    &&& (b.running == a.running)
    &&& (key.key is Enter ==> settings_enter_post(a, b, effects))
    &&& ((key.key is Up || key.key is Down) ==> effects.len() == 0 && *b == (
            AppState { settings: b.settings, ..*a }) && b.settings
                == settings_moved(&a.settings, a.accounts@.len() as int, key.key
                is Down))
    &&& ((key.key is Esc && settings_wf(&a.settings)) ==> {
                &&& effects.len() == 0
                &&& *b == (AppState {
                    overlay: b.overlay,
                    settings: b.settings,
                    ..*a
                })
                &&& (settings_depth(&a.settings) == 0 ==> b.overlay is Closed)
                &&& (settings_depth(&a.settings) > 0 ==> b.overlay == a.overlay && settings_depth(&b.settings) == settings_depth(
                    &a.settings,
                ) - 1)
            })
}


/// What one key does in the verification overlay.
pub open spec fn sas_verify_key_post(a: &AppState, b: &AppState, key: KeyInput, effects: Seq<Effect>) -> bool {
    &&& (b.running == a.running)
    &&& (b.chat == a.chat)
    &&& (b.accounts == a.accounts)
    &&& (b.room_messages == a.room_messages)
    &&& (b.config == a.config)
    &&& (a.sas.state is Confirming ==> *b == *a && effects.len()
                == 0)
    &&& ((crate::verify_sm::sas_terminal(a.sas.state) && (key.key is Enter || key.key
                is Esc)) ==> b.overlay is Closed && effects.len() == 0)
    &&& ((crate::verify_sm::sas_terminal(a.sas.state) && !(key.key is Enter || key.key
                is Esc)) ==> *b == *a && effects.len() == 0)
    &&& ((a.sas.state is Emojis && key.key is Enter) ==> b.sas.state
                is Confirming && effects.len() == 1 && effects[0] is SasConfirm)
    &&& ((a.sas.state is Emojis && key.key == Key::Char('y')) ==> b.sas.state
                is Confirming && effects.len() == 1 && effects[0] is SasConfirm)
    &&& ((a.sas.state is Emojis && key.key == Key::Char('n')) ==> b.sas.state is Failed && (b.sas.error is Some) && effects.len() == 1 && effects[0] is SasMismatch)
    &&& ((a.sas.state is Emojis && key.key is Esc) ==> b.overlay is Closed
                && effects.len() == 1 && effects[0] is SasCancel)
    &&& ((a.sas.state is Waiting && key.key is Esc) ==> b.overlay is Closed
                && effects.len() == 0)
    &&& ((a.sas.state is Incoming && key.key is Enter) ==> ({
                let ok = a.sas.account_idx < a.accounts@.len();
                if ok {
                    b.sas.state is Waiting && effects.len() == 1 && (effects[0]
                        matches Effect::AcceptVerification { account_id, .. } && account_id@
                        == a.accounts@[a.sas.account_idx as int].user_id@)
                } else {
                    effects.len() == 0
                }
            }))
}


/// What one key does in the profile editor.
pub open spec fn profile_key_post(a: &AppState, b: &AppState, key: KeyInput, effects: Seq<Effect>) -> bool {
    &&& (b.only_form_changed(a))
    &&& (b.sas == a.sas)
    &&& (a.profile.busy ==> *b == *a && effects.len() == 0)
    &&& ((!a.profile.busy && key.key is Esc) ==> b.overlay is Closed
                && effects.len() == 0)
    &&& ((!a.profile.busy && key.key is Enter && a.profile.account_idx < a.accounts@.len()) ==> (effects.len() == (if (match a.profile.focus_field {
                0 => a.profile.display_name@.len() > 0,
                1 => a.profile.avatar_url@.len() > 0,
                _ => a.profile.avatar_path@.len() > 0,
            }) {
                1int
            } else {
                0int
            }) && (effects.len() == 1 ==> b.profile.busy && (match a.profile.focus_field {
                0 => effects[0] matches Effect::SetDisplayName { name, .. } && name@ == a.profile.display_name@ && a.profile.display_name@.len() > 0,
                1 => effects[0] matches Effect::SetAvatarUrl { url, .. } && url@ == a.profile.avatar_url@ && a.profile.avatar_url@.len() > 0,
                _ => effects[0] matches Effect::UploadAvatar { path, .. } && path@ == a.profile.avatar_path@ && a.profile.avatar_path@.len() > 0,
            }))))
}


/// What one key does in the room creator.
pub open spec fn creator_key_post(a: &AppState, b: &AppState, key: KeyInput, effects: Seq<Effect>) -> bool {
    &&& (b.only_form_changed(a))
    &&& (b.sas == a.sas)
    &&& (a.creator.busy ==> *b == *a && effects.len() == 0)
    &&& ((!a.creator.busy && key.key is Esc) ==> b.overlay is Closed
                && effects.len() == 0)
    &&& (effects.len() > 0 ==> effects.len() == 1 && (effects[0] matches
                Effect::CreateRoom { name, is_public, e2ee, .. } && name@ == a.creator.name@ && a.creator.name@.len() > 0 && is_public == (a.creator.visibility == 1) && e2ee == a.creator.e2ee) && b.creator.busy)
    &&& (({
                let submits = key.key is Enter && !(a.creator.focus_field == 0) && !(a.creator.focus_field == 3) && !(a.creator.focus_field == 4) && !(a.creator.focus_field == 5);
                (!a.creator.busy && submits && a.creator.name@.len() > 0 && a.creator.account_idx < a.accounts@.len()) ==> effects.len() == 1
            }))
}


/// What one key does in the room editor.
pub open spec fn editor_key_post(a: &AppState, b: &AppState, key: KeyInput, effects: Seq<Effect>) -> bool {
    &&& (b.only_form_changed(a))
    &&& (b.sas == a.sas)
    &&& (a.editor.busy ==> *b == *a && effects.len() == 0)
    &&& ((!a.editor.busy && key.key is Esc && !a.editor.confirm_leave && !a.editor.confirm_delete) ==> b.overlay is Closed && effects.len() == 0)
    &&& ((!a.editor.busy && key.key is Esc && (a.editor.confirm_leave || a.editor.confirm_delete)) ==> b.overlay == a.overlay && !b.editor.confirm_leave && !b.editor.confirm_delete && effects.len() == 0)
    &&& ((!a.editor.busy && key.key is Enter && a.editor.focus_field == 4
                && a.editor.confirm_delete && (a.editor.room_id is Some && a.editor.account_id is Some)) ==> effects.len() == 1 && (effects[0] matches
                Effect::ForgetRoom { room_id, .. } && room_id@ == a.editor.room_id->Some_0@) && b.editor.busy)
    &&& ((!a.editor.busy && key.key is Enter && a.editor.focus_field == 3
                && a.editor.confirm_leave && (a.editor.room_id is Some && a.editor.account_id is Some)) ==> effects.len() == 1 && (effects[0] matches
                Effect::LeaveRoom { room_id, .. } && room_id@ == a.editor.room_id->Some_0@) && b.editor.busy)
}


/// What one key does in the message-action overlay.
pub open spec fn message_action_key_post(a: &AppState, b: &AppState, key: KeyInput, effects: Seq<Effect>) -> bool {
    &&& (b.running == a.running)
    &&& (b.chat == a.chat)
    &&& (b.accounts == a.accounts)
    &&& (b.config == a.config)
    &&& (b.room_messages == a.room_messages)
    &&& (a.msg_action.busy ==> *b == *a && effects.len() == 0)
    &&& ((!a.msg_action.busy && !a.msg_action.editing && key.key is Esc) ==>
                b.overlay is Closed && effects.len() == 0)
    &&& ((!a.msg_action.busy && a.msg_action.editing && key.key is Esc) ==> !b.msg_action.editing && b.overlay == a.overlay && effects.len()
                == 0)
    &&& (effects.len() > 0 ==> effects.len() == 1 && (effects[0] is EditMessage
                || effects[0] is RedactMessage))
}

} // verus!
