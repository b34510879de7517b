//! Plain data carried between the state machines, the event producers and the
//! effect executor.

use vstd::prelude::*;

verus! {

/// How rooms outside the favorites block are sorted.
#[derive(Debug, Clone, Copy, PartialEq, Eq, Structural)]
pub enum RoomSortMode {
    Unread,
    Recent,
    Alpha,
}

impl RoomSortMode {
    /// The mode a persisted name denotes; anything unknown falls back to
    /// unread-first.
    pub open spec fn of_name(s: Seq<char>) -> RoomSortMode {
        if s == "recent"@ {
            RoomSortMode::Recent
        } else if s == "alpha"@ {
            RoomSortMode::Alpha
        } else {
            RoomSortMode::Unread
        }
    }

    /// The name a mode is persisted under.
    pub open spec fn name_view(self) -> Seq<char> {
        match self {
            RoomSortMode::Unread => "unread"@,
            RoomSortMode::Recent => "recent"@,
            RoomSortMode::Alpha => "alpha"@,
        }
    }

    pub fn from_str(s: &str) -> (r: RoomSortMode)
        ensures
            r == RoomSortMode::of_name(s@),
    {
        if crate::text::str_eq(s, "recent") {
            RoomSortMode::Recent
        } else if crate::text::str_eq(s, "alpha") {
            RoomSortMode::Alpha
        } else {
            RoomSortMode::Unread
        }
    }

    pub fn as_str(&self) -> (r: &'static str)
        ensures
            r@ == self.name_view(),
    {
        match self {
            RoomSortMode::Unread => "unread",
            RoomSortMode::Recent => "recent",
            RoomSortMode::Alpha => "alpha",
        }
    }

    /// Human-readable name shown in the sort picker.
    pub fn label(&self) -> (r: &'static str)
        ensures
            self is Unread ==> r@ == "Unread First"@,
            self is Recent ==> r@ == "Recent Activity"@,
            self is Alpha ==> r@ == "Alphabetical"@,
    {
        match self {
            RoomSortMode::Unread => "Unread First",
            RoomSortMode::Recent => "Recent Activity",
            RoomSortMode::Alpha => "Alphabetical",
        }
    }
}

/// Which panel has focus.
#[derive(Debug, Clone, Copy, PartialEq, Eq, Structural)]
pub enum Focus {
    Accounts,
    Rooms,
    Chat,
    Input,
}

/// Which modal overlay is showing; at most one at a time.
#[derive(Debug, Clone, Copy, PartialEq, Eq, Structural)]
pub enum Overlay {
    Closed,
    Login,
    Help,
    RoomSwitcher,
    Settings,
    ProfileEditor,
    RoomCreator,
    RoomEditor,
    Recovery,
    MessageAction,
    SasVerify,
    EmojiPicker,
    RoomInfo,
}

/// Progress of the interactive device-verification overlay.
#[derive(Debug, Clone, Copy, PartialEq, Eq, Structural)]
pub enum SasOverlayState {
    /// Outgoing request sent, waiting for the other device.
    Waiting,
    /// Incoming request from another device, awaiting explicit accept.
    Incoming,
    /// Emoji set shown, user confirms or denies.
    Emojis,
    /// User confirmed, waiting for the other side.
    Confirming,
    /// Verification complete.
    Done,
    /// Cancelled or failed.
    Failed,
}

/// Kind of a non-image attachment.
#[derive(Debug, Clone, Copy, PartialEq, Eq, Structural)]
pub enum FileKind {
    File,
    Video,
    Audio,
}

/// What a displayed message holds.
#[derive(Debug, Clone)]
pub enum MessageContent {
    Text(String),
    Image { name: String },
    File { name: String, kind: FileKind },
}

impl MessageContent {
    /// The text that stands for the content: the body of a text message, the
    /// file name otherwise.
    pub open spec fn body_view(&self) -> Seq<char> {
        match self {
            MessageContent::Text(b) => b@,
            MessageContent::Image { name } => name@,
            MessageContent::File { name, .. } => name@,
        }
    }

    pub fn body_text(&self) -> (r: &String)
        ensures
            r@ == self.body_view(),
    {
        match self {
            MessageContent::Text(b) => b,
            MessageContent::Image { name } => name,
            MessageContent::File { name, .. } => name,
        }
    }
}

/// A message as kept for display and in the per-room cache.  `event_id` is
/// `None` for a locally echoed message the backend has not yet confirmed.
#[derive(Debug, Clone)]
pub struct DisplayMessage {
    pub event_id: Option<String>,
    pub sender: String,
    pub content: MessageContent,
    pub timestamp: u64,
    pub reply_to_sender: Option<String>,
    pub reply_to_body: Option<String>,
    pub reply_to_event_id_raw: Option<String>,
    pub reactions: Vec<(String, u64)>,
}

/// The mathematical value of a message's content.
#[verifier::ext_equal]
pub enum ContentModel {
    Text(Seq<char>),
    Image(Seq<char>),
    File(Seq<char>, FileKind),
}

impl View for MessageContent {
    type V = ContentModel;

    open spec fn view(&self) -> ContentModel {
        match self {
            MessageContent::Text(b) => ContentModel::Text(b@),
            MessageContent::Image { name } => ContentModel::Image(name@),
            MessageContent::File { name, kind } => ContentModel::File(name@, *kind),
        }
    }
}

/// The content of an optional string.
pub open spec fn view_opt_string(o: Option<String>) -> Option<Seq<char>> {
    match o {
        Some(s) => Some(s@),
        None => None,
    }
}

/// The mathematical value of a message: every string by its characters, the
/// reaction list as a sequence of (emoji, count) pairs.
#[verifier::ext_equal]
pub struct MessageModel {
    pub event_id: Option<Seq<char>>,
    pub sender: Seq<char>,
    pub content: ContentModel,
    pub timestamp: u64,
    pub reply_to_sender: Option<Seq<char>>,
    pub reply_to_body: Option<Seq<char>>,
    pub reply_to_event_id_raw: Option<Seq<char>>,
    pub reactions: Seq<(Seq<char>, u64)>,
}

impl View for DisplayMessage {
    type V = MessageModel;

    open spec fn view(&self) -> MessageModel {
        MessageModel {
            event_id: view_opt_string(self.event_id),
            sender: self.sender@,
            content: self.content@,
            timestamp: self.timestamp,
            reply_to_sender: view_opt_string(self.reply_to_sender),
            reply_to_body: view_opt_string(self.reply_to_body),
            reply_to_event_id_raw: view_opt_string(self.reply_to_event_id_raw),
            reactions: self.reactions@.map_values(|p: (String, u64)| (p.0@, p.1)),
        }
    }
}

impl DisplayMessage {
    /// The body text used for echo matching and snippets.
    pub open spec fn body_view(&self) -> Seq<char> {
        self.content.body_view()
    }
}

/// The models of a whole message list.
pub open spec fn models(s: Seq<DisplayMessage>) -> Seq<MessageModel> {
    s.map_values(|m: DisplayMessage| m@)
}

/// A verifier-visible copy of an optional string.
pub fn clone_opt_string(o: &Option<String>) -> (r: Option<String>)
    ensures
        r == *o,
{
    match o {
        Some(s) => Some(s.clone()),
        None => None,
    }
}

impl MessageContent {
    /// A field-for-field copy, visible to the verifier.
    pub fn duplicate(&self) -> (r: MessageContent)
        ensures
            r == *self,
    {
        match self {
            MessageContent::Text(b) => MessageContent::Text(b.clone()),
            MessageContent::Image { name } => MessageContent::Image { name: name.clone() },
            MessageContent::File { name, kind } => MessageContent::File {
                name: name.clone(),
                kind: *kind,
            },
        }
    }
}

impl DisplayMessage {
    /// A field-for-field copy, visible to the verifier.
    pub fn duplicate(&self) -> (r: DisplayMessage)
        ensures
            r@ == self@,
    {
        let n = self.reactions.len();
        let mut reactions: Vec<(String, u64)> = Vec::new();
        let mut i: usize = 0;
        while i < n
            invariant
                i <= n,
                n == self.reactions@.len(),
                reactions@ =~= self.reactions@.subrange(0, i as int),
            decreases n - i,
        {
            let pair = (self.reactions[i].0.clone(), self.reactions[i].1);
            reactions.push(pair);
            proof {
                assert(reactions@ =~= self.reactions@.subrange(0, i + 1));
            }
            i += 1;
        }
        proof {
            assert(self.reactions@.subrange(0, n as int) =~= self.reactions@);
        }
        let r = DisplayMessage {
            event_id: clone_opt_string(&self.event_id),
            sender: self.sender.clone(),
            content: self.content.duplicate(),
            timestamp: self.timestamp,
            reply_to_sender: clone_opt_string(&self.reply_to_sender),
            reply_to_body: clone_opt_string(&self.reply_to_body),
            reply_to_event_id_raw: clone_opt_string(&self.reply_to_event_id_raw),
            reactions,
        };
        proof {
            assert(r@ =~= self@);
        }
        r
    }
}

/// A verifier-visible copy of a whole message list: the copy models the
/// original element for element.
pub fn clone_messages(msgs: &Vec<DisplayMessage>) -> (r: Vec<DisplayMessage>)
    ensures
        models(r@) == models(msgs@),
        r@.len() == msgs@.len(),
{
    let n = msgs.len();
    let mut out: Vec<DisplayMessage> = Vec::new();
    let mut i: usize = 0;
    while i < n
        invariant
            i <= n,
            n == msgs@.len(),
            out@.len() == i,
            models(out@) =~= models(msgs@.subrange(0, i as int)),
        decreases n - i,
    {
        let ghost pre = out@;
        out.push(msgs[i].duplicate());
        proof {
            assert(out@ == pre.push(out@.last()));
            assert(out@.last()@ == msgs@[i as int]@);
            assert forall|k: int| 0 <= k < i + 1 implies #[trigger] models(out@)[k] == models(
                msgs@.subrange(0, i + 1),
            )[k] by {
                if k < i {
                    assert(models(out@)[k] == pre[k]@);
                    assert(models(pre)[k] == pre[k]@);
                    assert(models(msgs@.subrange(0, i as int))[k] == msgs@[k]@);
                }
            }
            assert(models(out@) =~= models(msgs@.subrange(0, i + 1)));
        }
        i += 1;
    }
    proof {
        assert(msgs@.subrange(0, n as int) =~= msgs@);
    }
    out
}

/// Room summary for the room list, rebuilt on every refresh.
#[derive(Debug, Clone)]
pub struct RoomInfo {
    pub id: String,
    pub name: String,
    pub is_dm: bool,
    pub unread: u64,
    pub account_id: String,
}

impl RoomInfo {
    /// A field-for-field copy, visible to the verifier.
    pub fn duplicate(&self) -> (r: RoomInfo)
        ensures
            r == *self,
    {
        RoomInfo {
            id: self.id.clone(),
            name: self.name.clone(),
            is_dm: self.is_dm,
            unread: self.unread,
            account_id: self.account_id.clone(),
        }
    }
}

/// Detailed room info for the room-info overlay.
#[derive(Debug, Clone)]
pub struct RoomDetails {
    pub name: String,
    pub topic: Option<String>,
    pub member_count: u64,
    pub encryption: String,
    pub room_id: String,
}

/// A logged-in account as the coordinator sees it; the network session object
/// itself stays with the caller, keyed by `user_id`.
#[derive(Debug, Clone)]
pub struct Account {
    pub user_id: String,
    pub homeserver: String,
    pub display_name: String,
    pub syncing: bool,
    pub sync_complete: bool,
}

impl Account {
    /// A field-for-field copy, visible to the verifier.
    pub fn duplicate(&self) -> (r: Account)
        ensures
            r == *self,
    {
        Account {
            user_id: self.user_id.clone(),
            homeserver: self.homeserver.clone(),
            display_name: self.display_name.clone(),
            syncing: self.syncing,
            sync_complete: self.sync_complete,
        }
    }
}

/// Events pushed from the backend sync stream into the coordinator.  Opaque
/// handles (the SAS object, media sources) stay with the caller, keyed by the
/// ids carried here.
#[derive(Debug, Clone)]
pub enum MatrixEvent {
    Message {
        room_id: String,
        sender: String,
        body: String,
        timestamp: u64,
        event_id: String,
        reply_to_event_id: Option<String>,
    },
    Typing { room_id: String, user_ids: Vec<String> },
    Reaction { room_id: String, event_id: String, key: String },
    RoomsUpdated,
    SyncError { account_id: String, error: String },
    SyncComplete { account_id: String },
    KeysDownloaded { room_id: String, account_id: String },
    VerificationIncoming { account_id: String, user_id: String, flow_id: String },
    SasStarted { flow_id: String },
    SasEmojis { flow_id: String, emojis: Vec<(String, String)> },
    SasDone { flow_id: String },
    SasCancelled { flow_id: String, reason: String },
    ImageMessage {
        room_id: String,
        sender: String,
        timestamp: u64,
        event_id: String,
        body: String,
        reply_to_event_id: Option<String>,
    },
    FileMessage {
        room_id: String,
        sender: String,
        timestamp: u64,
        event_id: String,
        body: String,
        media_type: FileKind,
        reply_to_event_id: Option<String>,
    },
}

/// Work the coordinator asks the outside to perform.  Every network call and
/// every filesystem touch leaves the library through one of these; completion
/// comes back either as a `MatrixEvent` or through an `apply_*` call.
#[derive(Debug, Clone)]
pub enum Effect {
    SaveConfig,
    RefreshRooms,
    FetchHistory { account_id: String, room_id: String, limit: u32 },
    FetchOlder { account_id: String, room_id: String, token: String, limit: u32 },
    SendMessage { account_id: String, room_id: String, body: String },
    SendReply {
        account_id: String,
        room_id: String,
        body: String,
        reply_to_event_id: String,
        reply_to_sender: String,
    },
    SendReaction { account_id: String, room_id: String, event_id: String, key: String },
    SendReadReceipt { account_id: String, room_id: String, event_id: String },
    SendTyping { account_id: String, room_id: String, typing: bool },
    EditMessage { account_id: String, room_id: String, event_id: String, new_body: String },
    RedactMessage { account_id: String, room_id: String, event_id: String },
    CreateRoom {
        account_id: String,
        name: String,
        topic: Option<String>,
        is_public: bool,
        e2ee: bool,
        invites: Vec<String>,
    },
    SetRoomName { account_id: String, room_id: String, name: String },
    SetRoomTopic { account_id: String, room_id: String, topic: String },
    InviteUser { account_id: String, room_id: String, user_id: String },
    LeaveRoom { account_id: String, room_id: String },
    ForgetRoom { account_id: String, room_id: String },
    FetchRoomDetails { account_id: String, room_id: String },
    FetchRoomTopic { account_id: String, room_id: String },
    FetchProfile { account_id: String },
    SetDisplayName { account_id: String, name: String },
    SetAvatarUrl { account_id: String, url: String },
    UploadAvatar { account_id: String, path: String },
    Recover { account_id: String, key: String },
    RequestVerification { account_id: String },
    AcceptVerification { account_id: String, user_id: String, flow_id: String },
    SasConfirm,
    SasMismatch,
    SasCancel,
    Login { homeserver: String, username: String, password: String },
    RestoreAccount { user_id: String },
    StartSync { account_id: String },
    StopSync { account_id: String },
    ScheduleKeysRetry { account_id: String, room_id: String },
    ClearCache,
}

} // verus!
