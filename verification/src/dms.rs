//! Direct-message list state: which row is selected, how the selection
//! moves, and how read state is kept in sync.
use vstd::prelude::*;
use std::collections::{HashMap, HashSet};
use crate::social::UserInfo;

verus! {

broadcast use vstd::std_specs::hash::group_hash_axioms;

/// Which row of the DM list is selected.
#[derive(Debug, Clone, PartialEq, Eq, Structural)]
pub enum DMSelection {
    /// The "New Conversation" button.
    NewConversation,
    /// A pending draft conversation (not yet sent).
    PendingDraft,
    /// A pending incoming DM request at the given index.
    Request(usize),
    /// An existing conversation at the given index.
    Conversation(usize),
}

impl DMSelection {
    /// Whether the "New Conversation" button is selected.
    pub fn is_new_conversation(&self) -> (r: bool)
        ensures
            r == (*self is NewConversation),
    {
        match self {
            DMSelection::NewConversation => true,
            _ => false,
        }
    }

    /// Whether the pending draft row is selected.
    pub fn is_pending_draft(&self) -> (r: bool)
        ensures
            r == (*self is PendingDraft),
    {
        match self {
            DMSelection::PendingDraft => true,
            _ => false,
        }
    }

    /// The conversation index, when a conversation row is selected.
    pub fn conversation_index(&self) -> (r: Option<usize>)
        ensures
            r == (match *self {
                DMSelection::Conversation(i) => Some(i),
                _ => None::<usize>,
            }),
    {
        match self {
            DMSelection::Conversation(idx) => Some(*idx),
            _ => None,
        }
    }
}

/// State of a DM conversation on the server.
#[derive(Debug, Clone, Copy, PartialEq, Eq, Structural)]
pub enum DmConversationState {
    /// Waiting for the recipient to accept.
    Pending,
    /// Both sides may write.
    Accepted,
}

/// A pending incoming DM request (someone who messaged before sharing a community).
#[derive(Debug, Clone)]
pub struct DmRequest {
    pub from_user_id: u128,
    pub from_username: String,
}

/// Summary of one conversation in the DM list.
#[derive(Debug, Clone)]
pub struct Conversation {
    pub other_user_id: u128,
    pub other_username: String,
    pub last_message: String,
    pub unread_count: i32,
    pub state: DmConversationState,
    pub initiated_by_me: bool,
}

/// The DM list: conversations, incoming requests, an optional draft and the selection.
pub struct DMsState {
    pub conversations: Vec<Conversation>,
    /// Distinguishes "loaded but empty" from "not loaded yet".
    pub conversations_loaded: bool,
    pub selection: DMSelection,
    /// Username of a new conversation that has not been sent yet.
    pub pending_conversation_username: Option<String>,
    pub pending_requests: Vec<DmRequest>,
    /// The user whose conversation is open, if any.
    pub current_conversation_user: Option<u128>,
    /// Set when the open conversation's messages must be fetched.
    pub needs_message_load: bool,
    /// Messages of the open conversation.
    pub messages: Vec<DirectMessage>,
    /// Unread messages per other user.
    pub unread_counts: HashMap<u128, usize>,
    pub loading: bool,
    pub error: Option<String>,
    pub show_new_conversation_modal: bool,
    pub new_conversation_username: String,
    pub new_conversation_selected_index: usize,
    pub new_conversation_search_mode: bool,
    pub new_conversation_search_query: String,
    /// Friends a new conversation can be started with.
    pub available_mutual_friends: Vec<UserInfo>,
    pub show_dm_error_modal: bool,
    pub dm_error_message: String,
    /// The user a message could not be delivered to.
    pub failed_username: Option<String>,
}

/// A direct message between two users.
pub struct DirectMessage {
    pub id: u128,
    pub from_user_id: u128,
    pub to_user_id: u128,
    pub from_username: String,
    pub to_username: String,
    pub content: String,
    /// Sending time, in seconds since the epoch.
    pub created_at: i64,
    pub is_read: bool,
}

/// Where "down" leads from `sel`, given whether a draft exists and the
/// number of requests and conversations.
/// Order: NewConversation, PendingDraft (if any), Request(0..r), Conversation(0..c).
pub open spec fn nav_down(sel: DMSelection, has_draft: bool, n_req: int, n_conv: int) -> DMSelection {
    match sel {
        DMSelection::NewConversation => if has_draft {
            DMSelection::PendingDraft
        } else if n_req > 0 {
            DMSelection::Request(0)
        } else if n_conv > 0 {
            DMSelection::Conversation(0)
        } else {
            sel
        },
        DMSelection::PendingDraft => if n_req > 0 {
            DMSelection::Request(0)
        } else if n_conv > 0 {
            DMSelection::Conversation(0)
        } else {
            sel
        },
        DMSelection::Request(i) => if i < n_req - 1 {
            DMSelection::Request((i + 1) as usize)
        } else if n_conv > 0 {
            DMSelection::Conversation(0)
        } else {
            sel
        },
        DMSelection::Conversation(i) => if i < n_conv - 1 {
            DMSelection::Conversation((i + 1) as usize)
        } else {
            sel
        },
    }
}

/// Where "up" leads from `sel`.
pub open spec fn nav_up(sel: DMSelection, has_draft: bool, n_req: int, n_conv: int) -> DMSelection {
    match sel {
        DMSelection::NewConversation => sel,
        DMSelection::PendingDraft => DMSelection::NewConversation,
        DMSelection::Request(i) => if i == 0 {
            if has_draft {
                DMSelection::PendingDraft
            } else {
                DMSelection::NewConversation
            }
        } else {
            DMSelection::Request((i - 1) as usize)
        },
        DMSelection::Conversation(i) => if i == 0 {
            if n_req > 0 {
                DMSelection::Request((n_req - 1) as usize)
            } else if has_draft {
                DMSelection::PendingDraft
            } else {
                DMSelection::NewConversation
            }
        } else {
            DMSelection::Conversation((i - 1) as usize)
        },
    }
}

/// The selection points at a row that exists.
pub open spec fn selection_valid(sel: DMSelection, has_draft: bool, n_req: int, n_conv: int) -> bool {
    match sel {
        DMSelection::NewConversation => true,
        DMSelection::PendingDraft => has_draft,
        DMSelection::Request(i) => i < n_req,
        DMSelection::Conversation(i) => i < n_conv,
    }
}

impl DMsState {
    /// An empty DM list with the "New Conversation" button selected.
    pub fn new() -> (s: Self)
        ensures
            s.conversations@.len() == 0,
            !s.conversations_loaded,
            s.selection == DMSelection::NewConversation,
            s.pending_conversation_username is None,
            s.pending_requests@.len() == 0,
            s.current_conversation_user is None,
            !s.needs_message_load,
            s.messages@.len() == 0,
            s.unread_counts@ == Map::<u128, usize>::empty(),
    {
        DMsState {
            conversations: Vec::new(),
            conversations_loaded: false,
            selection: DMSelection::NewConversation,
            pending_conversation_username: None,
            pending_requests: Vec::new(),
            current_conversation_user: None,
            needs_message_load: false,
            messages: Vec::new(),
            unread_counts: HashMap::new(),
            loading: false,
            error: None,
            show_new_conversation_modal: false,
            new_conversation_username: String::new(),
            new_conversation_selected_index: 0,
            new_conversation_search_mode: false,
            new_conversation_search_query: String::new(),
            available_mutual_friends: Vec::new(),
            show_dm_error_modal: false,
            dm_error_message: String::new(),
            failed_username: None,
        }
    }

    pub open spec fn has_draft(&self) -> bool {
        self.pending_conversation_username is Some
    }

    pub open spec fn n_req(&self) -> int {
        self.pending_requests@.len() as int
    }

    pub open spec fn n_conv(&self) -> int {
        self.conversations@.len() as int
    }

    pub open spec fn valid(&self) -> bool {
        selection_valid(self.selection, self.has_draft(), self.n_req(), self.n_conv())
    }

    /// Move the selection one row down; the last row stays selected.
    pub fn navigate_down(&mut self)
        ensures
            final(self).selection == nav_down(
                old(self).selection,
                old(self).has_draft(),
                old(self).n_req(),
                old(self).n_conv(),
            ),
            *final(self) == (DMsState { selection: final(self).selection, ..*old(self) }),
    {
        let n_req = self.pending_requests.len();
        let n_conv = self.conversations.len();
        let has_draft = self.pending_conversation_username.is_some();
        let next = match &self.selection {
            DMSelection::NewConversation => {
                if has_draft {
                    DMSelection::PendingDraft
                } else if n_req > 0 {
                    DMSelection::Request(0)
                } else if n_conv > 0 {
                    DMSelection::Conversation(0)
                } else {
                    DMSelection::NewConversation
                }
            },
            DMSelection::PendingDraft => {
                if n_req > 0 {
                    DMSelection::Request(0)
                } else if n_conv > 0 {
                    DMSelection::Conversation(0)
                } else {
                    DMSelection::PendingDraft
                }
            },
            DMSelection::Request(idx) => {
                let i = *idx;
                if n_req > 0 && i < n_req - 1 {
                    DMSelection::Request(i + 1)
                } else if n_conv > 0 {
                    DMSelection::Conversation(0)
                } else {
                    DMSelection::Request(i)
                }
            },
            DMSelection::Conversation(idx) => {
                let i = *idx;
                if n_conv > 0 && i < n_conv - 1 {
                    DMSelection::Conversation(i + 1)
                } else {
                    DMSelection::Conversation(i)
                }
            },
        };
        self.selection = next;
    }

    /// Move the selection one row up; the top row stays selected.
    pub fn navigate_up(&mut self)
        ensures
            final(self).selection == nav_up(
                old(self).selection,
                old(self).has_draft(),
                old(self).n_req(),
                old(self).n_conv(),
            ),
            *final(self) == (DMsState { selection: final(self).selection, ..*old(self) }),
    {
        let n_req = self.pending_requests.len();
        let has_draft = self.pending_conversation_username.is_some();
        let next = match &self.selection {
            DMSelection::NewConversation => DMSelection::NewConversation,
            DMSelection::PendingDraft => DMSelection::NewConversation,
            DMSelection::Request(idx) => {
                let i = *idx;
                if i == 0 {
                    if has_draft {
                        DMSelection::PendingDraft
                    } else {
                        DMSelection::NewConversation
                    }
                } else {
                    DMSelection::Request(i - 1)
                }
            },
            DMSelection::Conversation(idx) => {
                let i = *idx;
                if i == 0 {
                    if n_req > 0 {
                        DMSelection::Request(n_req - 1)
                    } else if has_draft {
                        DMSelection::PendingDraft
                    } else {
                        DMSelection::NewConversation
                    }
                } else {
                    DMSelection::Conversation(i - 1)
                }
            },
        };
        self.selection = next;
    }

    /// After accepting or declining the request at `acted_idx`, keep the
    /// selection in the request list while requests remain.
    pub fn restore_request_selection(&mut self, acted_idx: usize)
        ensures
            old(self).pending_requests@.len() > 0 ==> final(self).selection == DMSelection::Request(
                if acted_idx < old(self).pending_requests@.len() {
                    acted_idx
                } else {
                    (old(self).pending_requests@.len() - 1) as usize
                },
            ),
            old(self).pending_requests@.len() == 0 ==> final(self).selection == old(self).selection,
            *final(self) == (DMsState { selection: final(self).selection, ..*old(self) }),
    {
        let n = self.pending_requests.len();
        if n > 0 {
            let last = n - 1;
            let idx = if acted_idx < last { acted_idx } else { last };
            self.selection = DMSelection::Request(idx);
        }
    }
}

/// Moving down and then up returns to the starting row whenever "down" moved.
pub proof fn lemma_up_undoes_down(sel: DMSelection, has_draft: bool, n_req: int, n_conv: int)
    requires
        0 <= n_req <= usize::MAX,
        0 <= n_conv <= usize::MAX,
        selection_valid(sel, has_draft, n_req, n_conv),
        nav_down(sel, has_draft, n_req, n_conv) != sel,
    ensures
        nav_up(nav_down(sel, has_draft, n_req, n_conv), has_draft, n_req, n_conv) == sel,
{
    match sel {
        DMSelection::Request(i) => {
            if i < n_req - 1 {
                assert(((i + 1) as usize) != 0);
                assert((((i + 1) as usize) - 1) as usize == i);
            }
        },
        DMSelection::Conversation(i) => {
            assert((((i + 1) as usize) - 1) as usize == i);
        },
        _ => {},
    }
}

/// Moving up and then down returns to the starting row whenever "up" moved.
pub proof fn lemma_down_undoes_up(sel: DMSelection, has_draft: bool, n_req: int, n_conv: int)
    requires
        0 <= n_req <= usize::MAX,
        0 <= n_conv <= usize::MAX,
        selection_valid(sel, has_draft, n_req, n_conv),
        nav_up(sel, has_draft, n_req, n_conv) != sel,
    ensures
        nav_down(nav_up(sel, has_draft, n_req, n_conv), has_draft, n_req, n_conv) == sel,
{
    match sel {
        DMSelection::Request(i) => {
            if i > 0 {
                assert((((i - 1) as usize) + 1) as usize == i);
            }
        },
        DMSelection::Conversation(i) => {
            if i > 0 {
                assert((((i - 1) as usize) + 1) as usize == i);
            }
        },
        _ => {},
    }
}

/// Both moves keep the selection on a row that exists.
pub proof fn lemma_navigation_keeps_selection_valid(
    sel: DMSelection,
    has_draft: bool,
    n_req: int,
    n_conv: int,
)
    requires
        0 <= n_req <= usize::MAX,
        0 <= n_conv <= usize::MAX,
        selection_valid(sel, has_draft, n_req, n_conv),
    ensures
        selection_valid(nav_down(sel, has_draft, n_req, n_conv), has_draft, n_req, n_conv),
        selection_valid(nav_up(sel, has_draft, n_req, n_conv), has_draft, n_req, n_conv),
{
}

/// The other side of `m` for the user `me`: their id and name, and whether
/// `me` sent it. None when no user is signed in or `me` is on neither side.
pub open spec fn counterparty(m: DirectMessage, me: Option<u128>) -> Option<(u128, String, bool)> {
    match me {
        Some(u) => if m.from_user_id == u {
            Some((m.to_user_id, m.to_username, true))
        } else if m.to_user_id == u {
            Some((m.from_user_id, m.from_username, false))
        } else {
            None
        },
        None => None,
    }
}

/// The other side of `message` for the signed-in user `current_user`.
pub fn dm_counterparty(message: &DirectMessage, current_user: Option<u128>) -> (r: Option<(u128, String, bool)>)
    ensures
        r == counterparty(*message, current_user),
{
    match current_user {
        Some(u) => {
            if message.from_user_id == u {
                Some((message.to_user_id, message.to_username.clone(), true))
            } else if message.to_user_id == u {
                Some((message.from_user_id, message.from_username.clone(), false))
            } else {
                None
            }
        },
        None => None,
    }
}

/// The unread count recorded for `id`, zero when none is.
pub open spec fn unread_of(m: Map<u128, usize>, id: u128) -> usize {
    if m.dom().contains(id) {
        m[id]
    } else {
        0
    }
}

/// `k` is the first conversation of `convs` with user `id`.
pub open spec fn is_first_conv(convs: Seq<Conversation>, id: u128, k: int) -> bool {
    &&& 0 <= k < convs.len()
    &&& convs[k].other_user_id == id
    &&& forall|j: int| 0 <= j < k ==> #[trigger] convs[j].other_user_id != id
}

/// Some conversation of `convs` is with user `id`.
pub open spec fn has_conv(convs: Seq<Conversation>, id: u128) -> bool {
    exists|k: int| 0 <= k < convs.len() && #[trigger] convs[k].other_user_id == id
}

/// Index of the first conversation with user `id`.
pub open spec fn first_conv(convs: Seq<Conversation>, id: u128) -> int {
    choose|k: int| is_first_conv(convs, id, k)
}

proof fn lemma_first_conv(convs: Seq<Conversation>, id: u128, k: int)
    requires
        is_first_conv(convs, id, k),
    ensures
        first_conv(convs, id) == k,
{
    let c = first_conv(convs, id);
    assert(is_first_conv(convs, id, c));
    if c < k {
        assert(convs[c].other_user_id != id);
    } else if k < c {
        assert(convs[k].other_user_id != id);
    }
}

pub(crate) fn find_conversation(convs: &Vec<Conversation>, id: u128) -> (r: Option<usize>)
    ensures
        match r {
            Some(k) => is_first_conv(convs@, id, k as int) && first_conv(convs@, id) == k,
            None => !has_conv(convs@, id),
        },
{
    let mut k: usize = 0;
    while k < convs.len()
        invariant
            0 <= k <= convs@.len(),
            forall|j: int| 0 <= j < k ==> #[trigger] convs@[j].other_user_id != id,
        decreases convs@.len() - k,
    {
        if convs[k].other_user_id == id {
            proof {
                lemma_first_conv(convs@, id, k as int);
            }
            return Some(k);
        }
        k = k + 1;
    }
    None
}

/// The conversation list after a message with user `other`: the first
/// conversation with them takes the new last message and state; without
/// one, a new conversation goes on top.
pub open spec fn upserted(
    convs: Seq<Conversation>,
    other: u128,
    name: String,
    last: String,
    state: DmConversationState,
    by_me: bool,
    unread: i32,
) -> Seq<Conversation> {
    if has_conv(convs, other) {
        let k = first_conv(convs, other);
        convs.update(k, Conversation { last_message: last, state: state, ..convs[k] })
    } else {
        convs.insert(
            0,
            Conversation {
                other_user_id: other,
                other_username: name,
                last_message: last,
                unread_count: unread,
                state: state,
                initiated_by_me: by_me,
            },
        )
    }
}

/// The conversation list with the first conversation with `other` showing
/// `unread` unread messages.
pub open spec fn synced(convs: Seq<Conversation>, other: u128, unread: i32) -> Seq<Conversation> {
    if has_conv(convs, other) {
        let k = first_conv(convs, other);
        convs.update(k, Conversation { unread_count: unread, ..convs[k] })
    } else {
        convs
    }
}

/// Some message of `msgs` has id `id`.
pub open spec fn has_message_id(msgs: Seq<DirectMessage>, id: u128) -> bool {
    exists|k: int| 0 <= k < msgs.len() && #[trigger] msgs[k].id == id
}

fn find_message_id(msgs: &Vec<DirectMessage>, id: u128) -> (r: bool)
    ensures
        r == has_message_id(msgs@, id),
{
    let mut k: usize = 0;
    while k < msgs.len()
        invariant
            0 <= k <= msgs@.len(),
            forall|j: int| 0 <= j < k ==> #[trigger] msgs@[j].id != id,
        decreases msgs@.len() - k,
    {
        if msgs[k].id == id {
            return true;
        }
        k = k + 1;
    }
    false
}

/// One pushed direct message applied to the DM state `s0`, with `seen`
/// the message ids seen before, `me` the signed-in user and `visible`
/// whether the DM tab is on screen. A message already listed or seen, or
/// not involving `me`, changes nothing. Otherwise: in the open conversation
/// it is listed as read and its unread count is zero (an incoming one also
/// asks for the conversation to be reloaded); elsewhere an incoming one
/// adds one unread. Unless it is an incoming request still pending, its
/// conversation takes it as last message (or is created on top); the
/// conversation's unread count is then brought in line.
pub open spec fn dm_step(
    s0: DMsState,
    seen: Set<u128>,
    m: DirectMessage,
    hint: Option<DmConversationState>,
    me: Option<u128>,
    visible: bool,
    s1: DMsState,
) -> bool {
    if has_message_id(s0.messages@, m.id) || seen.contains(m.id) || counterparty(m, me) is None {
        s1 == s0
    } else {
        let (other, name, from_me) = counterparty(m, me)->0;
        let is_open = visible && s0.current_conversation_user == Some(other);
        let incoming = !from_me;
        let unread = if is_open {
            s0.unread_counts@.insert(other, 0)
        } else if incoming {
            s0.unread_counts@.insert(
                other,
                (if unread_of(s0.unread_counts@, other) < usize::MAX {
                    unread_of(s0.unread_counts@, other) + 1
                } else {
                    usize::MAX as int
                }) as usize,
            )
        } else {
            s0.unread_counts@
        };
        let pending_incoming = incoming && hint == Some(DmConversationState::Pending);
        let state = match hint {
            Some(h) => h,
            None => DmConversationState::Accepted,
        };
        let n_unread = unread_of(unread, other) as i32;
        let convs = if pending_incoming {
            s0.conversations@
        } else {
            upserted(s0.conversations@, other, name, m.content, state, from_me, n_unread)
        };
        let created = !pending_incoming && !has_conv(s0.conversations@, other);
        &&& s1.messages@ == (if is_open {
            s0.messages@.push(DirectMessage { is_read: true, ..m })
        } else {
            s0.messages@
        })
        &&& s1.unread_counts@ == unread
        &&& s1.needs_message_load == (s0.needs_message_load || (is_open && incoming))
        &&& s1.conversations@ == synced(convs, other, n_unread)
        &&& s1.conversations_loaded == (s0.conversations_loaded || created)
        &&& s1.selection == (if created && s0.selection == DMSelection::NewConversation {
            DMSelection::Conversation(0)
        } else {
            s0.selection
        })
        &&& s1.pending_requests == s0.pending_requests
        &&& s1.pending_conversation_username == s0.pending_conversation_username
        &&& s1.current_conversation_user == s0.current_conversation_user
        &&& s1.loading == s0.loading
        &&& s1.error == s0.error
        &&& s1.show_new_conversation_modal == s0.show_new_conversation_modal
        &&& s1.new_conversation_username == s0.new_conversation_username
        &&& s1.new_conversation_selected_index == s0.new_conversation_selected_index
        &&& s1.new_conversation_search_mode == s0.new_conversation_search_mode
        &&& s1.new_conversation_search_query == s0.new_conversation_search_query
        &&& s1.available_mutual_friends == s0.available_mutual_friends
        &&& s1.show_dm_error_modal == s0.show_dm_error_modal
        &&& s1.dm_error_message == s0.dm_error_message
        &&& s1.failed_username == s0.failed_username
    }
}

impl DMsState {
    /// Record `last_message` in the conversation with `other_user_id`,
    /// creating the conversation on top of the list when there is none.
    pub fn upsert_dm_conversation(
        &mut self,
        other_user_id: u128,
        other_username: String,
        last_message: String,
        state: DmConversationState,
        initiated_by_me: bool,
    )
        ensures
            final(self).conversations@ == upserted(
                old(self).conversations@,
                other_user_id,
                other_username,
                last_message,
                state,
                initiated_by_me,
                unread_of(old(self).unread_counts@, other_user_id) as i32,
            ),
            has_conv(old(self).conversations@, other_user_id) ==> *final(self) == (DMsState {
                conversations: final(self).conversations,
                ..*old(self)
            }),
            !has_conv(old(self).conversations@, other_user_id) ==> *final(self) == (DMsState {
                conversations: final(self).conversations,
                conversations_loaded: true,
                selection: if old(self).selection == DMSelection::NewConversation {
                    DMSelection::Conversation(0)
                } else {
                    old(self).selection
                },
                ..*old(self)
            }),
    {
        match find_conversation(&self.conversations, other_user_id) {
            Some(k) => {
                self.conversations[k].last_message = last_message;
                self.conversations[k].state = state;
            },
            None => {
                let unread_count: i32 = match self.unread_counts.get(&other_user_id) {
                    Some(c) => *c as i32,
                    None => 0,
                };
                self.conversations.insert(
                    0,
                    Conversation {
                        other_user_id,
                        other_username,
                        last_message,
                        unread_count,
                        state,
                        initiated_by_me,
                    },
                );
                self.conversations_loaded = true;
                if self.selection == DMSelection::NewConversation {
                    self.selection = DMSelection::Conversation(0);
                }
            },
        }
    }

    /// Show the recorded unread count of `other_user_id` on their conversation.
    pub fn sync_conversation_unread_count(&mut self, other_user_id: u128)
        ensures
            final(self).conversations@ == synced(
                old(self).conversations@,
                other_user_id,
                unread_of(old(self).unread_counts@, other_user_id) as i32,
            ),
            *final(self) == (DMsState { conversations: final(self).conversations, ..*old(self) }),
    {
        let unread_count: i32 = match self.unread_counts.get(&other_user_id) {
            Some(c) => *c as i32,
            None => 0,
        };
        match find_conversation(&self.conversations, other_user_id) {
            Some(k) => {
                self.conversations[k].unread_count = unread_count;
            },
            None => {},
        }
    }

    /// Take in a direct message pushed by the server (see `dm_step`).
    pub fn apply_realtime_dm_message(
        &mut self,
        message: DirectMessage,
        state_hint: Option<DmConversationState>,
        seen_dm_messages: &mut HashSet<u128>,
        current_user: Option<u128>,
        dm_tab_visible: bool,
    )
        ensures
            final(seen_dm_messages)@ == old(seen_dm_messages)@.insert(message.id),
            dm_step(
                *old(self),
                old(seen_dm_messages)@,
                message,
                state_hint,
                current_user,
                dm_tab_visible,
                *final(self),
            ),
    {
        if find_message_id(&self.messages, message.id) {
            seen_dm_messages.insert(message.id);
            return;
        }
        if !seen_dm_messages.insert(message.id) {
            return;
        }
        let (other_user_id, other_username, from_me) = match dm_counterparty(&message, current_user) {
            Some(t) => t,
            None => {
                return;
            },
        };
        let ghost s0 = *self;
        let is_open = dm_tab_visible && match self.current_conversation_user {
            Some(u) => u == other_user_id,
            None => false,
        };
        let is_incoming = !from_me;
        if is_open {
            let visible_message = DirectMessage {
                id: message.id,
                from_user_id: message.from_user_id,
                to_user_id: message.to_user_id,
                from_username: message.from_username.clone(),
                to_username: message.to_username.clone(),
                content: message.content.clone(),
                created_at: message.created_at,
                is_read: true,
            };
            self.messages.push(visible_message);
            self.unread_counts.insert(other_user_id, 0);
            if is_incoming {
                self.needs_message_load = true;
            }
        } else if is_incoming {
            let count: usize = match self.unread_counts.get(&other_user_id) {
                Some(c) => *c,
                None => 0,
            };
            self.unread_counts.insert(other_user_id, count.saturating_add(1));
        }
        let pending_incoming = is_incoming && match state_hint {
            Some(DmConversationState::Pending) => true,
            _ => false,
        };
        let ghost s_mid = *self;
        if !pending_incoming {
            let state = match state_hint {
                Some(h) => h,
                None => DmConversationState::Accepted,
            };
            self.upsert_dm_conversation(
                other_user_id,
                other_username,
                message.content,
                state,
                from_me,
            );
        }
        self.sync_conversation_unread_count(other_user_id);
        proof {
            assert(s_mid.unread_counts@ == self.unread_counts@);
        }
    }

    /// Take in a DM request pushed by the server: an incoming one from a
    /// user with no pending request is listed, then the message is taken in
    /// as a pushed message in state `state`.
    pub fn apply_realtime_dm_request(
        &mut self,
        message: DirectMessage,
        state: DmConversationState,
        seen_dm_messages: &mut HashSet<u128>,
        current_user: Option<u128>,
        dm_tab_visible: bool,
    )
        ensures
            final(seen_dm_messages)@ == old(seen_dm_messages)@.insert(message.id),
            exists|s_mid: DMsState|
                #[trigger] request_listed(*old(self), message, current_user, s_mid) && dm_step(
                    s_mid,
                    old(seen_dm_messages)@,
                    message,
                    Some(state),
                    current_user,
                    dm_tab_visible,
                    *final(self),
                ),
    {
        match dm_counterparty(&message, current_user) {
            Some((other_user_id, other_username, from_me)) => {
                if !from_me && !has_request_from(&self.pending_requests, other_user_id) {
                    self.pending_requests.push(DmRequest { from_user_id: other_user_id, from_username: other_username });
                }
            },
            None => {},
        }
        let ghost s_mid = *self;
        self.apply_realtime_dm_message(message, Some(state), seen_dm_messages, current_user, dm_tab_visible);
        proof {
            assert(request_listed(*old(self), message, current_user, s_mid));
        }
    }
}

fn has_request_from(reqs: &Vec<DmRequest>, id: u128) -> (r: bool)
    ensures
        r == exists|k: int| 0 <= k < reqs@.len() && #[trigger] reqs@[k].from_user_id == id,
{
    let mut k: usize = 0;
    while k < reqs.len()
        invariant
            0 <= k <= reqs@.len(),
            forall|j: int| 0 <= j < k ==> #[trigger] reqs@[j].from_user_id != id,
        decreases reqs@.len() - k,
    {
        if reqs[k].from_user_id == id {
            return true;
        }
        k = k + 1;
    }
    false
}

/// `s1` is `s0` with the sender of the incoming request `m` added to the
/// pending requests, unless `me` sent it or a request from them is listed.
pub open spec fn request_listed(s0: DMsState, m: DirectMessage, me: Option<u128>, s1: DMsState) -> bool {
    match counterparty(m, me) {
        Some((other, name, from_me)) => if !from_me && !(exists|k: int|
            0 <= k < s0.pending_requests@.len() && #[trigger] s0.pending_requests@[k].from_user_id
                == other) {
            s1 == (DMsState {
                pending_requests: s1.pending_requests,
                ..s0
            }) && s1.pending_requests@ == s0.pending_requests@.push(
                DmRequest { from_user_id: other, from_username: name },
            )
        } else {
            s1 == s0
        },
        None => s1 == s0,
    }
}

/// A direct message pushed twice is taken in once: the second delivery
/// changes nothing.
pub proof fn lemma_realtime_dm_idempotent(
    s0: DMsState,
    seen0: Set<u128>,
    m: DirectMessage,
    hint: Option<DmConversationState>,
    me: Option<u128>,
    visible: bool,
    s1: DMsState,
    s2: DMsState,
)
    requires
        dm_step(s0, seen0, m, hint, me, visible, s1),
        dm_step(s1, seen0.insert(m.id), m, hint, me, visible, s2),
    ensures
        s2 == s1,
{
    assert(seen0.insert(m.id).contains(m.id));
}

/// A DM request pushed twice is taken in once: the second delivery
/// changes nothing.
pub proof fn lemma_realtime_dm_request_idempotent(
    s0: DMsState,
    seen0: Set<u128>,
    m: DirectMessage,
    state: DmConversationState,
    me: Option<u128>,
    visible: bool,
    a: DMsState,
    s1: DMsState,
    b: DMsState,
    s2: DMsState,
)
    requires
        request_listed(s0, m, me, a),
        dm_step(a, seen0, m, Some(state), me, visible, s1),
        request_listed(s1, m, me, b),
        dm_step(b, seen0.insert(m.id), m, Some(state), me, visible, s2),
    ensures
        s2 == s1,
{
    assert(seen0.insert(m.id).contains(m.id));
    assert(s1.pending_requests == a.pending_requests);
    match counterparty(m, me) {
        Some((other, name, from_me)) => {
            if !from_me {
                let k = if exists|k: int|
                    0 <= k < s0.pending_requests@.len() && #[trigger] s0.pending_requests@[k].from_user_id
                        == other {
                    choose|k: int|
                        0 <= k < s0.pending_requests@.len() && #[trigger] s0.pending_requests@[k].from_user_id
                            == other
                } else {
                    s0.pending_requests@.len() as int
                };
                assert(a.pending_requests@[k].from_user_id == other);
            }
        },
        None => {},
    }
}

} // verus!
