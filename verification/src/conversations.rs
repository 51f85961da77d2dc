//! Loading, opening, starting and sending direct-message conversations,
//! and the keys of the DM tab.
use vstd::prelude::*;
use std::collections::{HashMap, HashSet};
use crate::dms::{
    find_conversation, has_conv, has_message_id, is_first_conv, Conversation, DMSelection, DMsState, DirectMessage,
    DmConversationState, DmRequest,
};
use crate::error::{categorize_error, lowercase, spec_categorize_error, to_lowercase};
use crate::keys::{down_key, is_down_key, is_up_key, up_key, KeyCode};
use crate::social::UserInfo;
use crate::state::InputMode;
use crate::text::{chars_of, concat, contains, contains_exec, contains_str, owned, pop_char, push_char, string_from_chars, trim, trim_chars};

verus! {

broadcast use vstd::std_specs::hash::group_hash_axioms;

/// The conversations kept from a loaded list: all but the incoming ones
/// still pending, which the request list shows instead.
pub open spec fn kept_conversations(convs: Seq<Conversation>) -> Seq<Conversation> {
    convs.filter(|c: Conversation| c.state != DmConversationState::Pending || c.initiated_by_me)
}

/// The unread counts of a conversation list; a later conversation with the
/// same user overrides an earlier one.
pub open spec fn unread_map(convs: Seq<Conversation>) -> Map<u128, usize>
    decreases convs.len(),
{
    if convs.len() == 0 {
        Map::empty()
    } else {
        unread_map(convs.drop_last()).insert(convs.last().other_user_id, convs.last().unread_count as usize)
    }
}

/// Friends shown in the new-conversation modal for `query`: all of them
/// when the lowercase query is empty, else those whose lowercase name
/// contains it.
pub open spec fn friend_matches(name: Seq<char>, query: Seq<char>) -> bool {
    lowercase(query).len() == 0 || contains(lowercase(name), lowercase(query))
}

/// `r` lists, in increasing order, exactly the positions of `users` whose
/// name passes `query` in the new-conversation modal.
pub open spec fn is_friend_filter(users: Seq<UserInfo>, query: Seq<char>, r: Seq<usize>) -> bool {
    &&& forall|a: int, b: int| 0 <= a < b < r.len() ==> r[a] < r[b]
    &&& forall|k: int|
        0 <= k < r.len() ==> r[k] < users.len() && friend_matches(users[r[k] as int].username@, query)
    &&& forall|i: usize|
        i < users.len() && friend_matches(users[i as int].username@, query) ==> #[trigger] r.contains(i)
}

/// What a key does on the DM tab (outside the new-conversation modal).
#[derive(Debug, Clone, Copy, PartialEq, Eq, Structural)]
pub enum DmCommand {
    Nothing,
    NavigateDown,
    NavigateUp,
    OpenNewConversationModal,
    /// Start typing into the draft of the pending conversation.
    FocusDraft,
    /// Load the selected conversation and start typing.
    OpenConversation,
    ViewProfile,
    AcceptRequest,
    DeclineRequest,
    /// Start typing with this key into the message box.
    StartTyping,
    /// Clear the message box and stop typing.
    ClearDraft,
    Send,
    /// Edit the message box with this key.
    EditDraft,
}

pub open spec fn spec_dm_command(k: KeyCode, mode: InputMode, sel: DMSelection, n_conv: int) -> DmCommand {
    match mode {
        InputMode::Navigation => if is_down_key(k) {
            DmCommand::NavigateDown
        } else if is_up_key(k) {
            DmCommand::NavigateUp
        } else if k == KeyCode::Char('n') || k == KeyCode::Char('N') {
            DmCommand::OpenNewConversationModal
        } else if k == KeyCode::Enter {
            match sel {
                DMSelection::NewConversation => DmCommand::OpenNewConversationModal,
                DMSelection::PendingDraft => DmCommand::FocusDraft,
                DMSelection::Request(_) => DmCommand::Nothing,
                DMSelection::Conversation(i) => if i < n_conv {
                    DmCommand::OpenConversation
                } else {
                    DmCommand::Nothing
                },
            }
        } else if k == KeyCode::Char('p') || k == KeyCode::Char('P') {
            DmCommand::ViewProfile
        } else if (k == KeyCode::Char('a') || k == KeyCode::Char('A')) && sel is Request {
            DmCommand::AcceptRequest
        } else if (k == KeyCode::Char('x') || k == KeyCode::Char('X')) && sel is Request {
            DmCommand::DeclineRequest
        } else if sel is Request {
            DmCommand::Nothing
        } else {
            DmCommand::StartTyping
        },
        InputMode::Typing => if k == KeyCode::Esc {
            DmCommand::ClearDraft
        } else if k == KeyCode::Enter {
            DmCommand::Send
        } else {
            DmCommand::EditDraft
        },
    }
}

/// What key `k` does on the DM tab in input mode `mode`.
pub fn handle_dms_keys(k: KeyCode, mode: InputMode, sel: DMSelection, n_conv: usize) -> (r: DmCommand)
    ensures
        r == spec_dm_command(k, mode, sel, n_conv as int),
{
    let is_request = match sel {
        DMSelection::Request(_) => true,
        _ => false,
    };
    match mode {
        InputMode::Navigation => {
            if down_key(k) {
                DmCommand::NavigateDown
            } else if up_key(k) {
                DmCommand::NavigateUp
            } else {
                match k {
                    KeyCode::Char(c) => {
                        if c == 'n' || c == 'N' {
                            DmCommand::OpenNewConversationModal
                        } else if c == 'p' || c == 'P' {
                            DmCommand::ViewProfile
                        } else if (c == 'a' || c == 'A') && is_request {
                            DmCommand::AcceptRequest
                        } else if (c == 'x' || c == 'X') && is_request {
                            DmCommand::DeclineRequest
                        } else if is_request {
                            DmCommand::Nothing
                        } else {
                            DmCommand::StartTyping
                        }
                    },
                    KeyCode::Enter => match sel {
                        DMSelection::NewConversation => DmCommand::OpenNewConversationModal,
                        DMSelection::PendingDraft => DmCommand::FocusDraft,
                        DMSelection::Request(_) => DmCommand::Nothing,
                        DMSelection::Conversation(i) => if i < n_conv {
                            DmCommand::OpenConversation
                        } else {
                            DmCommand::Nothing
                        },
                    },
                    _ => if is_request {
                        DmCommand::Nothing
                    } else {
                        DmCommand::StartTyping
                    },
                }
            }
        },
        InputMode::Typing => match k {
            KeyCode::Esc => DmCommand::ClearDraft,
            KeyCode::Enter => DmCommand::Send,
            _ => DmCommand::EditDraft,
        },
    }
}

/// The input mode after editing the message box with key `k`: a Backspace
/// that leaves it blank returns to navigation.
pub fn input_mode_after_edit(k: KeyCode, draft_blank: bool) -> (r: InputMode)
    ensures
        r == (if draft_blank && k == KeyCode::Backspace {
            InputMode::Navigation
        } else {
            InputMode::Typing
        }),
{
    match k {
        KeyCode::Backspace => if draft_blank {
            InputMode::Navigation
        } else {
            InputMode::Typing
        },
        _ => InputMode::Typing,
    }
}

/// Why a direct message cannot be sent.
#[derive(Debug, Clone, Copy, PartialEq, Eq, Structural)]
pub enum DmSendError {
    Empty,
    NewConversationSelected,
    NoRecipient,
    RequestSelected,
    NoConversations,
}

impl DmSendError {
    /// The text shown for the error.
    pub fn message(self) -> (r: &'static str)
        ensures
            self is Empty ==> r@ == "Validation Error: Cannot send empty message. Type something first!"@,
            self is NewConversationSelected ==> r@ == "Press Enter or N to start a new conversation."@,
            self is NoRecipient ==> r@ == "No recipient selected."@,
            self is RequestSelected ==> r@ == "Accept the request first before sending a message."@,
            self is NoConversations ==> r@ == "No conversations available."@,
    {
        match self {
            DmSendError::Empty => "Validation Error: Cannot send empty message. Type something first!",
            DmSendError::NewConversationSelected => "Press Enter or N to start a new conversation.",
            DmSendError::NoRecipient => "No recipient selected.",
            DmSendError::RequestSelected => "Accept the request first before sending a message.",
            DmSendError::NoConversations => "No conversations available.",
        }
    }
}

/// The recipient of a message `content` sent from state `s`, or why there
/// is none: blank text is refused; a pending draft goes to its user;
/// otherwise the selected conversation's user.
pub open spec fn spec_dm_recipient(s: DMsState, content: Seq<char>) -> Result<Seq<char>, DmSendError> {
    if trim(content).len() == 0 {
        Err(DmSendError::Empty)
    } else if s.pending_conversation_username is Some {
        Ok(s.pending_conversation_username->0@)
    } else {
        match s.selection {
            DMSelection::NewConversation => Err(DmSendError::NewConversationSelected),
            DMSelection::PendingDraft => Err(DmSendError::NoRecipient),
            DMSelection::Request(_) => Err(DmSendError::RequestSelected),
            DMSelection::Conversation(i) => if s.conversations@.len() == 0 {
                Err(DmSendError::NoConversations)
            } else {
                Ok(s.conversations@[i as int].other_username@)
            },
        }
    }
}

/// A send error says the user does not exist.
pub open spec fn is_user_not_found(e: Seq<char>) -> bool {
    contains(e, "404"@) || contains(e, "not found"@) || contains(e, "User not found"@)
}


impl DMsState {
    /// Close the DM error modal.
    pub fn close_dm_error_modal(&mut self)
        ensures
            *final(self) == (DMsState {
                show_dm_error_modal: false,
                dm_error_message: final(self).dm_error_message,
                failed_username: None,
                ..*old(self)
            }),
            final(self).dm_error_message@.len() == 0,
    {
        self.show_dm_error_modal = false;
        self.dm_error_message = String::new();
        self.failed_username = None;
    }

    /// Drop the DM error text.
    pub fn clear_dm_error(&mut self)
        ensures
            *final(self) == (DMsState { error: None, ..*old(self) }),
    {
        self.error = None;
    }

    /// Show a freshly loaded conversation list: incoming pending ones are
    /// left to the request list, unread counts are taken from the list, and
    /// the first conversation is selected (or the "New Conversation" row
    /// when there is none), with nothing open.
    pub fn apply_loaded_conversations(&mut self, conversations: Vec<Conversation>)
        ensures
            final(self).conversations@ == kept_conversations(conversations@),
            final(self).unread_counts@ == unread_map(kept_conversations(conversations@)),
            final(self).selection == (if kept_conversations(conversations@).len() > 0 {
                DMSelection::Conversation(0)
            } else {
                DMSelection::NewConversation
            }),
            final(self).messages@.len() == 0,
            final(self).current_conversation_user is None,
            final(self).needs_message_load == (if kept_conversations(conversations@).len() > 0 {
                false
            } else {
                old(self).needs_message_load
            }),
            *final(self) == (DMsState {
                conversations: final(self).conversations,
                unread_counts: final(self).unread_counts,
                selection: final(self).selection,
                messages: final(self).messages,
                current_conversation_user: None,
                needs_message_load: final(self).needs_message_load,
                conversations_loaded: true,
                loading: false,
                ..*old(self)
            }),
    {
        let ghost pred = |c: Conversation| c.state != DmConversationState::Pending || c.initiated_by_me;
        let mut kept: Vec<Conversation> = Vec::new();
        let mut rev: Vec<Conversation> = Vec::new();
        let mut convs = conversations;
        let ghost orig = convs@;
        let n = convs.len();
        while convs.len() > 0
            invariant
                n == orig.len(),
                convs@ == orig.subrange(0, convs@.len() as int),
                rev@.len() == n - convs@.len(),
                forall|k: int| 0 <= k < rev@.len() ==> rev@[k] == orig[n - 1 - k],
            decreases convs@.len(),
        {
            let x = convs.pop().unwrap();
            rev.push(x);
            proof {
                assert(convs@ =~= orig.subrange(0, convs@.len() as int));
            }
        }
        let mut i: usize = 0;
        while rev.len() > 0
            invariant
                n == orig.len(),
                i + rev@.len() == n,
                forall|k: int| 0 <= k < rev@.len() ==> rev@[k] == orig[n - 1 - k],
                kept@ == kept_conversations(orig.subrange(0, i as int)),
            decreases rev@.len(),
        {
            let x = rev.pop().unwrap();
            proof {
                reveal(Seq::filter);
                assert(orig.subrange(0, i + 1).drop_last() =~= orig.subrange(0, i as int));
                assert(orig.subrange(0, i + 1).last() == x);
                assert(kept_conversations(orig.subrange(0, i + 1)) == (if x.state
                    != DmConversationState::Pending || x.initiated_by_me {
                    kept_conversations(orig.subrange(0, i as int)).push(x)
                } else {
                    kept_conversations(orig.subrange(0, i as int))
                }));
            }
            let keep = match x.state {
                DmConversationState::Pending => x.initiated_by_me,
                DmConversationState::Accepted => true,
            };
            if keep {
                kept.push(x);
            }
            i = i + 1;
        }
        proof {
            assert(orig.subrange(0, n as int) =~= orig);
        }
        let mut counts: HashMap<u128, usize> = HashMap::new();
        let mut j: usize = 0;
        while j < kept.len()
            invariant
                0 <= j <= kept@.len(),
                counts@ == unread_map(kept@.subrange(0, j as int)),
            decreases kept@.len() - j,
        {
            proof {
                assert(kept@.subrange(0, j + 1).drop_last() =~= kept@.subrange(0, j as int));
            }
            counts.insert(kept[j].other_user_id, kept[j].unread_count as usize);
            j = j + 1;
        }
        proof {
            assert(kept@.subrange(0, kept@.len() as int) =~= kept@);
        }
        self.conversations = kept;
        self.unread_counts = counts;
        if self.conversations.len() > 0 {
            self.selection = DMSelection::Conversation(0);
            self.messages.clear();
            self.current_conversation_user = None;
            self.needs_message_load = false;
        } else {
            self.selection = DMSelection::NewConversation;
            self.messages.clear();
            self.current_conversation_user = None;
        }
        self.conversations_loaded = true;
        self.loading = false;
    }

    /// The user whose messages to load: the one of the selected
    /// conversation, if a conversation that exists is selected.
    pub fn conversation_to_load(&self) -> (r: Option<u128>)
        ensures
            r == (match self.selection {
                DMSelection::Conversation(i) => if i < self.conversations@.len() {
                    Some(self.conversations@[i as int].other_user_id)
                } else {
                    None
                },
                _ => None,
            }),
    {
        match self.selection {
            DMSelection::Conversation(i) => if i < self.conversations.len() {
                Some(self.conversations[i].other_user_id)
            } else {
                None
            },
            _ => None,
        }
    }

    /// Record that the conversation with `user_id` is open and read: it is
    /// the current conversation, its unread count is zero everywhere, and
    /// its listed messages are read.
    pub fn mark_conversation_as_read(&mut self, user_id: u128)
        ensures
            final(self).current_conversation_user == Some(user_id),
            final(self).unread_counts@ == old(self).unread_counts@.insert(user_id, 0),
            final(self).messages@.len() == old(self).messages@.len(),
            forall|k: int|
                0 <= k < old(self).messages@.len() ==> #[trigger] final(self).messages@[k] == (
                DirectMessage { is_read: true, ..old(self).messages@[k] }),
            final(self).conversations@.len() == old(self).conversations@.len(),
            forall|k: int|
                0 <= k < old(self).conversations@.len() ==> #[trigger] final(self).conversations@[k]
                    == (if is_first_conv(old(self).conversations@, user_id, k) {
                    Conversation { unread_count: 0, ..old(self).conversations@[k] }
                } else {
                    old(self).conversations@[k]
                }),
            *final(self) == (DMsState {
                current_conversation_user: Some(user_id),
                unread_counts: final(self).unread_counts,
                messages: final(self).messages,
                conversations: final(self).conversations,
                ..*old(self)
            }),
    {
        self.current_conversation_user = Some(user_id);
        self.unread_counts.insert(user_id, 0);
        let ghost before = self.messages@;
        let mut k: usize = 0;
        while k < self.messages.len()
            invariant
                0 <= k <= self.messages@.len(),
                self.messages@.len() == before.len(),
                forall|j: int| 0 <= j < k ==> #[trigger] self.messages@[j] == (DirectMessage { is_read: true, ..before[j] }),
                forall|j: int| k <= j < before.len() ==> #[trigger] self.messages@[j] == before[j],
                self.current_conversation_user == Some(user_id),
                self.unread_counts@ == old(self).unread_counts@.insert(user_id, 0),
                *self == (DMsState {
                    messages: self.messages,
                    unread_counts: self.unread_counts,
                    current_conversation_user: Some(user_id),
                    ..*old(self)
                }),
                before == old(self).messages@,
            decreases before.len() - k,
        {
            self.messages[k].is_read = true;
            k = k + 1;
        }
        match find_conversation(&self.conversations, user_id) {
            Some(c) => {
                self.conversations[c].unread_count = 0;
            },
            None => {},
        }
    }

    /// Where a message with text `content` would go (see `spec_dm_recipient`).
    pub fn dm_recipient(&self, content: &str) -> (r: Result<String, DmSendError>)
        requires
            self.selection matches DMSelection::Conversation(i) ==> (self.conversations@.len()
                == 0 || i < self.conversations@.len()),
        ensures
            match r {
                Ok(u) => spec_dm_recipient(*self, content@) == Ok::<Seq<char>, DmSendError>(u@),
                Err(e) => spec_dm_recipient(*self, content@) == Err::<Seq<char>, DmSendError>(e),
            },
    {
        let cs = chars_of(content);
        let t = trim_chars(cs.as_slice());
        if t.len() == 0 {
            return Err(DmSendError::Empty);
        }
        if let Some(name) = &self.pending_conversation_username {
            return Ok(owned(name.as_str()));
        }
        match self.selection {
            DMSelection::NewConversation => Err(DmSendError::NewConversationSelected),
            DMSelection::PendingDraft => Err(DmSendError::NoRecipient),
            DMSelection::Request(_) => Err(DmSendError::RequestSelected),
            DMSelection::Conversation(i) => {
                if self.conversations.len() == 0 {
                    Err(DmSendError::NoConversations)
                } else {
                    Ok(owned(self.conversations[i].other_username.as_str()))
                }
            },
        }
    }

    /// Record a send to `to_username` that failed with error text `error`:
    /// an unknown user opens the DM error modal (and drops the draft);
    /// anything else is shown as the error `categorized`.
    pub fn apply_send_failure(&mut self, error: &str, to_username: String, categorized: String)
        ensures
            is_user_not_found(error@) ==> *final(self) == (DMsState {
                show_dm_error_modal: true,
                dm_error_message: final(self).dm_error_message,
                failed_username: Some(to_username),
                pending_conversation_username: None,
                ..*old(self)
            }) && final(self).dm_error_message@ == "User '@"@ + to_username@
                + "' not found. Add them as a friend first?"@,
            !is_user_not_found(error@) ==> *final(self) == (DMsState {
                error: Some(categorized),
                ..*old(self)
            }),
    {
        let e = chars_of(error);
        if contains_str(e.as_slice(), "404") || contains_str(e.as_slice(), "not found")
            || contains_str(e.as_slice(), "User not found") {
            let a = chars_of("User '@");
            let b = chars_of(to_username.as_str());
            let c = chars_of("' not found. Add them as a friend first?");
            let ab = concat(a.as_slice(), b.as_slice());
            let abc = concat(ab.as_slice(), c.as_slice());
            self.show_dm_error_modal = true;
            self.dm_error_message = string_from_chars(abc.as_slice());
            self.failed_username = Some(to_username);
            self.pending_conversation_username = None;
        } else {
            self.error = Some(categorized);
        }
    }

    /// Sending a direct message to `to_username` failed with error text
    /// `error`: an unknown user is reported in the DM error modal, any
    /// other error is shown categorized (`is_macos` picks the key names).
    pub fn apply_send_failure_from(&mut self, error: &str, to_username: String, is_macos: bool)
        ensures
            is_user_not_found(error@) ==> *final(self) == (DMsState {
                show_dm_error_modal: true,
                dm_error_message: final(self).dm_error_message,
                failed_username: Some(to_username),
                pending_conversation_username: None,
                ..*old(self)
            }) && final(self).dm_error_message@ == "User '@"@ + to_username@
                + "' not found. Add them as a friend first?"@,
            !is_user_not_found(error@) ==> (final(self).error matches Some(m) && m@
                == spec_categorize_error(error@, lowercase(error@), is_macos)) && *final(self)
                == (DMsState { error: final(self).error, ..*old(self) }),
    {
        let categorized = categorize_error(error, is_macos);
        self.apply_send_failure(error, to_username, categorized);
    }

    /// Open the new-conversation modal, empty, ready for typing.
    pub fn open_new_conversation_modal(&mut self, input_mode: &mut InputMode)
        ensures
            *final(self) == (DMsState {
                show_new_conversation_modal: true,
                new_conversation_username: final(self).new_conversation_username,
                new_conversation_search_query: final(self).new_conversation_search_query,
                new_conversation_selected_index: 0,
                ..*old(self)
            }),
            final(self).new_conversation_username@.len() == 0,
            final(self).new_conversation_search_query@.len() == 0,
            *final(input_mode) == InputMode::Typing,
    {
        self.show_new_conversation_modal = true;
        self.new_conversation_username = String::new();
        self.new_conversation_search_query = String::new();
        self.new_conversation_selected_index = 0;
        *input_mode = InputMode::Typing;
    }

    /// Close the new-conversation modal and return to navigation.
    pub fn close_new_conversation_modal(&mut self, input_mode: &mut InputMode)
        ensures
            *final(self) == (DMsState {
                show_new_conversation_modal: false,
                new_conversation_username: final(self).new_conversation_username,
                new_conversation_selected_index: 0,
                new_conversation_search_mode: false,
                new_conversation_search_query: final(self).new_conversation_search_query,
                ..*old(self)
            }),
            final(self).new_conversation_username@.len() == 0,
            final(self).new_conversation_search_query@.len() == 0,
            *final(input_mode) == InputMode::Navigation,
    {
        self.show_new_conversation_modal = false;
        self.new_conversation_username = String::new();
        self.new_conversation_selected_index = 0;
        self.new_conversation_search_mode = false;
        self.new_conversation_search_query = String::new();
        *input_mode = InputMode::Navigation;
    }

    /// The positions of the friends that pass the modal's search.
    pub fn get_filtered_mutual_friends(&self) -> (r: Vec<usize>)
        ensures
            is_friend_filter(self.available_mutual_friends@, self.new_conversation_search_query@, r@),
    {
        let q = to_lowercase(self.new_conversation_search_query.as_str());
        let qc = chars_of(q.as_str());
        let users = &self.available_mutual_friends;
        let ghost query = self.new_conversation_search_query@;
        let mut r: Vec<usize> = Vec::new();
        let mut i: usize = 0;
        while i < users.len()
            invariant
                0 <= i <= users@.len(),
                qc@ == lowercase(query),
                forall|a: int, b: int| 0 <= a < b < r@.len() ==> r@[a] < r@[b],
                forall|k: int|
                    0 <= k < r@.len() ==> r@[k] < i && friend_matches(users@[r@[k] as int].username@, query),
                forall|j: usize|
                    j < i && friend_matches(users@[j as int].username@, query) ==> #[trigger] r@.contains(j),
            decreases users@.len() - i,
        {
            let keep = if qc.len() == 0 {
                true
            } else {
                let n = to_lowercase(users[i].username.as_str());
                let nc = chars_of(n.as_str());
                contains_exec(nc.as_slice(), qc.as_slice())
            };
            let ghost before = r@;
            if keep {
                r.push(i);
            }
            proof {
                assert forall|j: usize|
                    j < i + 1 && friend_matches(users@[j as int].username@, query) implies #[trigger] r@.contains(j) by {
                    if j < i {
                        assert(before.contains(j));
                        let t = choose|t: int| 0 <= t < before.len() && before[t] == j;
                        assert(r@[t] == j);
                    } else {
                        assert(r@[r@.len() - 1] == j);
                    }
                }
            }
            i = i + 1;
        }
        r
    }

    /// Handle a key in the new-conversation modal. While searching,
    /// characters and Backspace edit the query (back to the first row) and
    /// Esc leaves the search; otherwise the arrows and `j`/`k` move within
    /// the filtered friends and `/` starts a search. True when Enter asks to
    /// start the conversation.
    pub fn handle_new_conversation_modal_keys(&mut self, key: KeyCode) -> (start: bool)
        ensures
            start == (!old(self).new_conversation_search_mode && key == KeyCode::Enter),
            old(self).new_conversation_search_mode ==> match key {
                KeyCode::Char(c) => *final(self) == (DMsState {
                    new_conversation_search_query: final(self).new_conversation_search_query,
                    new_conversation_selected_index: 0,
                    ..*old(self)
                }) && final(self).new_conversation_search_query@
                    == old(self).new_conversation_search_query@.push(c),
                KeyCode::Backspace => *final(self) == (DMsState {
                    new_conversation_search_query: final(self).new_conversation_search_query,
                    new_conversation_selected_index: 0,
                    ..*old(self)
                }) && final(self).new_conversation_search_query@ == (if old(self).new_conversation_search_query@.len() > 0 {
                    old(self).new_conversation_search_query@.drop_last()
                } else {
                    old(self).new_conversation_search_query@
                }),
                KeyCode::Esc => *final(self) == (DMsState {
                    new_conversation_search_mode: false,
                    ..*old(self)
                }),
                _ => *final(self) == *old(self),
            },
            !old(self).new_conversation_search_mode ==> {
                let i = old(self).new_conversation_selected_index;
                if is_down_key(key) {
                    exists|r: Seq<usize>|
                        #![trigger is_friend_filter(old(self).available_mutual_friends@, old(self).new_conversation_search_query@, r)]
                        is_friend_filter(
                            old(self).available_mutual_friends@,
                            old(self).new_conversation_search_query@,
                            r,
                        ) && *final(self) == (DMsState {
                            new_conversation_selected_index: (if r.len() == 0 {
                                i as int
                            } else if i + 1 < r.len() - 1 {
                                i + 1
                            } else {
                                r.len() - 1
                            }) as usize,
                            ..*old(self)
                        })
                } else if is_up_key(key) {
                    *final(self) == (DMsState {
                        new_conversation_selected_index: (if i > 0 {
                            i - 1
                        } else {
                            0
                        }) as usize,
                        ..*old(self)
                    })
                } else if key == KeyCode::Char('/') {
                    *final(self) == (DMsState { new_conversation_search_mode: true, ..*old(self) })
                } else {
                    *final(self) == *old(self)
                }
            },
    {
        if self.new_conversation_search_mode {
            match key {
                KeyCode::Char(c) => {
                    push_char(&mut self.new_conversation_search_query, c);
                    self.new_conversation_selected_index = 0;
                },
                KeyCode::Backspace => {
                    pop_char(&mut self.new_conversation_search_query);
                    self.new_conversation_selected_index = 0;
                },
                KeyCode::Esc => {
                    self.new_conversation_search_mode = false;
                },
                _ => {},
            }
            return false;
        }
        if down_key(key) {
            let filtered = self.get_filtered_mutual_friends();
            let n = filtered.len();
            if n > 0 {
                let i = self.new_conversation_selected_index;
                self.new_conversation_selected_index =
                    if i < n - 1 && i + 1 < n - 1 {
                        i + 1
                    } else {
                        n - 1
                    };
            }
            false
        } else if up_key(key) {
            self.new_conversation_selected_index = self.new_conversation_selected_index.saturating_sub(1);
            false
        } else {
            match key {
                KeyCode::Char(c) => {
                    if c == '/' {
                        self.new_conversation_search_mode = true;
                    }
                    false
                },
                KeyCode::Enter => true,
                _ => false,
            }
        }
    }

    /// Start a conversation with the highlighted friend: it becomes the
    /// pending draft, the modal closes, no messages are shown, and typing
    /// begins. Nothing happens when no friend passes the search.
    pub fn start_new_conversation(&mut self, input_mode: &mut InputMode)
        ensures
            exists|r: Seq<usize>|
                #![trigger is_friend_filter(old(self).available_mutual_friends@, old(self).new_conversation_search_query@, r)]
                is_friend_filter(
                    old(self).available_mutual_friends@,
                    old(self).new_conversation_search_query@,
                    r,
                ) && if r.len() == 0 {
                    *final(self) == *old(self) && *final(input_mode) == *old(input_mode)
                } else {
                    let k = if old(self).new_conversation_selected_index < r.len() - 1 {
                        old(self).new_conversation_selected_index as int
                    } else {
                        r.len() - 1
                    };
                    &&& final(self).pending_conversation_username matches Some(u) && u@
                        == old(self).available_mutual_friends@[r[k] as int].username@
                    &&& final(self).selection == DMSelection::PendingDraft
                    &&& final(self).messages@.len() == 0
                    &&& final(self).error is None
                    &&& !final(self).show_new_conversation_modal
                    &&& final(self).new_conversation_search_query@.len() == 0
                    &&& *final(input_mode) == InputMode::Typing
                    &&& final(self).new_conversation_username@.len() == 0
                    &&& *final(self) == (DMsState {
                        pending_conversation_username: final(self).pending_conversation_username,
                        selection: DMSelection::PendingDraft,
                        messages: final(self).messages,
                        error: None,
                        show_new_conversation_modal: false,
                        new_conversation_username: final(self).new_conversation_username,
                        new_conversation_selected_index: 0,
                        new_conversation_search_mode: false,
                        new_conversation_search_query: final(self).new_conversation_search_query,
                        ..*old(self)
                    })
                },
    {
        let filtered = self.get_filtered_mutual_friends();
        if filtered.len() == 0 {
            return;
        }
        let n = filtered.len();
        let k = if self.new_conversation_selected_index < n - 1 {
            self.new_conversation_selected_index
        } else {
            n - 1
        };
        let to = owned(self.available_mutual_friends[filtered[k]].username.as_str());
        self.error = None;
        self.pending_conversation_username = Some(to);
        self.close_new_conversation_modal(input_mode);
        self.messages.clear();
        self.selection = DMSelection::PendingDraft;
        *input_mode = InputMode::Typing;
    }

    /// Select what notification about user `actor_id` leads to: their
    /// pending request (with no conversation open), else their
    /// conversation (to be loaded). False when there is neither.
    pub fn select_for_actor(&mut self, actor_id: u128) -> (found: bool)
        ensures
            (exists|k: int| 0 <= k < old(self).pending_requests@.len() && #[trigger] old(self).pending_requests@[k].from_user_id == actor_id) ==> {
                &&& found
                &&& final(self).selection matches DMSelection::Request(k) && k < old(self).pending_requests@.len()
                    && old(self).pending_requests@[k as int].from_user_id == actor_id && forall|j: int|
                    0 <= j < k ==> #[trigger] old(self).pending_requests@[j].from_user_id != actor_id
                &&& final(self).messages@.len() == 0
                &&& *final(self) == (DMsState {
                    selection: final(self).selection,
                    messages: final(self).messages,
                    current_conversation_user: None,
                    ..*old(self)
                })
            },
            !(exists|k: int| 0 <= k < old(self).pending_requests@.len() && #[trigger] old(self).pending_requests@[k].from_user_id == actor_id) ==> {
                if has_conv(old(self).conversations@, actor_id) {
                    &&& found
                    &&& final(self).selection matches DMSelection::Conversation(k) && is_first_conv(
                        old(self).conversations@,
                        actor_id,
                        k as int,
                    )
                    &&& *final(self) == (DMsState {
                        selection: final(self).selection,
                        needs_message_load: true,
                        ..*old(self)
                    })
                } else {
                    !found && *final(self) == *old(self)
                }
            },
    {
        let mut k: usize = 0;
        while k < self.pending_requests.len()
            invariant
                0 <= k <= self.pending_requests@.len(),
                *self == *old(self),
                forall|j: int| 0 <= j < k ==> #[trigger] self.pending_requests@[j].from_user_id != actor_id,
            decreases self.pending_requests@.len() - k,
        {
            if self.pending_requests[k].from_user_id == actor_id {
                self.selection = DMSelection::Request(k);
                self.messages.clear();
                self.current_conversation_user = None;
                return true;
            }
            k = k + 1;
        }
        let mut c: usize = 0;
        while c < self.conversations.len()
            invariant
                0 <= c <= self.conversations@.len(),
                *self == *old(self),
                forall|j: int| 0 <= j < c ==> #[trigger] self.conversations@[j].other_user_id != actor_id,
                forall|j: int|
                    0 <= j < old(self).pending_requests@.len() ==> #[trigger] old(self).pending_requests@[j].from_user_id
                        != actor_id,
            decreases self.conversations@.len() - c,
        {
            if self.conversations[c].other_user_id == actor_id {
                self.selection = DMSelection::Conversation(c);
                self.needs_message_load = true;
                return true;
            }
            c = c + 1;
        }
        false
    }
}

impl DMsState {
    /// After a first message to the pending draft's user went out and the
    /// list was reloaded: the draft is gone and the new conversation (now on
    /// top) is selected, its messages to be loaded.
    pub fn select_sent_conversation(&mut self)
        ensures
            *final(self) == (if old(self).conversations@.len() > 0 {
                DMsState {
                    pending_conversation_username: None,
                    selection: DMSelection::Conversation(0),
                    needs_message_load: true,
                    ..*old(self)
                }
            } else {
                DMsState { pending_conversation_username: None, ..*old(self) }
            }),
    {
        self.pending_conversation_username = None;
        if self.conversations.len() > 0 {
            self.selection = DMSelection::Conversation(0);
            self.needs_message_load = true;
        }
    }

    /// After a message went out in the selected conversation: it has no
    /// unread messages.
    pub fn clear_selected_unread(&mut self)
        ensures
            *final(self) == (DMsState { unread_counts: final(self).unread_counts, ..*old(self) }),
            final(self).unread_counts@ == (match old(self).selection {
                DMSelection::Conversation(i) => if i < old(self).conversations@.len() {
                    old(self).unread_counts@.insert(old(self).conversations@[i as int].other_user_id, 0)
                } else {
                    old(self).unread_counts@
                },
                _ => old(self).unread_counts@,
            }),
    {
        match self.selection {
            DMSelection::Conversation(i) => {
                if i < self.conversations.len() {
                    let id = self.conversations[i].other_user_id;
                    self.unread_counts.insert(id, 0);
                }
            },
            _ => {},
        }
    }
}

/// `k` is the first conversation of `convs` with the user named `name`.
pub open spec fn is_first_named(convs: Seq<Conversation>, name: Seq<char>, k: int) -> bool {
    &&& 0 <= k < convs.len()
    &&& convs[k].other_username@ == name
    &&& forall|j: int| 0 <= j < k ==> #[trigger] convs[j].other_username@ != name
}

impl DMsState {
    /// Open a conversation with `username` (from their profile): their
    /// conversation when there is one, to be loaded; otherwise a new draft
    /// to them, with no messages shown.
    pub fn open_conversation_with(&mut self, username: String)
        ensures
            (exists|k: int| is_first_named(old(self).conversations@, username@, k)) ==> exists|k: int|
                #[trigger] is_first_named(old(self).conversations@, username@, k) && *final(self) == (
                DMsState {
                    selection: DMSelection::Conversation(k as usize),
                    needs_message_load: true,
                    ..*old(self)
                }),
            !(exists|k: int| is_first_named(old(self).conversations@, username@, k)) ==> (*final(self)
                == (DMsState {
                pending_conversation_username: Some(username),
                selection: DMSelection::PendingDraft,
                messages: final(self).messages,
                ..*old(self)
            }) && final(self).messages@.len() == 0),
    {
        let mut k: usize = 0;
        while k < self.conversations.len()
            invariant
                0 <= k <= self.conversations@.len(),
                *self == *old(self),
                forall|j: int| 0 <= j < k ==> #[trigger] self.conversations@[j].other_username@ != username@,
            decreases self.conversations@.len() - k,
        {
            if crate::text::str_eq(self.conversations[k].other_username.as_str(), username.as_str()) {
                proof {
                    assert(is_first_named(old(self).conversations@, username@, k as int));
                }
                self.selection = DMSelection::Conversation(k);
                self.needs_message_load = true;
                return;
            }
            k = k + 1;
        }
        proof {
            assert forall|j: int| !is_first_named(old(self).conversations@, username@, j) by {
                if 0 <= j < old(self).conversations@.len() {
                    assert(old(self).conversations@[j].other_username@ != username@);
                }
            }
        }
        self.pending_conversation_username = Some(username);
        self.selection = DMSelection::PendingDraft;
        self.messages.clear();
    }
}

impl DMsState {
    /// Start loading the conversation list: loading, no error shown.
    pub fn begin_load(&mut self)
        ensures
            *final(self) == (DMsState { loading: true, error: None, ..*old(self) }),
    {
        self.loading = true;
        self.error = None;
    }

    /// The incoming requests arrived (an empty list when they could not be
    /// loaded).
    pub fn apply_pending_requests(&mut self, requests: Vec<DmRequest>)
        ensures
            *final(self) == (DMsState { pending_requests: requests, ..*old(self) }),
    {
        self.pending_requests = requests;
    }

    /// A request for the DM tab failed with the (categorized) message
    /// `message`.
    pub fn apply_load_error(&mut self, message: String)
        ensures
            *final(self) == (DMsState { error: Some(message), loading: false, ..*old(self) }),
    {
        self.error = Some(message);
        self.loading = false;
    }

    /// The open conversation's messages arrived; they count as seen for
    /// the realtime connection.
    pub fn apply_loaded_messages(&mut self, messages: Vec<DirectMessage>, seen: &mut HashSet<u128>)
        ensures
            final(self).messages@ == messages@,
            final(seen)@ == old(seen)@.union(Set::new(|id: u128| has_message_id(messages@, id))),
            *final(self) == (DMsState { messages: final(self).messages, ..*old(self) }),
    {
        let mut k: usize = 0;
        while k < messages.len()
            invariant
                0 <= k <= messages@.len(),
                seen@ == old(seen)@.union(
                    Set::new(|id: u128| exists|j: int| 0 <= j < k && #[trigger] messages@[j].id == id),
                ),
            decreases messages@.len() - k,
        {
            seen.insert(messages[k].id);
            proof {
                assert(seen@ =~= old(seen)@.union(
                    Set::new(|id: u128| exists|j: int| 0 <= j < k + 1 && #[trigger] messages@[j].id == id),
                )) by {
                    assert forall|id: u128| #[trigger] seen@.contains(id) implies old(seen)@.union(
                        Set::new(|id: u128| exists|j: int| 0 <= j < k + 1 && #[trigger] messages@[j].id == id),
                    ).contains(id) by {
                        if id == messages@[k as int].id {
                            assert(messages@[k as int].id == id);
                        }
                    }
                }
            }
            k = k + 1;
        }
        proof {
            assert(seen@ =~= old(seen)@.union(Set::new(|id: u128| has_message_id(messages@, id))));
        }
        self.messages = messages;
    }

    /// The friends a new conversation can be started with arrived; when
    /// they could not be loaded (`None`) the list is emptied and the modal
    /// still opens.
    pub fn apply_mutual_friends(&mut self, friends: Option<Vec<UserInfo>>)
        ensures
            match friends {
                Some(f) => final(self).available_mutual_friends@ == f@,
                None => final(self).available_mutual_friends@.len() == 0,
            },
            *final(self) == (DMsState {
                available_mutual_friends: final(self).available_mutual_friends,
                ..*old(self)
            }),
    {
        match friends {
            Some(f) => {
                self.available_mutual_friends = f;
            },
            None => {
                self.available_mutual_friends.clear();
            },
        }
    }
}

/// On the DM tab while browsing: Down/`j` and Up/`k` move through the
/// list, `n`/`N` opens the new-conversation modal, `p`/`P` the selected
/// user's profile, and on a request `a`/`A` accepts and `x`/`X` declines.
/// While typing, Esc clears the box, Enter sends, and every other key
/// (letters such as `n`, `j` or `k` included) edits the box.
pub proof fn lemma_dm_keys(k: KeyCode, sel: DMSelection, n_conv: int, i: usize)
    ensures
        (k == KeyCode::Down || k == KeyCode::Char('j') || k == KeyCode::Char('J'))
            ==> spec_dm_command(k, InputMode::Navigation, sel, n_conv) == DmCommand::NavigateDown,
        (k == KeyCode::Up || k == KeyCode::Char('k') || k == KeyCode::Char('K'))
            ==> spec_dm_command(k, InputMode::Navigation, sel, n_conv) == DmCommand::NavigateUp,
        (k == KeyCode::Char('n') || k == KeyCode::Char('N')) ==> spec_dm_command(
            k,
            InputMode::Navigation,
            sel,
            n_conv,
        ) == DmCommand::OpenNewConversationModal,
        (k == KeyCode::Char('p') || k == KeyCode::Char('P')) ==> spec_dm_command(
            k,
            InputMode::Navigation,
            sel,
            n_conv,
        ) == DmCommand::ViewProfile,
        (k == KeyCode::Char('a') || k == KeyCode::Char('A')) ==> spec_dm_command(
            k,
            InputMode::Navigation,
            DMSelection::Request(i),
            n_conv,
        ) == DmCommand::AcceptRequest,
        (k == KeyCode::Char('x') || k == KeyCode::Char('X')) ==> spec_dm_command(
            k,
            InputMode::Navigation,
            DMSelection::Request(i),
            n_conv,
        ) == DmCommand::DeclineRequest,
        k == KeyCode::Esc ==> spec_dm_command(k, InputMode::Typing, sel, n_conv) == DmCommand::ClearDraft,
        k == KeyCode::Enter ==> spec_dm_command(k, InputMode::Typing, sel, n_conv) == DmCommand::Send,
        k != KeyCode::Esc && k != KeyCode::Enter ==> spec_dm_command(k, InputMode::Typing, sel, n_conv)
            == DmCommand::EditDraft,
{
}

} // verus!
