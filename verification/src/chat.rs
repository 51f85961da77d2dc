//! Community chat: channels, the message list and its selection, and
//! messages arriving from the server or the realtime connection.
use vstd::prelude::*;
use std::collections::HashSet;
use crate::text::{chars_of, string_from_chars, trim, trim_chars};

verus! {

broadcast use vstd::std_specs::hash::group_hash_axioms;

/// A chat channel of a community.
pub struct Channel {
    pub id: u128,
    pub name: String,
}

/// A message in a chat channel.
pub struct Message {
    pub id: u128,
    pub channel_id: u128,
    pub author_username: String,
    pub content: String,
    /// Sending time, in seconds since the epoch.
    pub created_at: i64,
}

impl Message {
    /// An equal copy of the message.
    pub fn copy(&self) -> (r: Self)
        ensures
            r == *self,
    {
        Message {
            id: self.id,
            channel_id: self.channel_id,
            author_username: self.author_username.clone(),
            content: self.content.clone(),
            created_at: self.created_at,
        }
    }
}

/// A chat message pushed by the server, with its community.
pub struct ChannelMessageEvent {
    pub community_id: u128,
    pub message: Message,
}

/// Chat state for the open community.
pub struct ChatState {
    pub channels: Vec<Channel>,
    pub selected_channel_index: usize,
    pub messages: Vec<Message>,
    /// Selected message row.
    pub selected: Option<usize>,
    pub loading: bool,
    pub loaded: bool,
    pub loading_older: bool,
    /// Set to load older messages once the top row is passed.
    pub pending_older_load: bool,
    /// No older messages exist.
    pub at_history_start: bool,
    pub error: Option<String>,
}

/// Some message of `msgs` has id `id`.
pub open spec fn has_message(msgs: Seq<Message>, id: u128) -> bool {
    exists|k: int| 0 <= k < msgs.len() && #[trigger] msgs[k].id == id
}

/// The last row of a list of `len` rows, if any.
pub open spec fn last_row(len: int) -> Option<usize> {
    if len == 0 {
        None
    } else {
        Some((len - 1) as usize)
    }
}

fn contains_message(msgs: &Vec<Message>, id: u128) -> (r: bool)
    ensures
        r == has_message(msgs@, id),
{
    let mut k: usize = 0;
    while k < msgs.len()
        invariant
            0 <= k <= msgs@.len(),
            forall|j: int| 0 <= j < k ==> #[trigger] msgs@[j].id != id,
        decreases msgs@.len() - k,
    {
        if msgs[k].id == id {
            return true;
        }
        k = k + 1;
    }
    false
}

/// Why a chat message cannot be sent.
#[derive(Debug, Clone, Copy, PartialEq, Eq, Structural)]
pub enum ChatSendError {
    NoChannel,
    EmptyMessage,
}

impl ChatSendError {
    /// The text shown for the error.
    pub fn message(self) -> (r: &'static str)
        ensures
            self is NoChannel ==> r@ == "No chat channel is available."@,
            self is EmptyMessage ==> r@ == "Cannot send an empty message."@,
    {
        match self {
            ChatSendError::NoChannel => "No chat channel is available.",
            ChatSendError::EmptyMessage => "Cannot send an empty message.",
        }
    }
}

/// One pushed chat message applied, with `seen` the ids seen before: a
/// seen message changes nothing; otherwise it is counted (saturating) and
/// remembered as the latest, and shown (newest selected) when its channel
/// is on screen and it is not listed yet.
pub open spec fn channel_step(
    c0: ChatState,
    seen: Set<u128>,
    count0: u64,
    last0: Option<ChannelMessageEvent>,
    payload: ChannelMessageEvent,
    visible: bool,
    community: Option<u128>,
    c1: ChatState,
    count1: u64,
    last1: Option<ChannelMessageEvent>,
) -> bool {
    if seen.contains(payload.message.id) {
        c1 == c0 && count1 == count0 && last1 == last0
    } else {
        let open = visible && community == Some(payload.community_id) && c0.selected_channel_index
            < c0.channels@.len() && c0.channels@[c0.selected_channel_index as int].id
            == payload.message.channel_id;
        &&& count1 == (if count0 < u64::MAX {
            (count0 + 1) as u64
        } else {
            u64::MAX
        })
        &&& last1 == Some(payload)
        &&& if open && !has_message(c0.messages@, payload.message.id) {
            c1 == (ChatState {
                messages: c1.messages,
                selected: last_row(c0.messages@.len() + 1int),
                ..c0
            }) && c1.messages@ == c0.messages@.push(payload.message)
        } else {
            c1 == c0
        }
    }
}

impl ChatState {
    /// No channels, no messages, nothing loaded.
    pub fn new() -> (s: Self)
        ensures
            s.channels@.len() == 0,
            s.selected_channel_index == 0,
            s.messages@.len() == 0,
            s.selected is None,
            !s.loading && !s.loaded && !s.loading_older && !s.pending_older_load,
            !s.at_history_start,
            s.error is None,
    {
        ChatState {
            channels: Vec::new(),
            selected_channel_index: 0,
            messages: Vec::new(),
            selected: None,
            loading: false,
            loaded: false,
            loading_older: false,
            pending_older_load: false,
            at_history_start: false,
            error: None,
        }
    }

    /// Forget the channels and messages of the community that was open.
    pub fn clear_chat(&mut self)
        ensures
            *final(self) == ({
                let s = ChatState::spec_cleared();
                ChatState { channels: final(self).channels, messages: final(self).messages, ..s }
            }),
            final(self).channels@.len() == 0,
            final(self).messages@.len() == 0,
    {
        self.channels.clear();
        self.selected_channel_index = 0;
        self.messages.clear();
        self.selected = None;
        self.loading = false;
        self.loaded = false;
        self.loading_older = false;
        self.pending_older_load = false;
        self.at_history_start = false;
        self.error = None;
    }

    pub open spec fn spec_cleared() -> ChatState {
        ChatState {
            channels: arbitrary(),
            selected_channel_index: 0,
            messages: arbitrary(),
            selected: None,
            loading: false,
            loaded: false,
            loading_older: false,
            pending_older_load: false,
            at_history_start: false,
            error: None,
        }
    }

    /// The id of the selected channel, if the index points at one.
    pub fn selected_chat_channel_id(&self) -> (r: Option<u128>)
        ensures
            r == (if self.selected_channel_index < self.channels@.len() {
                Some(self.channels@[self.selected_channel_index as int].id)
            } else {
                None
            }),
    {
        if self.selected_channel_index < self.channels.len() {
            Some(self.channels[self.selected_channel_index].id)
        } else {
            None
        }
    }

    /// Select the newest message, or nothing when there is none.
    pub fn select_last_chat_message(&mut self)
        ensures
            *final(self) == (ChatState {
                selected: last_row(old(self).messages@.len() as int),
                ..*old(self)
            }),
    {
        if self.messages.len() == 0 {
            self.selected = None;
        } else {
            self.selected = Some(self.messages.len() - 1);
        }
    }

    /// Move to the next message, staying on the newest; with no selection
    /// the newest is taken as the current one.
    pub fn next_chat_message(&mut self)
        ensures
            final(self).selected == (if old(self).messages@.len() == 0 {
                None
            } else {
                let len = old(self).messages@.len() as int;
                let cur = match old(self).selected {
                    Some(i) => i as int,
                    None => len - 1,
                };
                Some((if cur + 1 < len - 1 {
                    cur + 1
                } else {
                    len - 1
                }) as usize)
            }),
            *final(self) == (ChatState { selected: final(self).selected, ..*old(self) }),
    {
        let len = self.messages.len();
        if len == 0 {
            self.selected = None;
            return;
        }
        let current = match self.selected {
            Some(i) => i,
            None => len - 1,
        };
        if current < len - 1 && current + 1 < len - 1 {
            self.selected = Some(current + 1);
        } else {
            self.selected = Some(len - 1);
        }
    }

    /// Move to the previous message; from the top row, ask for older ones.
    pub fn previous_chat_message(&mut self)
        ensures
            old(self).messages@.len() == 0 ==> *final(self) == (ChatState {
                selected: None,
                ..*old(self)
            }),
            old(self).messages@.len() > 0 ==> {
                let len = old(self).messages@.len() as int;
                let cur = match old(self).selected {
                    Some(i) => i as int,
                    None => len - 1,
                };
                *final(self) == (ChatState {
                    selected: Some((if cur > 0 {
                        cur - 1
                    } else {
                        0
                    }) as usize),
                    pending_older_load: old(self).pending_older_load || cur == 0,
                    ..*old(self)
                })
            },
    {
        let len = self.messages.len();
        if len == 0 {
            self.selected = None;
            return;
        }
        let current = match self.selected {
            Some(i) => i,
            None => len - 1,
        };
        if current == 0 {
            self.pending_older_load = true;
        }
        self.selected = Some(current.saturating_sub(1));
    }

    /// Add a message this user sent, unless it is listed already; either
    /// way its id is marked seen.
    pub fn apply_chat_message(&mut self, message: Message, seen: &mut HashSet<u128>)
        ensures
            final(seen)@ == old(seen)@.insert(message.id),
            has_message(old(self).messages@, message.id) ==> *final(self) == *old(self),
            !has_message(old(self).messages@, message.id) ==> *final(self) == (ChatState {
                messages: final(self).messages,
                selected: last_row(old(self).messages@.len() + 1int),
                ..*old(self)
            }) && final(self).messages@ == old(self).messages@.push(message),
    {
        if contains_message(&self.messages, message.id) {
            seen.insert(message.id);
            return;
        }
        seen.insert(message.id);
        self.messages.push(message);
        self.select_last_chat_message();
    }

    /// Take in a chat message pushed by the server: count it once, remember
    /// it as the latest, and show it if its channel is the one on screen.
    /// `chat_visible` says whether the chat tab is on screen, and
    /// `community_id` which community is open.
    pub fn apply_realtime_channel_message(
        &mut self,
        payload: ChannelMessageEvent,
        seen: &mut HashSet<u128>,
        count: &mut u64,
        last: &mut Option<ChannelMessageEvent>,
        chat_visible: bool,
        community_id: Option<u128>,
    )
        ensures
            final(seen)@ == old(seen)@.insert(payload.message.id),
            channel_step(
                *old(self),
                old(seen)@,
                *old(count),
                *old(last),
                payload,
                chat_visible,
                community_id,
                *final(self),
                *final(count),
                *final(last),
            ),
    {
        let message_id = payload.message.id;
        if !seen.insert(message_id) {
            return;
        }
        *count = count.saturating_add(1);
        let shown = payload.message.copy();
        let community = payload.community_id;
        *last = Some(payload);
        let channel_open = match self.selected_chat_channel_id() {
            Some(c) => c == shown.channel_id,
            None => false,
        };
        let community_open = match community_id {
            Some(c) => c == community,
            None => false,
        };
        if !(chat_visible && community_open && channel_open) {
            return;
        }
        if contains_message(&self.messages, message_id) {
            return;
        }
        self.messages.push(shown);
        self.select_last_chat_message();
    }

    /// The channel and trimmed text to send for `content`, or why nothing
    /// can be sent.
    pub fn channel_message_to_send(&self, content: &str) -> (r: Result<(u128, String), ChatSendError>)
        ensures
            !(self.selected_channel_index < self.channels@.len()) ==> r == Err::<(u128, String), ChatSendError>(ChatSendError::NoChannel),
            self.selected_channel_index < self.channels@.len() ==> {
                if trim(content@).len() == 0 {
                    r == Err::<(u128, String), ChatSendError>(ChatSendError::EmptyMessage)
                } else {
                    r matches Ok((c, t)) && c == self.channels@[self.selected_channel_index as int].id
                        && t@ == trim(content@)
                }
            },
    {
        let channel_id = match self.selected_chat_channel_id() {
            Some(c) => c,
            None => {
                return Err(ChatSendError::NoChannel);
            },
        };
        let cs = chars_of(content);
        let t = trim_chars(cs.as_slice());
        if t.len() == 0 {
            return Err(ChatSendError::EmptyMessage);
        }
        Ok((channel_id, string_from_chars(t.as_slice())))
    }

    /// Replace the messages with a freshly loaded page, mark them seen, and
    /// select the newest.
    pub fn apply_loaded_messages(&mut self, messages: Vec<Message>, seen: &mut HashSet<u128>)
        ensures
            final(self).messages@ == messages@,
            final(self).selected == last_row(messages@.len() as int),
            final(seen)@ == old(seen)@.union(Set::new(|id: u128| has_message(messages@, id))),
            *final(self) == (ChatState {
                messages: final(self).messages,
                selected: final(self).selected,
                ..*old(self)
            }),
    {
        let mut k: usize = 0;
        while k < messages.len()
            invariant
                0 <= k <= messages@.len(),
                seen@ == old(seen)@.union(
                    Set::new(|id: u128| exists|j: int| 0 <= j < k && #[trigger] messages@[j].id == id),
                ),
            decreases messages@.len() - k,
        {
            let ghost before = seen@;
            seen.insert(messages[k].id);
            proof {
                assert(seen@ =~= old(seen)@.union(
                    Set::new(|id: u128| exists|j: int| 0 <= j < k + 1 && #[trigger] messages@[j].id == id),
                )) by {
                    assert forall|id: u128| #[trigger] seen@.contains(id) implies old(seen)@.union(
                        Set::new(|id: u128| exists|j: int| 0 <= j < k + 1 && #[trigger] messages@[j].id == id),
                    ).contains(id) by {
                        if id == messages@[k as int].id {
                            assert(messages@[k as int].id == id);
                        }
                    }
                }
            }
            k = k + 1;
        }
        proof {
            assert(seen@ =~= old(seen)@.union(Set::new(|id: u128| has_message(messages@, id))));
        }
        self.messages = messages;
        self.select_last_chat_message();
    }

    /// Where older messages would be loaded from: the selected channel and
    /// the oldest message shown. None while a load runs, at the start of
    /// the history, or with no channel or no message.
    pub fn older_messages_anchor(&self) -> (r: Option<(u128, u128)>)
        ensures
            r == (if self.loading_older || self.at_history_start || !(self.selected_channel_index
                < self.channels@.len()) || self.messages@.len() == 0 {
                None
            } else {
                Some(
                    (self.channels@[self.selected_channel_index as int].id, self.messages@[0].id),
                )
            }),
    {
        if self.loading_older || self.at_history_start {
            return None;
        }
        let channel_id = match self.selected_chat_channel_id() {
            Some(c) => c,
            None => {
                return None;
            },
        };
        if self.messages.len() == 0 {
            return None;
        }
        Some((channel_id, self.messages[0].id))
    }

    /// Put a page of older messages above the shown ones and select the
    /// first; an empty page means the start of the history was reached.
    pub fn apply_older_messages(&mut self, older: Vec<Message>)
        ensures
            older@.len() == 0 ==> *final(self) == (ChatState {
                at_history_start: true,
                ..*old(self)
            }),
            older@.len() > 0 ==> *final(self) == (ChatState {
                messages: final(self).messages,
                selected: Some(0usize),
                ..*old(self)
            }) && final(self).messages@ == older@ + old(self).messages@,
    {
        if older.len() == 0 {
            self.at_history_start = true;
        } else {
            let mut older = older;
            older.append(&mut self.messages);
            self.messages = older;
            self.selected = Some(0);
        }
    }
}

impl ChatState {
    /// Start loading the chat of the open community `community`: without
    /// one, the error says to open one first and nothing is loaded.
    /// Returns the community to ask for.
    pub fn begin_load(&mut self, community: Option<u128>) -> (r: Option<u128>)
        ensures
            r == community,
            community is None ==> (final(self).error matches Some(m) && m@
                == "Open a community before using chat."@) && *final(self)
                == (ChatState { error: final(self).error, ..*old(self) }),
            community is Some ==> *final(self) == (ChatState { loading: true, error: None, ..*old(self) }),
    {
        match community {
            None => {
                self.error = Some(crate::text::owned("Open a community before using chat."));
                None
            },
            Some(id) => {
                self.loading = true;
                self.error = None;
                Some(id)
            },
        }
    }

    /// The community's channels arrived: the first is selected and its
    /// history is loaded from the newest page again.
    pub fn apply_channels(&mut self, channels: Vec<Channel>)
        ensures
            *final(self) == (ChatState {
                channels: channels,
                selected_channel_index: 0,
                loaded: true,
                at_history_start: false,
                ..*old(self)
            }),
    {
        self.channels = channels;
        self.selected_channel_index = 0;
        self.loaded = true;
        self.at_history_start = false;
    }

    /// No channel is selected: no messages are shown.
    pub fn clear_messages(&mut self)
        ensures
            final(self).messages@.len() == 0,
            *final(self) == (ChatState { messages: final(self).messages, selected: None, ..*old(self) }),
    {
        self.messages.clear();
        self.selected = None;
    }

    /// A chat request failed with the (categorized) message `message`.
    pub fn apply_error(&mut self, message: String)
        ensures
            *final(self) == (ChatState { error: Some(message), ..*old(self) }),
    {
        self.error = Some(message);
    }

    /// Loading the chat ended.
    pub fn end_load(&mut self)
        ensures
            *final(self) == (ChatState { loading: false, ..*old(self) }),
    {
        self.loading = false;
    }

    /// A page of older messages is being loaded, or no longer.
    pub fn set_loading_older(&mut self, loading: bool)
        ensures
            *final(self) == (ChatState { loading_older: loading, ..*old(self) }),
    {
        self.loading_older = loading;
    }

    /// The message was sent: it is shown as a pushed one would be, and the
    /// error is cleared.
    pub fn apply_sent(&mut self, message: Message, seen: &mut HashSet<u128>)
        ensures
            final(seen)@ == old(seen)@.insert(message.id),
            has_message(old(self).messages@, message.id) ==> *final(self) == (ChatState {
                error: None,
                ..*old(self)
            }),
            !has_message(old(self).messages@, message.id) ==> *final(self) == (ChatState {
                messages: final(self).messages,
                selected: last_row(old(self).messages@.len() + 1int),
                error: None,
                ..*old(self)
            }) && final(self).messages@ == old(self).messages@.push(message),
    {
        self.apply_chat_message(message, seen);
        self.error = None;
    }
}

} // verus!
