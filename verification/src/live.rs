//! Bookkeeping of the realtime connection: its status, the ids of pushed
//! events already applied, and the unread-notification counters.
use vstd::prelude::*;
use std::collections::HashSet;
use crate::realtime::{RealtimeConnectionStatus, RealtimeStatusUpdate};
use crate::chat::{channel_step, ChannelMessageEvent, ChatState};
use crate::dms::{dm_step, request_listed, DMsState, DirectMessage, DmConversationState};
use crate::feed::{thread_step, PostsState};
use crate::post::Post;
use crate::state::{Tab, UserConfig};

verus! {

broadcast use vstd::std_specs::hash::group_hash_axioms;

/// A notification about activity on a community or a conversation.
pub struct Notification {
    pub id: u128,
    /// The user whose action raised it.
    pub actor_id: u128,
    /// `"community"` or `"dm_conversation"`.
    pub subject_type: String,
    pub subject_id: String,
    pub read: bool,
}

/// Unread notifications about one subject.
pub struct NotificationUnreadCount {
    pub subject_type: String,
    pub subject_id: String,
    pub count: i64,
}

/// Realtime transport state and the ids of pushed events already applied.
pub struct RealtimeState {
    pub status: RealtimeConnectionStatus,
    pub last_error: Option<String>,
    pub unread_notifications: Vec<NotificationUnreadCount>,
    pub last_channel_message: Option<ChannelMessageEvent>,
    pub channel_message_count: u64,
    pub seen_posts: HashSet<u128>,
    pub seen_dm_messages: HashSet<u128>,
    pub seen_notifications: HashSet<u128>,
    pub seen_channel_messages: HashSet<u128>,
}

/// The counter `c` is about the subject of notification `n`.
pub open spec fn same_subject(c: NotificationUnreadCount, n: Notification) -> bool {
    c.subject_type@ == n.subject_type@ && c.subject_id@ == n.subject_id@
}

/// `k` is the first counter of `cs` about the subject of `n`.
pub open spec fn is_first_subject(cs: Seq<NotificationUnreadCount>, n: Notification, k: int) -> bool {
    &&& 0 <= k < cs.len()
    &&& same_subject(cs[k], n)
    &&& forall|j: int| 0 <= j < k ==> !same_subject(#[trigger] cs[j], n)
}

/// The sum of all unread counters.
pub open spec fn total_unread(cs: Seq<NotificationUnreadCount>) -> int
    decreases cs.len(),
{
    if cs.len() == 0 {
        0
    } else {
        total_unread(cs.drop_last()) + cs.last().count
    }
}

/// The counter `c` with one more unread notification.
pub open spec fn bumped(c: NotificationUnreadCount) -> NotificationUnreadCount {
    NotificationUnreadCount { count: (c.count + 1) as i64, ..c }
}

/// The counters after notification `n` arrived unread and unseen: the first
/// counter about its subject goes up by one, or a counter of one is added.
pub open spec fn counted(cs: Seq<NotificationUnreadCount>, n: Notification, cs1: Seq<NotificationUnreadCount>) -> bool {
    if exists|k: int| is_first_subject(cs, n, k) {
        exists|k: int| #[trigger] is_first_subject(cs, n, k) && cs1 == cs.update(k, bumped(cs[k]))
    } else {
        &&& cs1.len() == cs.len() + 1
        &&& cs1.drop_last() == cs
        &&& cs1.last().subject_type@ == n.subject_type@
        &&& cs1.last().subject_id@ == n.subject_id@
        &&& cs1.last().count == 1
    }
}

/// One pushed notification applied to the counters `cs`, with `seen` the
/// notification ids seen before: one that is read or seen changes nothing.
pub open spec fn notification_step(
    cs: Seq<NotificationUnreadCount>,
    seen: Set<u128>,
    n: Notification,
    cs1: Seq<NotificationUnreadCount>,
) -> bool {
    if n.read || seen.contains(n.id) {
        cs1 == cs
    } else {
        counted(cs, n, cs1)
    }
}

proof fn lemma_total_update(cs: Seq<NotificationUnreadCount>, k: int, c: NotificationUnreadCount)
    requires
        0 <= k < cs.len(),
    ensures
        total_unread(cs.update(k, c)) == total_unread(cs) - cs[k].count + c.count,
    decreases cs.len(),
{
    if k == cs.len() - 1 {
        assert(cs.update(k, c).drop_last() =~= cs.drop_last());
    } else {
        lemma_total_update(cs.drop_last(), k, c);
        assert(cs.update(k, c).drop_last() =~= cs.drop_last().update(k, c));
    }
}

fn find_subject(cs: &Vec<NotificationUnreadCount>, n: &Notification) -> (r: Option<usize>)
    ensures
        match r {
            Some(k) => is_first_subject(cs@, *n, k as int),
            None => !exists|k: int| is_first_subject(cs@, *n, k),
        },
{
    let mut k: usize = 0;
    while k < cs.len()
        invariant
            0 <= k <= cs@.len(),
            forall|j: int| 0 <= j < k ==> !same_subject(#[trigger] cs@[j], *n),
        decreases cs@.len() - k,
    {
        if cs[k].subject_type == n.subject_type && cs[k].subject_id == n.subject_id {
            return Some(k);
        }
        k = k + 1;
    }
    None
}

impl RealtimeState {
    /// Disconnected, nothing seen, nothing unread.
    pub fn new() -> (s: Self)
        ensures
            s.status == RealtimeConnectionStatus::Disabled,
            s.last_error is None,
            s.unread_notifications@.len() == 0,
            s.last_channel_message is None,
            s.channel_message_count == 0,
            s.seen_posts@ == Set::<u128>::empty(),
            s.seen_dm_messages@ == Set::<u128>::empty(),
            s.seen_notifications@ == Set::<u128>::empty(),
            s.seen_channel_messages@ == Set::<u128>::empty(),
    {
        RealtimeState {
            status: RealtimeConnectionStatus::Disabled,
            last_error: None,
            unread_notifications: Vec::new(),
            last_channel_message: None,
            channel_message_count: 0,
            seen_posts: HashSet::new(),
            seen_dm_messages: HashSet::new(),
            seen_notifications: HashSet::new(),
            seen_channel_messages: HashSet::new(),
        }
    }

    /// Visible data is being refreshed by polling while the socket is down.
    pub fn is_polling_fallback_active(&self) -> (r: bool)
        ensures
            r == (self.status is Connecting || self.status is Reconnecting),
    {
        self.status.uses_polling_fallback()
    }

    /// Record a status change and its explanation.
    pub fn apply_realtime_status(&mut self, update: RealtimeStatusUpdate)
        ensures
            *final(self) == (RealtimeState {
                status: update.status,
                last_error: update.message,
                ..*old(self)
            }),
    {
        self.status = update.status;
        self.last_error = update.message;
    }

    /// The unread counters were fetched again: `Ok` replaces them, an
    /// error is kept as the last error.
    pub fn apply_unread_counts(&mut self, counts: Result<Vec<NotificationUnreadCount>, String>)
        ensures
            match counts {
                Ok(c) => *final(self) == (RealtimeState { unread_notifications: c, ..*old(self) }),
                Err(e) => *final(self) == (RealtimeState { last_error: Some(e), ..*old(self) }),
            },
    {
        match counts {
            Ok(c) => {
                self.unread_notifications = c;
            },
            Err(e) => {
                self.last_error = Some(e);
            },
        }
    }

    /// Every notification was marked read: no counter is left.
    pub fn clear_unread_counts(&mut self)
        ensures
            final(self).unread_notifications@.len() == 0,
            *final(self) == (RealtimeState { unread_notifications: final(self).unread_notifications, ..*old(self) }),
    {
        self.unread_notifications.clear();
    }

    /// The number of unread notifications over all subjects.
    pub fn total_unread_notifications(&self) -> (r: i64)
        requires
            forall|k: int|
                0 <= k <= self.unread_notifications@.len() ==> i64::MIN <= #[trigger] total_unread(
                    self.unread_notifications@.subrange(0, k),
                ) <= i64::MAX,
        ensures
            r == total_unread(self.unread_notifications@),
    {
        let mut sum: i64 = 0;
        let mut k: usize = 0;
        while k < self.unread_notifications.len()
            invariant
                0 <= k <= self.unread_notifications@.len(),
                sum == total_unread(self.unread_notifications@.subrange(0, k as int)),
                forall|j: int|
                    0 <= j <= self.unread_notifications@.len() ==> i64::MIN <= #[trigger] total_unread(
                        self.unread_notifications@.subrange(0, j),
                    ) <= i64::MAX,
            decreases self.unread_notifications@.len() - k,
        {
            proof {
                let s = self.unread_notifications@;
                assert(s.subrange(0, k + 1).drop_last() =~= s.subrange(0, k as int));
                assert(total_unread(s.subrange(0, k + 1)) <= i64::MAX);
            }
            sum = sum + self.unread_notifications[k].count;
            k = k + 1;
        }
        proof {
            assert(self.unread_notifications@.subrange(0, k as int) =~= self.unread_notifications@);
        }
        sum
    }

    /// Count a notification pushed by the server, once, unless it is read.
    pub fn apply_realtime_notification(&mut self, notification: Notification)
        requires
            forall|k: int|
                is_first_subject(old(self).unread_notifications@, notification, k)
                    ==> #[trigger] old(self).unread_notifications@[k].count < i64::MAX,
        ensures
            final(self).seen_notifications@ == (if notification.read {
                old(self).seen_notifications@
            } else {
                old(self).seen_notifications@.insert(notification.id)
            }),
            notification_step(
                old(self).unread_notifications@,
                old(self).seen_notifications@,
                notification,
                final(self).unread_notifications@,
            ),
            *final(self) == (RealtimeState {
                seen_notifications: final(self).seen_notifications,
                unread_notifications: final(self).unread_notifications,
                ..*old(self)
            }),
    {
        if notification.read {
            return;
        }
        if !self.seen_notifications.insert(notification.id) {
            return;
        }
        match find_subject(&self.unread_notifications, &notification) {
            Some(k) => {
                let ghost before = self.unread_notifications@;
                self.unread_notifications[k].count = self.unread_notifications[k].count + 1;
                proof {
                    assert(before.update(k as int, bumped(before[k as int])) =~= self.unread_notifications@);
                }
            },
            None => {
                let ghost before = self.unread_notifications@;
                self.unread_notifications.push(
                    NotificationUnreadCount {
                        subject_type: notification.subject_type,
                        subject_id: notification.subject_id,
                        count: 1,
                    },
                );
                proof {
                    assert(self.unread_notifications@.drop_last() =~= before);
                }
            },
        }
    }
}

/// A notification taken in adds exactly one to the unread total.
pub proof fn lemma_notification_adds_one(
    cs: Seq<NotificationUnreadCount>,
    seen: Set<u128>,
    n: Notification,
    cs1: Seq<NotificationUnreadCount>,
)
    requires
        notification_step(cs, seen, n, cs1),
        !n.read,
        !seen.contains(n.id),
        forall|k: int| is_first_subject(cs, n, k) ==> #[trigger] cs[k].count < i64::MAX,
    ensures
        total_unread(cs1) == total_unread(cs) + 1,
{
    if exists|k: int| is_first_subject(cs, n, k) {
        let k = choose|k: int| #[trigger] is_first_subject(cs, n, k) && cs1 == cs.update(k, bumped(cs[k]));
        lemma_total_update(cs, k, bumped(cs[k]));
    }
}

/// A notification pushed twice is counted once.
pub proof fn lemma_notification_idempotent(
    cs0: Seq<NotificationUnreadCount>,
    seen0: Set<u128>,
    n: Notification,
    cs1: Seq<NotificationUnreadCount>,
    cs2: Seq<NotificationUnreadCount>,
)
    requires
        notification_step(cs0, seen0, n, cs1),
        notification_step(cs1, if n.read { seen0 } else { seen0.insert(n.id) }, n, cs2),
    ensures
        cs2 == cs1,
{
    assert(!n.read ==> seen0.insert(n.id).contains(n.id));
}

/// The notifications overlay.
pub struct NotificationsState {
    pub show: bool,
    pub notifications: Vec<Notification>,
    pub selected_index: usize,
    pub loading: bool,
    pub error: Option<String>,
    pub loaded: bool,
}

/// Where opening a notification leads.
pub enum NotificationTarget {
    /// The community with this id text.
    Community(String),
    /// The conversation with this user.
    Conversation(u128),
    /// A subject this client does not know; the text explains.
    Unknown(String),
}

/// Every notification of `a` is read, and `a` is otherwise `b`.
pub open spec fn all_read(a: Seq<Notification>, b: Seq<Notification>) -> bool {
    &&& a.len() == b.len()
    &&& forall|k: int| 0 <= k < a.len() ==> #[trigger] a[k] == (Notification { read: true, ..b[k] })
}

impl NotificationsState {
    /// A hidden, empty overlay.
    pub fn new() -> (s: Self)
        ensures
            !s.show,
            s.notifications@.len() == 0,
            s.selected_index == 0,
            !s.loading,
            s.error is None,
            !s.loaded,
    {
        NotificationsState {
            show: false,
            notifications: Vec::new(),
            selected_index: 0,
            loading: false,
            error: None,
            loaded: false,
        }
    }

    /// Hide the overlay and drop its error.
    pub fn close_notifications_panel(&mut self)
        ensures
            *final(self) == (NotificationsState { show: false, error: None, ..*old(self) }),
    {
        self.show = false;
        self.error = None;
    }

    /// Show a freshly loaded list, keeping the highlight on a row that exists.
    pub fn apply_loaded_notifications(&mut self, notifications: Vec<Notification>)
        ensures
            final(self).notifications@ == notifications@,
            final(self).selected_index == (if notifications@.len() == 0 {
                0
            } else if old(self).selected_index < notifications@.len() - 1 {
                old(self).selected_index as int
            } else {
                notifications@.len() - 1
            }),
            *final(self) == (NotificationsState {
                notifications: notifications,
                selected_index: final(self).selected_index,
                loaded: true,
                ..*old(self)
            }),
    {
        self.notifications = notifications;
        let n = self.notifications.len();
        if n == 0 {
            self.selected_index = 0;
        } else if self.selected_index >= n - 1 {
            self.selected_index = n - 1;
        }
        self.loaded = true;
    }

    /// Highlight the next notification, staying on the last.
    pub fn select_next_notification(&mut self)
        ensures
            final(self).selected_index == (if old(self).notifications@.len() == 0 {
                old(self).selected_index as int
            } else if old(self).selected_index + 1 < old(self).notifications@.len() - 1 {
                old(self).selected_index + 1
            } else {
                old(self).notifications@.len() - 1
            }),
            *final(self) == (NotificationsState { selected_index: final(self).selected_index, ..*old(self) }),
    {
        let n = self.notifications.len();
        if n > 0 {
            if self.selected_index < n - 1 && self.selected_index + 1 < n - 1 {
                self.selected_index = self.selected_index + 1;
            } else {
                self.selected_index = n - 1;
            }
        }
    }

    /// Highlight the previous notification, staying on the first.
    pub fn select_previous_notification(&mut self)
        ensures
            final(self).selected_index == (if old(self).selected_index > 0 {
                old(self).selected_index - 1
            } else {
                0
            }),
            *final(self) == (NotificationsState { selected_index: final(self).selected_index, ..*old(self) }),
    {
        self.selected_index = self.selected_index.saturating_sub(1);
    }

    /// Mark every listed notification read.
    pub fn mark_all_read(&mut self)
        ensures
            all_read(final(self).notifications@, old(self).notifications@),
            *final(self) == (NotificationsState { notifications: final(self).notifications, ..*old(self) }),
    {
        let mut k: usize = 0;
        let ghost before = self.notifications@;
        while k < self.notifications.len()
            invariant
                0 <= k <= self.notifications@.len(),
                self.notifications@.len() == before.len(),
                before == old(self).notifications@,
                *self == (NotificationsState { notifications: self.notifications, ..*old(self) }),
                forall|j: int| 0 <= j < k ==> #[trigger] self.notifications@[j] == (Notification { read: true, ..before[j] }),
                forall|j: int| k <= j < before.len() ==> #[trigger] self.notifications@[j] == before[j],
            decreases before.len() - k,
        {
            self.notifications[k].read = true;
            k = k + 1;
        }
    }

    /// Mark the first listed notification with id `id` read.
    pub fn mark_read(&mut self, id: u128)
        ensures
            final(self).notifications@.len() == old(self).notifications@.len(),
            forall|k: int|
                0 <= k < old(self).notifications@.len() ==> #[trigger] final(self).notifications@[k]
                    == (if old(self).notifications@[k].id == id && forall|j: int|
                    0 <= j < k ==> old(self).notifications@[j].id != id {
                    Notification { read: true, ..old(self).notifications@[k] }
                } else {
                    old(self).notifications@[k]
                }),
            *final(self) == (NotificationsState { notifications: final(self).notifications, ..*old(self) }),
    {
        let mut k: usize = 0;
        while k < self.notifications.len()
            invariant
                0 <= k <= self.notifications@.len(),
                *self == *old(self),
                forall|j: int| 0 <= j < k ==> #[trigger] self.notifications@[j].id != id,
            decreases self.notifications@.len() - k,
        {
            if self.notifications[k].id == id {
                self.notifications[k].read = true;
                return;
            }
            k = k + 1;
        }
    }
}

/// `t` is where opening notification `n` leads.
pub open spec fn is_target_of(t: NotificationTarget, n: Notification) -> bool {
    &&& n.subject_type@ == "community"@ ==> (t matches NotificationTarget::Community(id) && id@
        == n.subject_id@)
    &&& n.subject_type@ == "dm_conversation"@ ==> t == NotificationTarget::Conversation(n.actor_id)
    &&& n.subject_type@ != "community"@ && n.subject_type@ != "dm_conversation"@ ==> (
    t matches NotificationTarget::Unknown(m) && m@ == "Unknown notification source: "@
        + n.subject_type@)
}

/// What `uuid::Uuid::parse_str` makes of a text: the id, read as
/// `Uuid::as_u128` reads it, or the text of the parse error.
pub uninterp spec fn uuid_parse(s: Seq<char>) -> Result<u128, Seq<char>>;

/// `uuid::Uuid::parse_str` on `s`: the parsed id as `as_u128` gives it, or
/// the error's text. The accepted forms (hyphenated, simple, braced, URN)
/// and the error texts are left to the name `uuid_parse`.
#[verifier::external_body]
fn parse_uuid(s: &str) -> (r: Result<u128, String>)
    ensures
        match r {
            Ok(v) => uuid_parse(s@) == Ok::<u128, Seq<char>>(v),
            Err(e) => uuid_parse(s@) == Err::<u128, Seq<char>>(e@),
        },
{
    match uuid::Uuid::parse_str(s) {
        Ok(u) => Ok(u.as_u128()),
        Err(e) => Err(e.to_string()),
    }
}

/// The community id of a community notification from the parse of its
/// subject id: an id that does not parse is reported with the parser's
/// error.
pub fn community_id_from_parse(parsed: Result<u128, String>) -> (r: Result<u128, String>)
    ensures
        match parsed {
            Ok(v) => r == Ok::<u128, String>(v),
            Err(e) => r matches Err(m) && m@ == "Invalid notification community id: "@ + e@,
        },
{
    match parsed {
        Ok(v) => Ok(v),
        Err(e) => Err(crate::text::join_strs("Invalid notification community id: ", e.as_str())),
    }
}

/// The community a community notification with subject id `subject_id`
/// leads to.
pub fn notification_community_id(subject_id: &str) -> (r: Result<u128, String>)
    ensures
        match uuid_parse(subject_id@) {
            Ok(v) => r == Ok::<u128, String>(v),
            Err(e) => r matches Err(m) && m@ == "Invalid notification community id: "@ + e,
        },
{
    community_id_from_parse(parse_uuid(subject_id))
}

impl NotificationsState {
    /// Start loading the list: loading, no error shown.
    pub fn begin_load(&mut self)
        ensures
            *final(self) == (NotificationsState { loading: true, error: None, ..*old(self) }),
    {
        self.loading = true;
        self.error = None;
    }

    /// Loading ended: `Ok` shows the list as `apply_loaded_notifications`
    /// does, an error is shown as the (categorized) `message`.
    pub fn finish_load(&mut self, result: Result<Vec<Notification>, String>)
        ensures
            match result {
                Ok(ns) => {
                    &&& final(self).notifications@ == ns@
                    &&& final(self).selected_index == (if ns@.len() == 0 {
                        0
                    } else if old(self).selected_index < ns@.len() - 1 {
                        old(self).selected_index as int
                    } else {
                        ns@.len() - 1
                    })
                    &&& *final(self) == (NotificationsState {
                        notifications: ns,
                        selected_index: final(self).selected_index,
                        loaded: true,
                        loading: false,
                        ..*old(self)
                    })
                },
                Err(m) => *final(self) == (NotificationsState { error: Some(m), loading: false, ..*old(self) }),
            },
    {
        match result {
            Ok(ns) => self.apply_loaded_notifications(ns),
            Err(m) => {
                self.error = Some(m);
            },
        }
        self.loading = false;
    }

    /// The highlighted notification's id and where opening it leads.
    pub fn selected_target(&self) -> (r: Option<(u128, NotificationTarget)>)
        ensures
            self.selected_index < self.notifications@.len() ==> (r matches Some((id, t)) && id
                == self.notifications@[self.selected_index as int].id && is_target_of(
                t,
                self.notifications@[self.selected_index as int],
            )),
            self.selected_index >= self.notifications@.len() ==> r is None,
    {
        if self.selected_index < self.notifications.len() {
            let n = &self.notifications[self.selected_index];
            Some((n.id, notification_target(n)))
        } else {
            None
        }
    }
}

/// Where opening notification `n` leads: communities by id text, DM
/// conversations by the acting user, and for any other subject an error
/// naming it.
pub fn notification_target(n: &Notification) -> (r: NotificationTarget)
    ensures
        is_target_of(r, *n),
{
    proof {
        reveal_strlit("community");
        reveal_strlit("dm_conversation");
        assert("community"@.len() != "dm_conversation"@.len());
    }
    if crate::text::str_eq(n.subject_type.as_str(), "community") {
        NotificationTarget::Community(crate::text::owned(n.subject_id.as_str()))
    } else if crate::text::str_eq(n.subject_type.as_str(), "dm_conversation") {
        NotificationTarget::Conversation(n.actor_id)
    } else {
        let a = crate::text::chars_of("Unknown notification source: ");
        let b = crate::text::chars_of(n.subject_type.as_str());
        let m = crate::text::concat(a.as_slice(), b.as_slice());
        NotificationTarget::Unknown(crate::text::string_from_chars(m.as_slice()))
    }
}

/// An event pushed by the server.
pub enum Event {
    MessageCreated(ChannelMessageEvent),
    ThreadCreated(Post),
    ThreadPendingApproval(Post),
    DmRequestCreated { message: DirectMessage, state: DmConversationState },
    DmMessageCreated(DirectMessage),
    NotificationCreated(Notification),
}

/// What applying a pushed event needs to know of the interface.
#[derive(Debug, Clone, Copy, PartialEq, Eq, Structural)]
pub struct LiveContext {
    /// The signed-in user.
    pub current_user: Option<u128>,
    /// The main screen is shown.
    pub on_main: bool,
    pub tab: Tab,
    /// The open community.
    pub community_id: Option<u128>,
    pub config: Option<UserConfig>,
}

/// Apply a pushed event to the state it concerns: chat messages to the
/// chat, threads to the feed (a thread waiting for approval is only marked
/// seen), DM requests and messages to the DM list, notifications to the
/// unread counters.
pub fn apply_realtime_envelope(
    event: Event,
    ctx: &LiveContext,
    posts: &mut PostsState,
    dms: &mut DMsState,
    chat: &mut ChatState,
    rt: &mut RealtimeState,
)
    requires
        event matches Event::NotificationCreated(n) ==> forall|k: int|
            is_first_subject(old(rt).unread_notifications@, n, k)
                ==> #[trigger] old(rt).unread_notifications@[k].count < i64::MAX,
    ensures
        match event {
            Event::MessageCreated(p) => {
                &&& final(rt).seen_channel_messages@ == old(rt).seen_channel_messages@.insert(p.message.id)
                &&& channel_step(
                    *old(chat),
                    old(rt).seen_channel_messages@,
                    old(rt).channel_message_count,
                    old(rt).last_channel_message,
                    p,
                    ctx.on_main && ctx.tab == Tab::Chat,
                    ctx.community_id,
                    *final(chat),
                    final(rt).channel_message_count,
                    final(rt).last_channel_message,
                )
                &&& *final(posts) == *old(posts) && *final(dms) == *old(dms)
                &&& *final(rt) == (RealtimeState {
                    seen_channel_messages: final(rt).seen_channel_messages,
                    channel_message_count: final(rt).channel_message_count,
                    last_channel_message: final(rt).last_channel_message,
                    ..*old(rt)
                })
            },
            Event::ThreadCreated(post) => {
                &&& final(rt).seen_posts@ == old(rt).seen_posts@.insert(post.id)
                &&& thread_step(*old(posts), old(rt).seen_posts@, post, ctx.community_id, ctx.config, *final(posts))
                &&& *final(chat) == *old(chat) && *final(dms) == *old(dms)
                &&& *final(rt) == (RealtimeState { seen_posts: final(rt).seen_posts, ..*old(rt) })
            },
            Event::ThreadPendingApproval(post) => {
                &&& final(rt).seen_posts@ == old(rt).seen_posts@.insert(post.id)
                &&& *final(posts) == *old(posts) && *final(chat) == *old(chat) && *final(dms) == *old(dms)
                &&& *final(rt) == (RealtimeState { seen_posts: final(rt).seen_posts, ..*old(rt) })
            },
            Event::DmRequestCreated { message, state } => {
                &&& final(rt).seen_dm_messages@ == old(rt).seen_dm_messages@.insert(message.id)
                &&& exists|s_mid: DMsState|
                    #[trigger] request_listed(*old(dms), message, ctx.current_user, s_mid) && dm_step(
                        s_mid,
                        old(rt).seen_dm_messages@,
                        message,
                        Some(state),
                        ctx.current_user,
                        ctx.on_main && ctx.tab == Tab::DMs,
                        *final(dms),
                    )
                &&& *final(posts) == *old(posts) && *final(chat) == *old(chat)
                &&& *final(rt) == (RealtimeState { seen_dm_messages: final(rt).seen_dm_messages, ..*old(rt) })
            },
            Event::DmMessageCreated(message) => {
                &&& final(rt).seen_dm_messages@ == old(rt).seen_dm_messages@.insert(message.id)
                &&& dm_step(
                    *old(dms),
                    old(rt).seen_dm_messages@,
                    message,
                    None,
                    ctx.current_user,
                    ctx.on_main && ctx.tab == Tab::DMs,
                    *final(dms),
                )
                &&& *final(posts) == *old(posts) && *final(chat) == *old(chat)
                &&& *final(rt) == (RealtimeState { seen_dm_messages: final(rt).seen_dm_messages, ..*old(rt) })
            },
            Event::NotificationCreated(n) => {
                &&& notification_step(
                    old(rt).unread_notifications@,
                    old(rt).seen_notifications@,
                    n,
                    final(rt).unread_notifications@,
                )
                &&& final(rt).seen_notifications@ == (if n.read {
                    old(rt).seen_notifications@
                } else {
                    old(rt).seen_notifications@.insert(n.id)
                })
                &&& *final(rt) == (RealtimeState {
                    seen_notifications: final(rt).seen_notifications,
                    unread_notifications: final(rt).unread_notifications,
                    ..*old(rt)
                })
                &&& *final(posts) == *old(posts) && *final(chat) == *old(chat) && *final(dms) == *old(dms)
            },
        },
{
    let chat_visible = ctx.on_main && ctx.tab == Tab::Chat;
    let dm_visible = ctx.on_main && ctx.tab == Tab::DMs;
    match event {
        Event::MessageCreated(p) => {
            chat.apply_realtime_channel_message(
                p,
                &mut rt.seen_channel_messages,
                &mut rt.channel_message_count,
                &mut rt.last_channel_message,
                chat_visible,
                ctx.community_id,
            );
        },
        Event::ThreadCreated(post) => {
            posts.apply_realtime_thread(post, &mut rt.seen_posts, ctx.community_id, ctx.config);
        },
        Event::ThreadPendingApproval(post) => {
            rt.seen_posts.insert(post.id);
        },
        Event::DmRequestCreated { message, state } => {
            dms.apply_realtime_dm_request(
                message,
                state,
                &mut rt.seen_dm_messages,
                ctx.current_user,
                dm_visible,
            );
        },
        Event::DmMessageCreated(message) => {
            dms.apply_realtime_dm_message(
                message,
                None,
                &mut rt.seen_dm_messages,
                ctx.current_user,
                dm_visible,
            );
        },
        Event::NotificationCreated(n) => {
            rt.apply_realtime_notification(n);
        },
    }
}

} // verus!
