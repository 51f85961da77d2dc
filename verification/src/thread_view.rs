//! The thread view outside its vote logic: moving among direct replies,
//! the inline reply box, deleting, and which post a reply key answers.
use vstd::prelude::*;
use crate::detail::{
    after_modal_next_reply, after_modal_previous_reply, after_modal_toggle_expansion,
    after_open_full_post_modal, PostDetailState, PostRef,
};
use crate::route::DetailCommand;
use crate::emoji::{utf8_bytes, utf8_bytes_below};
use crate::post::Post;
use crate::state::InputMode;
use crate::text::{chars_of, pop_char, push_char};
use crate::thread::{direct_indices, direct_reply_indices, find_index, first_with_id, lemma_first_with_id_range};

verus! {

/// The post a reply is written to: its id, author and text.
pub struct ReplyTarget {
    pub post_id: u128,
    pub author: String,
    pub content: String,
}

impl PostDetailState {
    /// The number of direct replies shown below the main post.
    pub open spec fn n_direct(&self) -> int {
        direct_indices(self.replies@, self.replies@.len() as int).len() as int
    }

    /// Select the next direct reply, starting at the first and staying on
    /// the last; nothing happens without direct replies.
    pub fn next_reply(&mut self)
        ensures
            after_next_reply(*old(self), *final(self)),

    {
        let d = direct_reply_indices(&self.replies);
        let n = d.len();
        if n > 0 {
            let next = match self.reply_selected {
                None => 0,
                Some(i) => if i < n - 1 {
                    i + 1
                } else {
                    i
                },
            };
            self.reply_selected = Some(next);
        }
    }

    /// Select the previous direct reply; from the first, back to the main
    /// post (no selection).
    pub fn previous_reply(&mut self)
        ensures
            after_previous_reply(*old(self), *final(self)),

    {
        let d = direct_reply_indices(&self.replies);
        if d.len() > 0 {
            match self.reply_selected {
                None => {},
                Some(i) => {
                    if i == 0 {
                        self.reply_selected = None;
                    } else {
                        self.reply_selected = Some(i - 1);
                    }
                },
            }
        }
    }

    /// Ask to confirm deleting the post a delete would remove, when the
    /// signed-in user `current_user` wrote it.
    pub fn show_delete_confirmation(&mut self, current_user: Option<u128>)
        requires
            old(self).replies@.len() < usize::MAX,
        ensures
            after_show_delete_confirmation(*old(self), *final(self), current_user),

    {
        let target = self.get_deletable_post();
        let owner = match target {
            Some(PostRef::Main) => match &self.post {
                Some(p) => Some(p.author_id),
                None => None,
            },
            Some(PostRef::Reply(k)) => {
                proof {
                    self.lemma_deletable_in_range();
                }
                Some(self.replies[k].author_id)
            },
            None => None,
        };
        match (owner, current_user) {
            (Some(a), Some(u)) => {
                if a == u {
                    self.show_delete_confirmation = true;
                }
            },
            _ => {},
        }
    }

    /// A deletable reply is one that exists, and a deletable main post is there.
    pub proof fn lemma_deletable_in_range(&self)
        requires
            self.replies@.len() < usize::MAX,
        ensures
            self.spec_deletable() matches Some(PostRef::Reply(k)) ==> k < self.replies@.len(),
            self.spec_deletable() == Some(PostRef::Main) ==> self.post is Some,
    {
        let r = self.replies@;
        crate::detail::lemma_direct_indices_range(r, r.len() as int);
        if self.show_full_post_modal {
            match (self.modal_selected, self.full_post_modal_id) {
                (Some(idx), Some(mid)) => {
                    let vis = crate::thread::visible(r, crate::thread::all_mask(r), self.modal_expanded_posts@, mid);
                    let t = if idx == 0 {
                        mid
                    } else if idx <= vis.len() {
                        vis[idx - 1]
                    } else {
                        mid
                    };
                    lemma_first_with_id_range(r, t, 0);
                },
                _ => {},
            }
        }
    }

    /// Drop the delete confirmation.
    pub fn cancel_delete_confirmation(&mut self)
        ensures
            after_cancel_delete_confirmation(*old(self), *final(self)),

    {
        self.show_delete_confirmation = false;
    }

    /// Close the inline reply box, dropping its text.
    pub fn close_reply_composer(&mut self, input_mode: &mut InputMode)
        ensures
            after_close_reply_composer(*old(self), *final(self)),
            *final(input_mode) == InputMode::Navigation,

    {
        self.show_reply_composer = false;
        self.reply_content = String::new();
        *input_mode = InputMode::Navigation;
    }

    /// Type `c` into the reply box unless it already holds 280 bytes.
    pub fn add_char_to_reply(&mut self, c: char)
        ensures
            after_add_char_to_reply(*old(self), *final(self), c),

    {
        let cs = chars_of(self.reply_content.as_str());
        if utf8_bytes_below(cs.as_slice(), 280) {
            push_char(&mut self.reply_content, c);
        }
    }

    /// Delete the last character of the reply box.
    pub fn remove_char_from_reply(&mut self)
        ensures
            after_remove_char_from_reply(*old(self), *final(self)),

    {
        pop_char(&mut self.reply_content);
    }

    /// The post the view answers with `r`: the main post.
    pub fn main_reply_target(&self) -> (t: Option<ReplyTarget>)
        ensures
            match self.post {
                Some(p) => t matches Some(x) && x.post_id == p.id && x.author@ == p.author_username@
                    && x.content@ == p.content@,
                None => t is None,
            },
    {
        match &self.post {
            Some(p) => Some(
                ReplyTarget {
                    post_id: p.id,
                    author: crate::text::owned(p.author_username.as_str()),
                    content: crate::text::owned(p.content.as_str()),
                },
            ),
            None => None,
        }
    }

    /// The post the view answers with `c`: the selected direct reply.
    pub fn selected_reply_target(&self) -> (t: Option<ReplyTarget>)
        ensures
            ({
                let d = direct_indices(self.replies@, self.replies@.len() as int);
                match self.reply_selected {
                    Some(i) => if i < d.len() {
                        let p = self.replies@[d[i as int] as int];
                        t matches Some(x) && x.post_id == p.id && x.author@ == p.author_username@
                            && x.content@ == p.content@
                    } else {
                        t is None
                    },
                    None => t is None,
                }
            }),
    {
        let i = match self.reply_selected {
            Some(i) => i,
            None => {
                return None;
            },
        };
        let d = direct_reply_indices(&self.replies);
        if i >= d.len() {
            return None;
        }
        let _n = self.replies.len();
        proof {
            crate::detail::lemma_direct_indices_range(self.replies@, self.replies@.len() as int);
        }
        let p = &self.replies[d[i]];
        Some(
            ReplyTarget {
                post_id: p.id,
                author: crate::text::owned(p.author_username.as_str()),
                content: crate::text::owned(p.content.as_str()),
            },
        )
    }

    /// The post the full-post modal answers with `r`: its root, the main
    /// post when that is the root, else the first reply with the root's id.
    pub fn modal_reply_target(&self) -> (t: Option<ReplyTarget>)
        ensures
            match (self.full_post_modal_id, self.post) {
                (Some(mid), Some(p)) => if p.id == mid {
                    t matches Some(x) && x.post_id == p.id && x.author@ == p.author_username@
                        && x.content@ == p.content@
                } else if first_with_id(self.replies@, mid, 0) >= 0 {
                    let q = self.replies@[first_with_id(self.replies@, mid, 0)];
                    t matches Some(x) && x.post_id == q.id && x.author@ == q.author_username@
                        && x.content@ == q.content@
                } else {
                    t is None
                },
                _ => t is None,
            },
    {
        let mid = match self.full_post_modal_id {
            Some(m) => m,
            None => {
                return None;
            },
        };
        let p = match &self.post {
            Some(p) => p,
            None => {
                return None;
            },
        };
        if p.id == mid {
            return self.main_reply_target();
        }
        proof {
            lemma_first_with_id_range(self.replies@, mid, 0);
        }
        match find_index(&self.replies, mid) {
            Some(k) => {
                let q = &self.replies[k];
                Some(
                    ReplyTarget {
                        post_id: q.id,
                        author: crate::text::owned(q.author_username.as_str()),
                        content: crate::text::owned(q.content.as_str()),
                    },
                )
            },
            None => None,
        }
    }
}

/// What deleting from the thread view removes: the post's id, whether it
/// is a reply, and the main post's id.
pub struct DeleteTarget {
    pub post_id: u128,
    pub is_reply: bool,
    pub main_post_id: Option<u128>,
}

impl PostDetailState {
    /// What a confirmed delete removes (the post `get_deletable_post`
    /// names), or None when there is nothing to delete.
    pub fn delete_target(&self) -> (r: Option<DeleteTarget>)
        requires
            self.replies@.len() < usize::MAX,
        ensures
            match self.spec_deletable() {
                None => r is None,
                Some(PostRef::Main) => r matches Some(t) && t.post_id == self.post->0.id
                    && t.is_reply == (self.post->0.parent_post_id is Some) && t.main_post_id == Some(
                    self.post->0.id,
                ),
                Some(PostRef::Reply(k)) => r matches Some(t) && t.post_id == self.replies@[k as int].id
                    && t.is_reply == (self.replies@[k as int].parent_post_id is Some)
                    && t.main_post_id == (match self.post {
                    Some(p) => Some(p.id),
                    None => None,
                }),
            },
    {
        proof {
            self.lemma_deletable_in_range();
        }
        let main_post_id = match &self.post {
            Some(p) => Some(p.id),
            None => None,
        };
        match self.get_deletable_post() {
            None => None,
            Some(PostRef::Main) => match &self.post {
                Some(p) => Some(
                    DeleteTarget {
                        post_id: p.id,
                        is_reply: p.parent_post_id.is_some(),
                        main_post_id,
                    },
                ),
                None => None,
            },
            Some(PostRef::Reply(k)) => {
                let q = &self.replies[k];
                Some(
                    DeleteTarget {
                        post_id: q.id,
                        is_reply: q.parent_post_id.is_some(),
                        main_post_id,
                    },
                )
            },
        }
    }
}

impl PostDetailState {
    /// Start reloading the post: loading, with no error.
    pub fn begin_reload(&mut self)
        ensures
            *final(self) == (PostDetailState { loading: true, error: None, ..*old(self) }),
    {
        self.loading = true;
        self.error = None;
    }

    /// The main post arrived.
    pub fn apply_loaded_post(&mut self, post: Post)
        ensures
            *final(self) == (PostDetailState { post: Some(post), ..*old(self) }),
    {
        self.post = Some(post);
    }

    /// Loading failed with the (categorized) message `message`; whatever
    /// was shown before stays.
    pub fn apply_load_error(&mut self, message: String)
        ensures
            *final(self) == (PostDetailState { error: Some(message), loading: false, ..*old(self) }),
    {
        self.error = Some(message);
        self.loading = false;
    }

    /// The replies arrived: they are shown with the first one selected, and
    /// the modal stays as it was.
    pub fn apply_loaded_replies(&mut self, replies: Vec<Post>)
        ensures
            *final(self) == (PostDetailState {
                replies: replies,
                reply_selected: if replies@.len() > 0 {
                    Some(0usize)
                } else {
                    None
                },
                loading: false,
                ..*old(self)
            }),
    {
        let n = replies.len();
        self.replies = replies;
        self.reply_selected = if n > 0 {
            Some(0)
        } else {
            None
        };
        self.loading = false;
    }

    /// Deleting failed with the (categorized) message `message`: it is shown
    /// and the confirmation closes.
    pub fn apply_delete_failure(&mut self, message: String)
        ensures
            *final(self) == (PostDetailState {
                error: Some(message),
                show_delete_confirmation: false,
                ..*old(self)
            }),
    {
        self.error = Some(message);
        self.show_delete_confirmation = false;
    }

    /// Show the notice `text` from time `now_ms` on.
    pub fn show_message(&mut self, text: String, now_ms: u64)
        ensures
            *final(self) == (PostDetailState { message: Some((text, now_ms)), ..*old(self) }),
    {
        self.message = Some((text, now_ms));
    }
}

/// The notice after a reply was deleted.
pub fn reply_deleted_message() -> (r: &'static str)
    ensures
        r@ == "✓ Reply deleted successfully"@,
{
    "✓ Reply deleted successfully"
}

/// The notice after a post was deleted.
pub fn post_deleted_message() -> (r: &'static str)
    ensures
        r@ == "✓ Post deleted successfully"@,
{
    "✓ Post deleted successfully"
}

/// What `next_reply` does to the view.
pub open spec fn after_next_reply(o: PostDetailState, s1: PostDetailState) -> bool {
    &&& (o.n_direct() == 0 ==> s1 == o)
    &&& (o.n_direct() > 0 ==> s1 == (PostDetailState {
        reply_selected: Some(
            match o.reply_selected {
                None => 0usize,
                Some(i) => if i < o.n_direct() - 1 {
                    (i + 1) as usize
                } else {
                    i
                },
            },
        ),
        ..o
    }))
}

/// What `previous_reply` does to the view.
pub open spec fn after_previous_reply(o: PostDetailState, s1: PostDetailState) -> bool {
    &&& (o.n_direct() == 0 ==> s1 == o)
    &&& (o.n_direct() > 0 ==> s1 == (PostDetailState {
        reply_selected: match o.reply_selected {
            None => None,
            Some(i) => if i == 0 {
                None
            } else {
                Some((i - 1) as usize)
            },
        },
        ..o
    }))
}

/// What `show_delete_confirmation` does to the view.
pub open spec fn after_show_delete_confirmation(o: PostDetailState, s1: PostDetailState, current_user: Option<u128>) -> bool {
    &&& (s1 == (PostDetailState {
        show_delete_confirmation: o.show_delete_confirmation || match o.spec_deletable() {
            Some(PostRef::Main) => current_user == Some(o.post->0.author_id),
            Some(PostRef::Reply(k)) => current_user == Some(o.replies@[k as int].author_id),
            None => false,
        },
        ..o
    }))
}

/// What `cancel_delete_confirmation` does to the view.
pub open spec fn after_cancel_delete_confirmation(o: PostDetailState, s1: PostDetailState) -> bool {
    &&& (s1 == (PostDetailState { show_delete_confirmation: false, ..o }))
}

/// What `close_reply_composer` does to the view.
pub open spec fn after_close_reply_composer(o: PostDetailState, s1: PostDetailState) -> bool {
    &&& (s1 == (PostDetailState {
        show_reply_composer: false,
        reply_content: s1.reply_content,
        ..o
    }))
    &&& (s1.reply_content@.len() == 0)
}

/// What `add_char_to_reply` does to the view.
pub open spec fn after_add_char_to_reply(o: PostDetailState, s1: PostDetailState, c: char) -> bool {
    &&& (s1 == (PostDetailState { reply_content: s1.reply_content, ..o }))
    &&& (s1.reply_content@ == (if utf8_bytes(o.reply_content@) < 280 {
        o.reply_content@.push(c)
    } else {
        o.reply_content@
    }))
}

/// What `remove_char_from_reply` does to the view.
pub open spec fn after_remove_char_from_reply(o: PostDetailState, s1: PostDetailState) -> bool {
    &&& (s1 == (PostDetailState { reply_content: s1.reply_content, ..o }))
    &&& (s1.reply_content@ == (if o.reply_content@.len() > 0 {
        o.reply_content@.drop_last()
    } else {
        o.reply_content@
    }))
}

/// What is left to the caller after a thread-view command.
#[derive(Debug, Clone, Copy, PartialEq, Eq, Structural)]
pub enum DetailOutcome {
    /// The view did all of it.
    Done,
    /// The command needs the composer, the feed or the server: the caller
    /// carries it out.
    ToCaller(DetailCommand),
}

impl PostDetailState {
    /// Carry out thread-view command `cmd` (as `handle_post_detail_keys`
    /// gives it) for `current_user`: the commands on the view itself are
    /// applied as the named methods do; opening a reply composer, closing
    /// the view, deleting and the rest go back to the caller untouched.
    pub fn apply_detail_command(
        &mut self,
        cmd: DetailCommand,
        current_user: Option<u128>,
        input_mode: &mut InputMode,
    ) -> (r: DetailOutcome)
        requires
            old(self).replies@.len() < usize::MAX,
        ensures
            match cmd {
                DetailCommand::OpenFullPostModal => after_open_full_post_modal(*old(self), *final(self)),
                DetailCommand::NextReply => after_next_reply(*old(self), *final(self)),
                DetailCommand::PreviousReply => after_previous_reply(*old(self), *final(self)),
                DetailCommand::ShowDeleteConfirmation => after_show_delete_confirmation(
                    *old(self),
                    *final(self),
                    current_user,
                ),
                DetailCommand::ModalNext => after_modal_next_reply(*old(self), *final(self)),
                DetailCommand::ModalPrevious => after_modal_previous_reply(*old(self), *final(self)),
                DetailCommand::ModalToggle => after_modal_toggle_expansion(*old(self), *final(self)),
                DetailCommand::ReplyTypeChar(c) => after_add_char_to_reply(*old(self), *final(self), c),
                DetailCommand::ReplyEraseChar => after_remove_char_from_reply(*old(self), *final(self)),
                DetailCommand::CloseReplyComposer => after_close_reply_composer(*old(self), *final(self)),
                DetailCommand::CancelDelete => after_cancel_delete_confirmation(*old(self), *final(self)),
                _ => r == DetailOutcome::ToCaller(cmd) && *final(self) == *old(self),
            },
            match cmd {
                DetailCommand::OpenFullPostModal | DetailCommand::NextReply | DetailCommand::PreviousReply
                | DetailCommand::ShowDeleteConfirmation | DetailCommand::ModalNext
                | DetailCommand::ModalPrevious | DetailCommand::ModalToggle
                | DetailCommand::ReplyTypeChar(_) | DetailCommand::ReplyEraseChar
                | DetailCommand::CloseReplyComposer | DetailCommand::CancelDelete => r == DetailOutcome::Done,
                _ => true,
            },
            cmd is CloseReplyComposer ==> *final(input_mode) == InputMode::Navigation,
            !(cmd is CloseReplyComposer) ==> *final(input_mode) == *old(input_mode),
    {
        match cmd {
            DetailCommand::OpenFullPostModal => self.open_full_post_modal(),
            DetailCommand::NextReply => self.next_reply(),
            DetailCommand::PreviousReply => self.previous_reply(),
            DetailCommand::ShowDeleteConfirmation => self.show_delete_confirmation(current_user),
            DetailCommand::ModalNext => self.modal_next_reply(),
            DetailCommand::ModalPrevious => self.modal_previous_reply(),
            DetailCommand::ModalToggle => self.modal_toggle_expansion(),
            DetailCommand::ReplyTypeChar(c) => self.add_char_to_reply(c),
            DetailCommand::ReplyEraseChar => self.remove_char_from_reply(),
            DetailCommand::CloseReplyComposer => self.close_reply_composer(input_mode),
            DetailCommand::CancelDelete => self.cancel_delete_confirmation(),
            _ => {
                return DetailOutcome::ToCaller(cmd);
            },
        }
        DetailOutcome::Done
    }
}

} // verus!
