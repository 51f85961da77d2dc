//! The post-detail view: a post, its replies, the reply selection and the
//! full-post modal with its expandable reply tree.
use vstd::prelude::*;
use std::collections::HashMap;
use crate::post::{
    apply_change_at, compute_vote_change, opt_view, tally_after, vote_request, Post,
    VoteRequest,
};
use crate::thread::{
    is_direct,
    lemma_first_with_id_range,
    all_mask, all_mask_exec, ancestors, ancestors_exec, budget, direct_indices,
    direct_reply_indices, expand_all, expand_all_exec, expanded, find_index,
    first_with_id, parent_in_mask, parent_in_mask_exec, position_exec, position_of,
    subtree_mask, subtree_mask_exec, visible, visible_exec,
};

use crate::error::{categorize_error, lowercase, spec_categorize_error};

verus! {

broadcast use vstd::std_specs::hash::group_hash_axioms;

/// A post shown in the detail view: the main post or one of the replies.
#[derive(Debug, Clone, Copy, PartialEq, Eq, Structural)]
pub enum PostRef {
    Main,
    /// Index into the replies.
    Reply(usize),
}

/// State of the post-detail view.
pub struct PostDetailState {
    pub post: Option<Post>,
    pub replies: Vec<Post>,
    /// Selected row of the direct-reply list.
    pub reply_selected: Option<usize>,
    pub loading: bool,
    pub error: Option<String>,
    /// A notice and the time it was shown, in milliseconds since the epoch.
    pub message: Option<(String, u64)>,
    pub show_reply_composer: bool,
    pub reply_content: String,
    pub show_delete_confirmation: bool,
    /// Feed row to return to when the view closes.
    pub previous_feed_position: Option<usize>,
    pub show_full_post_modal: bool,
    /// Root of the full-post modal.
    pub full_post_modal_id: Option<u128>,
    /// Selected row of the modal: 0 is the root, 1.. the visible replies.
    pub modal_selected: Option<usize>,
    /// Which replies are expanded inside the modal.
    pub modal_expanded_posts: HashMap<u128, bool>,
}

/// `s1` is `o` after selecting `reply_id` in the modal: nothing happens
/// unless the modal shows a thread; the thread's root is the first row; a
/// reply of a thread whose root is loaded has the root and each of its
/// ancestors expanded and is selected at its row, if it is shown.
pub open spec fn selected_reply(o: PostDetailState, reply_id: u128, s1: PostDetailState) -> bool {
    if !o.show_full_post_modal || o.full_post_modal_id is None {
        s1.modal_selected == o.modal_selected
            && s1.modal_expanded_posts@ == o.modal_expanded_posts@
    } else {
        let mid = o.full_post_modal_id->0;
        if reply_id == mid {
            s1.modal_selected == Some(0usize)
                && s1.modal_expanded_posts@ == o.modal_expanded_posts@
        } else if !o.root_found(mid) {
            s1.modal_selected == o.modal_selected
                && s1.modal_expanded_posts@ == o.modal_expanded_posts@
        } else {
            let mask = subtree_mask(o.replies@, mid);
            let anc = ancestors(
                o.replies@,
                mask,
                parent_in_mask(o.replies@, mask, reply_id, 0),
                budget(o.replies@),
            );
            let m2 = expand_all(o.modal_expanded_posts@.insert(mid, true), anc);
            let vis = visible(o.replies@, mask, m2, mid);
            let pos = position_of(vis, reply_id, 0);
            &&& s1.modal_expanded_posts@ == m2
            &&& s1.modal_selected == (if 0 <= pos < usize::MAX {
                Some((pos + 1) as usize)
            } else {
                o.modal_selected
            })
        }
    }
}

impl PostDetailState {
    /// The view opened on post `post_id`, about to load, remembering the feed
    /// row to return to. It opens on the full-post modal at the root, with
    /// the root expanded to show the first layer of replies.
    pub fn open(post_id: u128, previous_feed_position: Option<usize>) -> (s: Self)
        ensures
            s.post is None,
            s.replies@.len() == 0,
            s.reply_selected is None,
            s.loading,
            s.error is None,
            s.message is None,
            !s.show_reply_composer,
            s.reply_content@.len() == 0,
            !s.show_delete_confirmation,
            s.previous_feed_position == previous_feed_position,
            s.show_full_post_modal,
            s.full_post_modal_id == Some(post_id),
            s.modal_selected == Some(0usize),
            s.modal_expanded_posts@ == map![post_id => true],
    {
        let mut expanded: HashMap<u128, bool> = HashMap::new();
        expanded.insert(post_id, true);
        proof {
            assert(expanded@ =~= map![post_id => true]);
        }
        PostDetailState {
            post: None,
            replies: Vec::new(),
            reply_selected: None,
            loading: true,
            error: None,
            message: None,
            show_reply_composer: false,
            reply_content: String::new(),
            show_delete_confirmation: false,
            previous_feed_position,
            show_full_post_modal: true,
            full_post_modal_id: Some(post_id),
            modal_selected: Some(0),
            modal_expanded_posts: expanded,
        }
    }

    /// The modal root with id `mid` can be found: it is the main post or a reply
    /// (looked up only while a main post is loaded).
    pub open spec fn root_found(&self, mid: u128) -> bool {
        match self.post {
            Some(p) => p.id == mid || first_with_id(self.replies@, mid, 0) != -1,
            None => false,
        }
    }

    /// The replies shown below the modal root, in display order.
    pub open spec fn modal_visible(&self, mid: u128) -> Seq<u128> {
        visible(
            self.replies@,
            subtree_mask(self.replies@, mid),
            self.modal_expanded_posts@,
            mid,
        )
    }

    /// Largest selectable modal row: 0 unless the root is expanded.
    pub open spec fn spec_modal_max_index(&self) -> int {
        match self.full_post_modal_id {
            None => 0,
            Some(mid) => if !self.root_found(mid) || !expanded(self.modal_expanded_posts@, mid) {
                0
            } else {
                self.modal_visible(mid).len() as int
            },
        }
    }

    /// The id of the post on the selected modal row, when it can be resolved.
    pub open spec fn spec_modal_target(&self) -> Option<u128> {
        match self.full_post_modal_id {
            None => None,
            Some(mid) => {
                let idx = match self.modal_selected {
                    Some(i) => i as int,
                    None => 0,
                };
                if idx == 0 {
                    Some(mid)
                } else if !self.root_found(mid) {
                    None
                } else if idx <= self.modal_visible(mid).len() {
                    Some(self.modal_visible(mid)[idx - 1])
                } else {
                    None
                }
            },
        }
    }

    /// Fields other than the modal's are unchanged.
    pub open spec fn same_outside_modal(&self, o: &PostDetailState) -> bool {
        &&& self.post == o.post
        &&& self.replies == o.replies
        &&& self.reply_selected == o.reply_selected
        &&& self.loading == o.loading
        &&& self.error == o.error
        &&& self.message == o.message
        &&& self.show_reply_composer == o.show_reply_composer
        &&& self.reply_content == o.reply_content
        &&& self.show_delete_confirmation == o.show_delete_confirmation
        &&& self.previous_feed_position == o.previous_feed_position
        &&& self.show_full_post_modal == o.show_full_post_modal
        &&& self.full_post_modal_id == o.full_post_modal_id
    }

    fn root_found_exec(&self, mid: u128) -> (r: bool)
        ensures
            r == self.root_found(mid),
    {
        match &self.post {
            Some(p) => p.id == mid || find_index(&self.replies, mid).is_some(),
            None => false,
        }
    }

    fn modal_visible_exec(&self, mid: u128) -> (r: Vec<u128>)
        requires
            self.replies@.len() < usize::MAX,
        ensures
            r@ == self.modal_visible(mid),
    {
        let mask = subtree_mask_exec(&self.replies, mid);
        visible_exec(&self.replies, &mask, &self.modal_expanded_posts, mid)
    }

    /// Largest selectable row of the full-post modal.
    pub fn modal_max_index(&self) -> (r: usize)
        requires
            self.replies@.len() < usize::MAX,
        ensures
            r as int == self.spec_modal_max_index(),
    {
        match self.full_post_modal_id {
            None => 0,
            Some(mid) => {
                if !self.root_found_exec(mid) {
                    return 0;
                }
                let open = match self.modal_expanded_posts.get(&mid) {
                    Some(v) => *v,
                    None => false,
                };
                if !open {
                    return 0;
                }
                let vis = self.modal_visible_exec(mid);
                vis.len()
            },
        }
    }

    /// Move the modal selection down, stopping at the last visible row.
    pub fn modal_next_reply(&mut self)
        requires
            old(self).replies@.len() < usize::MAX,
        ensures
            after_modal_next_reply(*old(self), *final(self)),

    {
        if self.show_full_post_modal {
            let current = match self.modal_selected {
                Some(i) => i,
                None => 0,
            };
            let max_index = self.modal_max_index();
            if current < max_index {
                self.modal_selected = Some(current + 1);
            }
        }
    }

    /// Move the modal selection up, stopping at the root.
    pub fn modal_previous_reply(&mut self)
        ensures
            after_modal_previous_reply(*old(self), *final(self)),

    {
        if self.show_full_post_modal {
            let current = match self.modal_selected {
                Some(i) => i,
                None => 0,
            };
            if current > 0 {
                self.modal_selected = Some(current - 1);
            }
        }
    }

    /// The post on the selected modal row, if it can be resolved.
    pub fn modal_target(&self) -> (r: Option<u128>)
        requires
            self.replies@.len() < usize::MAX,
        ensures
            r == self.spec_modal_target(),
    {
        let mid = match self.full_post_modal_id {
            Some(m) => m,
            None => return None,
        };
        let idx = match self.modal_selected {
            Some(i) => i,
            None => 0,
        };
        if idx == 0 {
            return Some(mid);
        }
        if !self.root_found_exec(mid) {
            return None;
        }
        let vis = self.modal_visible_exec(mid);
        if idx <= vis.len() {
            Some(vis[idx - 1])
        } else {
            None
        }
    }

    /// Toggle the expansion of the selected modal row: the root on row 0,
    /// otherwise the visible reply on that row.
    pub fn modal_toggle_expansion(&mut self)
        requires
            old(self).replies@.len() < usize::MAX,
        ensures
            after_modal_toggle_expansion(*old(self), *final(self)),

    {
        if self.show_full_post_modal {
            match self.modal_target() {
                Some(t) => {
                    let is_open = match self.modal_expanded_posts.get(&t) {
                        Some(v) => *v,
                        None => false,
                    };
                    self.modal_expanded_posts.insert(t, !is_open);
                },
                None => {},
            }
        }
    }

    /// A reply `new_reply_id` was posted in the thread of `root_id`, and the
    /// thread was loaded again: the full-post modal shows that thread with
    /// the new reply selected.
    pub fn show_posted_reply(&mut self, root_id: u128, new_reply_id: u128)
        requires
            old(self).replies@.len() < usize::MAX,
        ensures
            final(self).same_outside_modal(
                &PostDetailState {
                    show_full_post_modal: true,
                    full_post_modal_id: Some(root_id),
                    ..*old(self)
                },
            ),
            selected_reply(
                PostDetailState {
                    show_full_post_modal: true,
                    full_post_modal_id: Some(root_id),
                    ..*old(self)
                },
                new_reply_id,
                *final(self),
            ),
    {
        self.show_full_post_modal = true;
        self.full_post_modal_id = Some(root_id);
        self.select_reply_in_modal(new_reply_id);
    }

    /// Select `reply_id` in the modal, expanding the root and every ancestor
    /// of the reply so that it is visible.
    pub fn select_reply_in_modal(&mut self, reply_id: u128)
        requires
            old(self).replies@.len() < usize::MAX,
        ensures
            final(self).same_outside_modal(&*old(self)),
            selected_reply(*old(self), reply_id, *final(self)),
    {
        if !self.show_full_post_modal {
            return ;
        }
        let mid = match self.full_post_modal_id {
            Some(m) => m,
            None => return ,
        };
        if reply_id == mid {
            self.modal_selected = Some(0);
            return ;
        }
        if !self.root_found_exec(mid) {
            return ;
        }
        let mask = subtree_mask_exec(&self.replies, mid);
        let start = parent_in_mask_exec(&self.replies, &mask, reply_id);
        let mut anc: Vec<u128> = Vec::new();
        ancestors_exec(&self.replies, &mask, start, self.replies.len() + 1, &mut anc);
        assert(Seq::<u128>::empty() + ancestors(
            self.replies@,
            mask@,
            start,
            budget(self.replies@),
        ) =~= ancestors(self.replies@, mask@, start, budget(self.replies@)));
        self.modal_expanded_posts.insert(mid, true);
        expand_all_exec(&mut self.modal_expanded_posts, &anc);
        let vis = visible_exec(&self.replies, &mask, &self.modal_expanded_posts, mid);
        match position_exec(&vis, reply_id) {
            Some(pos) => {
                if pos < usize::MAX {
                    self.modal_selected = Some(pos + 1);
                }
            },
            None => {},
        }
    }
}

/// Counts and vote of a post before an optimistic vote, and where the vote
/// was applied, so that a failed request can be undone.
pub struct VoteAttempt {
    pub post_id: u128,
    pub request: VoteRequest,
    /// The change was applied to the main post.
    pub on_main: bool,
    /// The change was applied to this reply.
    pub on_reply: Option<usize>,
    pub original_upvotes: i32,
    pub original_downvotes: i32,
    pub previous_vote: Option<String>,
}

/// A vote target: post id, whether the main post is changed, which reply is
/// changed, and the previous vote the change is computed from.
pub struct VotePlan {
    pub post_id: u128,
    pub on_main: bool,
    pub on_reply: Option<int>,
    pub prev: Option<Seq<char>>,
    pub upvotes: int,
    pub downvotes: int,
}

fn clone_opt_string(v: &Option<String>) -> (r: Option<String>)
    ensures
        opt_view(r) == opt_view(*v),
{
    match v {
        Some(s) => Some(crate::text::owned(s.as_str())),
        None => None,
    }
}

impl PostDetailState {
    /// The post that a delete would remove: the selected modal row, or the
    /// selected direct reply, or the main post.
    pub open spec fn spec_deletable(&self) -> Option<PostRef> {
        let r = self.replies@;
        let main = if self.post is Some {
            Some(PostRef::Main)
        } else {
            None
        };
        if self.show_full_post_modal {
            match (self.modal_selected, self.full_post_modal_id) {
                (Some(idx), Some(mid)) => {
                    let t = if idx == 0 {
                        Some(mid)
                    } else {
                        let vis = visible(r, all_mask(r), self.modal_expanded_posts@, mid);
                        if idx <= vis.len() {
                            Some(vis[idx - 1])
                        } else {
                            None
                        }
                    };
                    match t {
                        None => None,
                        Some(t) => if idx == 0 && self.post is Some && self.post->0.id == t {
                            Some(PostRef::Main)
                        } else if first_with_id(r, t, 0) >= 0 {
                            Some(PostRef::Reply(first_with_id(r, t, 0) as usize))
                        } else {
                            None
                        },
                    }
                },
                _ => None,
            }
        } else if r.len() == 0 {
            main
        } else {
            match self.reply_selected {
                Some(i) => {
                    let d = direct_indices(r, r.len() as int);
                    if i < d.len() {
                        Some(PostRef::Reply(d[i as int]))
                    } else {
                        main
                    }
                },
                None => main,
            }
        }
    }

    /// The post a delete would remove.
    pub fn get_deletable_post(&self) -> (r: Option<PostRef>)
        requires
            self.replies@.len() < usize::MAX,
        ensures
            r == self.spec_deletable(),
    {
        let main = if self.post.is_some() {
            Some(PostRef::Main)
        } else {
            None
        };
        if self.show_full_post_modal {
            let idx = match self.modal_selected {
                Some(i) => i,
                None => return None,
            };
            let mid = match self.full_post_modal_id {
                Some(m) => m,
                None => return None,
            };
            let t = if idx == 0 {
                mid
            } else {
                let mask = all_mask_exec(&self.replies);
                let vis = visible_exec(&self.replies, &mask, &self.modal_expanded_posts, mid);
                if idx <= vis.len() {
                    vis[idx - 1]
                } else {
                    return None;
                }
            };
            if idx == 0 {
                if let Some(p) = &self.post {
                    if p.id == t {
                        return Some(PostRef::Main);
                    }
                }
            }
            proof {
                lemma_first_with_id_range(self.replies@, t, 0);
            }
            return match find_index(&self.replies, t) {
                Some(k) => Some(PostRef::Reply(k)),
                None => None,
            };
        }
        if self.replies.len() == 0 {
            return main;
        }
        match self.reply_selected {
            Some(i) => {
                let d = direct_reply_indices(&self.replies);
                if i < d.len() {
                    Some(PostRef::Reply(d[i]))
                } else {
                    main
                }
            },
            None => main,
        }
    }

    /// Open the full-post modal on the selected direct reply, or on the main
    /// post when no reply is selected; the modal starts collapsed on row 0.
    pub fn open_full_post_modal(&mut self)
        ensures
            after_open_full_post_modal(*old(self), *final(self)),

    {
        let _n = self.replies.len();
        let target = match self.reply_selected {
            Some(i) => {
                let d = direct_reply_indices(&self.replies);
                if i < d.len() {
                    proof {
                        lemma_direct_indices_range(self.replies@, self.replies@.len() as int);
                    }
                    Some(self.replies[d[i]].id)
                } else {
                    None
                }
            },
            None => match &self.post {
                Some(p) => Some(p.id),
                None => None,
            },
        };
        if let Some(t) = target {
            self.full_post_modal_id = Some(t);
            self.show_full_post_modal = true;
            self.modal_selected = Some(0);
            self.modal_expanded_posts.clear();
        }
    }

    /// Where a vote lands: in the modal, the selected row (changing the main
    /// post when its id matches and the first reply with that id); in the
    /// detail view, the selected direct reply or else the main post.
    pub open spec fn spec_vote_plan(&self) -> Option<VotePlan> {
        let r = self.replies@;
        if self.show_full_post_modal {
            match self.spec_modal_target() {
                None => None,
                Some(t) => {
                    let k = first_with_id(r, t, 0);
                    let main_hit = self.post is Some && self.post->0.id == t;
                    if !main_hit && k < 0 {
                        None
                    } else {
                        let src = if main_hit {
                            self.post->0.tally()
                        } else {
                            r[k].tally()
                        };
                        Some(VotePlan {
                            post_id: t,
                            on_main: main_hit,
                            on_reply: if k >= 0 {
                                Some(k)
                            } else {
                                None
                            },
                            prev: src.user_vote,
                            upvotes: src.upvotes,
                            downvotes: src.downvotes,
                        })
                    }
                },
            }
        } else {
            match self.reply_selected {
                Some(i) => {
                    let d = direct_indices(r, r.len() as int);
                    if i < d.len() {
                        let id = r[d[i as int] as int].id;
                        let k = first_with_id(r, id, 0);
                        Some(VotePlan {
                            post_id: id,
                            on_main: false,
                            on_reply: Some(k),
                            prev: r[k].tally().user_vote,
                            upvotes: r[k].tally().upvotes,
                            downvotes: r[k].tally().downvotes,
                        })
                    } else {
                        None
                    }
                },
                None => match self.post {
                    Some(p) => Some(
                        VotePlan {
                            post_id: p.id,
                            on_main: true,
                            on_reply: None,
                            prev: p.tally().user_vote,
                            upvotes: p.tally().upvotes,
                            downvotes: p.tally().downvotes,
                        },
                    ),
                    None => None,
                },
            }
        }
    }

    /// The counts of every post the vote changes stay within `i32`.
    pub open spec fn vote_fits(&self, dir: Seq<char>) -> bool {
        match self.spec_vote_plan() {
            None => true,
            Some(plan) => {
                &&& plan.on_main ==> self.post->0.change_fits(plan.prev, dir)
                &&& (plan.on_reply matches Some(k) ==> self.replies@[k].change_fits(plan.prev, dir))
            },
        }
    }

    /// Vote `dir` on the selected post, updating the counts optimistically.
    /// Nothing happens when no post can be resolved.
    pub fn vote(&mut self, dir: &str) -> (r: Option<VoteAttempt>)
        requires
            old(self).replies@.len() < usize::MAX,
            old(self).vote_fits(dir@),
        ensures
            final(self).same_outside_votes_but_error(&*old(self)),
            final(self).error is None,
            final(self).modal_selected == old(self).modal_selected,
            final(self).modal_expanded_posts@ == old(self).modal_expanded_posts@,
            final(self).replies@.len() == old(self).replies@.len(),
            match old(self).spec_vote_plan() {
                None => r is None && final(self).post == old(self).post && final(self).replies
                    == old(self).replies,
                Some(plan) => {
                    &&& r matches Some(a)
                    &&& a.post_id == plan.post_id
                    &&& a.on_main == plan.on_main
                    &&& a.on_reply == (match plan.on_reply {
                        Some(k) => Some(k as usize),
                        None => None,
                    })
                    &&& a.request == vote_request(plan.prev, dir@)
                    &&& a.original_upvotes == plan.upvotes
                    &&& a.original_downvotes == plan.downvotes
                    &&& opt_view(a.previous_vote) == plan.prev
                    &&& if plan.on_main {
                        &&& final(self).post is Some
                        &&& final(self).post->0.tally() == tally_after(
                            old(self).post->0.tally(),
                            plan.prev,
                            dir@,
                        )
                        &&& final(self).post->0.same_except_votes(&old(self).post->0)
                    } else {
                        final(self).post == old(self).post
                    }
                    &&& forall|j: int|
                        0 <= j < old(self).replies@.len() && Some(j) != plan.on_reply
                            ==> final(self).replies@[j] == old(self).replies@[j]
                    &&& (plan.on_reply matches Some(k) ==> {
                        &&& final(self).replies@[k].tally() == tally_after(
                            old(self).replies@[k].tally(),
                            plan.prev,
                            dir@,
                        )
                        &&& final(self).replies@[k].same_except_votes(&old(self).replies@[k])
                    })
                },
            },
    {
        self.error = None;
        let r_len = self.replies.len();
        let (post_id, on_main, on_reply): (u128, bool, Option<usize>) = if self.show_full_post_modal {
            let t = match self.modal_target() {
                Some(t) => t,
                None => return None,
            };
            let k = find_index(&self.replies, t);
            let main_hit = match &self.post {
                Some(p) => p.id == t,
                None => false,
            };
            if !main_hit && k.is_none() {
                return None;
            }
            (t, main_hit, k)
        } else {
            match self.reply_selected {
                Some(i) => {
                    let d = direct_reply_indices(&self.replies);
                    if i < d.len() {
                        proof {
                            lemma_direct_indices_range(self.replies@, self.replies@.len() as int);
                        }
                        let id = self.replies[d[i]].id;
                        let k = find_index(&self.replies, id);
                        proof {
                            lemma_first_with_id_range(self.replies@, id, 0);
                        }
                        (id, false, k)
                    } else {
                        return None;
                    }
                },
                None => match &self.post {
                    Some(p) => (p.id, true, None),
                    None => return None,
                },
            }
        };
        proof {
            lemma_first_with_id_range(self.replies@, post_id, 0);
        }
        let (prev, up0, down0) = if on_main {
            match &self.post {
                Some(p) => (clone_opt_string(&p.user_vote), p.upvotes, p.downvotes),
                None => return None,
            }
        } else {
            match on_reply {
                Some(k) => (
                    clone_opt_string(&self.replies[k].user_vote),
                    self.replies[k].upvotes,
                    self.replies[k].downvotes,
                ),
                None => return None,
            }
        };
        let change = compute_vote_change(&prev, dir);
        let request = match &prev {
            Some(p) if crate::text::str_eq(p.as_str(), dir) => VoteRequest::Ignored,
            _ => match crate::post::VoteDirection::from_str(dir) {
                Some(d) => VoteRequest::Send(d),
                None => VoteRequest::InvalidDirection,
            },
        };
        if on_main {
            if let Some(p) = &mut self.post {
                p.apply_change(change);
            }
        }
        if let Some(k) = on_reply {
            apply_change_at(&mut self.replies, k, change);
        }
        Some(
            VoteAttempt {
                post_id,
                request,
                on_main,
                on_reply,
                original_upvotes: up0,
                original_downvotes: down0,
                previous_vote: prev,
            },
        )
    }

    /// Undo an optimistic vote after the server refused it: the posts it
    /// changed get back their counts and vote.
    pub fn revert_vote(&mut self, a: &VoteAttempt)
        ensures
            final(self).same_outside_modal_votes(&*old(self)),
            final(self).modal_selected == old(self).modal_selected,
            final(self).modal_expanded_posts@ == old(self).modal_expanded_posts@,
            final(self).replies@.len() == old(self).replies@.len(),
            if a.on_main && old(self).post is Some {
                &&& final(self).post is Some
                &&& final(self).post->0.upvotes == a.original_upvotes
                &&& final(self).post->0.downvotes == a.original_downvotes
                &&& opt_view(final(self).post->0.user_vote) == opt_view(a.previous_vote)
                &&& final(self).post->0.same_except_votes(&old(self).post->0)
            } else {
                final(self).post == old(self).post
            },
            forall|j: int|
                0 <= j < old(self).replies@.len() && Some(j as usize) != a.on_reply
                    ==> final(self).replies@[j] == old(self).replies@[j],
            a.on_reply matches Some(k) ==> (k < old(self).replies@.len() ==> {
                &&& final(self).replies@[k as int].upvotes == a.original_upvotes
                &&& final(self).replies@[k as int].downvotes == a.original_downvotes
                &&& opt_view(final(self).replies@[k as int].user_vote) == opt_view(a.previous_vote)
                &&& final(self).replies@[k as int].same_except_votes(&old(self).replies@[k as int])
            }),
    {
        if a.on_main {
            if let Some(p) = &mut self.post {
                p.upvotes = a.original_upvotes;
                p.downvotes = a.original_downvotes;
                p.user_vote = clone_opt_string(&a.previous_vote);
            }
        }
        if let Some(k) = a.on_reply {
            if k < self.replies.len() {
                restore_at(&mut self.replies, k, a);
            }
        }
    }

    /// A vote request failed with error text `error`: the optimistic change
    /// is undone as `revert_vote` does, and the error shown is the
    /// categorized one.
    pub fn apply_vote_failure(&mut self, a: &VoteAttempt, error: &str, is_macos: bool)
        ensures
            final(self).same_outside_votes_but_error(&*old(self)),
            final(self).error matches Some(m) && m@ == spec_categorize_error(
                error@,
                lowercase(error@),
                is_macos,
            ),
            final(self).modal_selected == old(self).modal_selected,
            final(self).modal_expanded_posts@ == old(self).modal_expanded_posts@,
            final(self).replies@.len() == old(self).replies@.len(),
            if a.on_main && old(self).post is Some {
                &&& final(self).post is Some
                &&& final(self).post->0.upvotes == a.original_upvotes
                &&& final(self).post->0.downvotes == a.original_downvotes
                &&& opt_view(final(self).post->0.user_vote) == opt_view(a.previous_vote)
                &&& final(self).post->0.same_except_votes(&old(self).post->0)
            } else {
                final(self).post == old(self).post
            },
            forall|j: int|
                0 <= j < old(self).replies@.len() && Some(j as usize) != a.on_reply
                    ==> final(self).replies@[j] == old(self).replies@[j],
            a.on_reply matches Some(k) ==> (k < old(self).replies@.len() ==> {
                &&& final(self).replies@[k as int].upvotes == a.original_upvotes
                &&& final(self).replies@[k as int].downvotes == a.original_downvotes
                &&& opt_view(final(self).replies@[k as int].user_vote) == opt_view(a.previous_vote)
                &&& final(self).replies@[k as int].same_except_votes(&old(self).replies@[k as int])
            }),
    {
        self.revert_vote(a);
        self.error = Some(categorize_error(error, is_macos));
    }

    /// Fields other than the posts and the modal's are unchanged.
    /// Fields other than the votes, the modal's and the error are unchanged.
    pub open spec fn same_outside_votes_but_error(&self, o: &PostDetailState) -> bool {
        &&& self.reply_selected == o.reply_selected
        &&& self.loading == o.loading
        &&& self.message == o.message
        &&& self.show_reply_composer == o.show_reply_composer
        &&& self.reply_content == o.reply_content
        &&& self.show_delete_confirmation == o.show_delete_confirmation
        &&& self.previous_feed_position == o.previous_feed_position
        &&& self.show_full_post_modal == o.show_full_post_modal
        &&& self.full_post_modal_id == o.full_post_modal_id
    }

    pub open spec fn same_outside_modal_votes(&self, o: &PostDetailState) -> bool {
        &&& self.reply_selected == o.reply_selected
        &&& self.loading == o.loading
        &&& self.error == o.error
        &&& self.message == o.message
        &&& self.show_reply_composer == o.show_reply_composer
        &&& self.reply_content == o.reply_content
        &&& self.show_delete_confirmation == o.show_delete_confirmation
        &&& self.previous_feed_position == o.previous_feed_position
        &&& self.show_full_post_modal == o.show_full_post_modal
        &&& self.full_post_modal_id == o.full_post_modal_id
    }
}

fn restore_at(v: &mut Vec<Post>, k: usize, a: &VoteAttempt)
    requires
        k < old(v)@.len(),
    ensures
        final(v)@.len() == old(v)@.len(),
        forall|j: int| 0 <= j < old(v)@.len() && j != k ==> final(v)@[j] == old(v)@[j],
        final(v)@[k as int].upvotes == a.original_upvotes,
        final(v)@[k as int].downvotes == a.original_downvotes,
        opt_view(final(v)@[k as int].user_vote) == opt_view(a.previous_vote),
        final(v)@[k as int].same_except_votes(&old(v)@[k as int]),
{
    v[k].upvotes = a.original_upvotes;
    v[k].downvotes = a.original_downvotes;
    v[k].user_vote = clone_opt_string(&a.previous_vote);
}

pub proof fn lemma_direct_indices_range(s: Seq<Post>, n: int)
    requires
        n <= s.len(),
        n <= usize::MAX,
    ensures
        forall|i: int|
            0 <= i < direct_indices(s, n).len() ==> 0 <= #[trigger] direct_indices(s, n)[i] < n,
    decreases n,
{
    if n > 0 {
        lemma_direct_indices_range(s, n - 1);
        let prev = direct_indices(s, n - 1);
        if is_direct(s, s[n - 1]) {
            assert(direct_indices(s, n) == prev.push((n - 1) as usize));
            assert forall|i: int| 0 <= i < direct_indices(s, n).len() implies 0
                <= #[trigger] direct_indices(s, n)[i] < n by {
                if i < prev.len() {
                    assert(direct_indices(s, n)[i] == prev[i]);
                }
            }
        }
    }
}

/// The thread to load again after a reply to `parent_id`: the thread on
/// show, or the parent's own when none is.
pub fn reply_thread_to_reload(detail: &Option<PostDetailState>, parent_id: u128) -> (r: u128)
    ensures
        r == (match detail {
            Some(d) => match d.post {
                Some(p) => p.id,
                None => parent_id,
            },
            None => parent_id,
        }),
{
    match detail {
        Some(d) => match &d.post {
            Some(p) => p.id,
            None => parent_id,
        },
        None => parent_id,
    }
}

/// What `modal_next_reply` does to the view.
pub open spec fn after_modal_next_reply(o: PostDetailState, s1: PostDetailState) -> bool {
    &&& (s1.same_outside_modal(&o))
    &&& (s1.modal_expanded_posts@ == o.modal_expanded_posts@)
    &&& (({
        let cur = match o.modal_selected {
            Some(i) => i as int,
            None => 0,
        };
        if o.show_full_post_modal && cur < o.spec_modal_max_index() {
            s1.modal_selected == Some((cur + 1) as usize)
        } else {
            s1.modal_selected == o.modal_selected
        }
    }))
}

/// What `modal_previous_reply` does to the view.
pub open spec fn after_modal_previous_reply(o: PostDetailState, s1: PostDetailState) -> bool {
    &&& (s1.same_outside_modal(&o))
    &&& (s1.modal_expanded_posts@ == o.modal_expanded_posts@)
    &&& (({
        let cur = match o.modal_selected {
            Some(i) => i as int,
            None => 0,
        };
        if o.show_full_post_modal && cur > 0 {
            s1.modal_selected == Some((cur - 1) as usize)
        } else {
            s1.modal_selected == o.modal_selected
        }
    }))
}

/// What `modal_toggle_expansion` does to the view.
pub open spec fn after_modal_toggle_expansion(o: PostDetailState, s1: PostDetailState) -> bool {
    &&& (s1.same_outside_modal(&o))
    &&& (s1.modal_selected == o.modal_selected)
    &&& (s1.modal_expanded_posts@ == (if o.show_full_post_modal {
        match o.spec_modal_target() {
            Some(t) => o.modal_expanded_posts@.insert(
                t,
                !expanded(o.modal_expanded_posts@, t),
            ),
            None => o.modal_expanded_posts@,
        }
    } else {
        o.modal_expanded_posts@
    }))
}

/// What `open_full_post_modal` does to the view.
pub open spec fn after_open_full_post_modal(o: PostDetailState, s1: PostDetailState) -> bool {
    &&& (({
        let d = direct_indices(o.replies@, o.replies@.len() as int);
        let target = match o.reply_selected {
            Some(i) => if i < d.len() {
                Some(o.replies@[d[i as int] as int].id)
            } else {
                None
            },
            None => match o.post {
                Some(p) => Some(p.id),
                None => None,
            },
        };
        match target {
            Some(t) => {
                &&& s1.full_post_modal_id == Some(t)
                &&& s1.show_full_post_modal
                &&& s1.modal_selected == Some(0usize)
                &&& s1.modal_expanded_posts@ == Map::<u128, bool>::empty()
            },
            None => {
                &&& s1.full_post_modal_id == o.full_post_modal_id
                &&& s1.show_full_post_modal == o.show_full_post_modal
                &&& s1.modal_selected == o.modal_selected
                &&& s1.modal_expanded_posts@ == o.modal_expanded_posts@
            },
        }
    }))
    &&& (s1.post == o.post)
    &&& (s1.replies == o.replies)
    &&& (s1.reply_selected == o.reply_selected)
    &&& (s1.show_delete_confirmation == o.show_delete_confirmation)
    &&& (s1.previous_feed_position == o.previous_feed_position)
    &&& (s1.loading == o.loading)
    &&& (s1.error == o.error)
    &&& (s1.message == o.message)
    &&& (s1.show_reply_composer == o.show_reply_composer)
    &&& (s1.reply_content == o.reply_content)
}

} // verus!
