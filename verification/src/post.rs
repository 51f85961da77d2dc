//! Posts as the client sees them, and the optimistic vote update.
use vstd::prelude::*;
use crate::text::{owned, str_eq};

verus! {

/// A post or reply, holding the fields the client logic reads.
pub struct Post {
    pub id: u128,
    pub author_id: u128,
    pub author_username: String,
    pub content: String,
    pub community_id: u128,
    pub parent_post_id: Option<u128>,
    pub upvotes: i32,
    pub downvotes: i32,
    /// The current user's vote: `"up"`, `"down"`, or none.
    pub user_vote: Option<String>,
    /// Creation time, in seconds since the epoch.
    pub created_at: i64,
    pub hashtags: Vec<String>,
    pub approved: bool,
    /// How many replies the post has.
    pub reply_count: i32,
}

/// Direction of a vote sent to the server.
#[derive(Debug, Clone, Copy, PartialEq, Eq, Structural)]
pub enum VoteDirection {
    Up,
    Down,
}

pub open spec fn up_str() -> Seq<char> {
    seq!['u', 'p']
}

pub open spec fn down_str() -> Seq<char> {
    seq!['d', 'o', 'w', 'n']
}

/// The direction named by `s`, if it names one.
pub open spec fn spec_vote_direction(s: Seq<char>) -> Option<VoteDirection> {
    if s == up_str() {
        Some(VoteDirection::Up)
    } else if s == down_str() {
        Some(VoteDirection::Down)
    } else {
        None
    }
}

impl VoteDirection {
    /// Parse `"up"` or `"down"`.
    pub fn from_str(s: &str) -> (r: Option<VoteDirection>)
        ensures
            r == spec_vote_direction(s@),
    {
        proof {
            reveal_strlit("up");
            reveal_strlit("down");
            assert("up"@ =~= up_str());
            assert("down"@ =~= down_str());
        }
        if str_eq(s, "up") {
            Some(VoteDirection::Up)
        } else if str_eq(s, "down") {
            Some(VoteDirection::Down)
        } else {
            None
        }
    }

    /// The wire name: `"up"` or `"down"`.
    pub fn as_str(&self) -> (r: &'static str)
        ensures
            r@ == (match *self {
                VoteDirection::Up => up_str(),
                VoteDirection::Down => down_str(),
            }),
    {
        proof {
            reveal_strlit("up");
            reveal_strlit("down");
            assert("up"@ =~= up_str());
            assert("down"@ =~= down_str());
        }
        match self {
            VoteDirection::Up => "up",
            VoteDirection::Down => "down",
        }
    }
}

/// Vote counts and the user's own vote, taken as plain values.
pub struct VoteTally {
    pub upvotes: int,
    pub downvotes: int,
    pub user_vote: Option<Seq<char>>,
}

/// The optimistic change a vote `dir` makes when the user's previous vote
/// is `prev`: a repeated vote changes nothing, a first vote adds one to its
/// side, and switching sides moves one vote from the old side to the new.
/// The result holds the change in upvotes, the change in downvotes and the
/// vote to record.
pub open spec fn vote_change(prev: Option<Seq<char>>, dir: Seq<char>) -> Option<(int, int, Seq<char>)> {
    if prev == Some(dir) {
        None
    } else if prev is None && dir == up_str() {
        Some((1, 0, up_str()))
    } else if prev is None && dir == down_str() {
        Some((0, 1, down_str()))
    } else if prev == Some(down_str()) && dir == up_str() {
        Some((1, -1, up_str()))
    } else if prev == Some(up_str()) && dir == down_str() {
        Some((-1, 1, down_str()))
    } else {
        None
    }
}

/// The tally after applying a change computed from `prev`.
pub open spec fn tally_after(t: VoteTally, prev: Option<Seq<char>>, dir: Seq<char>) -> VoteTally {
    match vote_change(prev, dir) {
        Some((du, dd, v)) => VoteTally {
            upvotes: t.upvotes + du,
            downvotes: t.downvotes + dd,
            user_vote: Some(v),
        },
        None => t,
    }
}

/// The tally after the user votes `dir` on a post whose tally is `t`.
pub open spec fn vote_outcome(t: VoteTally, dir: Seq<char>) -> VoteTally {
    tally_after(t, t.user_vote, dir)
}

/// A vote change in executable form.
#[derive(Debug, Clone, Copy, PartialEq, Eq, Structural)]
pub struct VoteChange {
    pub up_delta: i32,
    pub down_delta: i32,
    pub new_vote: VoteDirection,
}

pub open spec fn change_view(c: Option<VoteChange>) -> Option<(int, int, Seq<char>)> {
    match c {
        Some(c) => Some((
            c.up_delta as int,
            c.down_delta as int,
            match c.new_vote {
                VoteDirection::Up => up_str(),
                VoteDirection::Down => down_str(),
            },
        )),
        None => None,
    }
}

pub open spec fn opt_view(v: Option<String>) -> Option<Seq<char>> {
    match v {
        Some(s) => Some(s@),
        None => None,
    }
}

/// Compute the change a vote `dir` makes after the previous vote `prev`.
pub fn compute_vote_change(prev: &Option<String>, dir: &str) -> (r: Option<VoteChange>)
    ensures
        change_view(r) == vote_change(opt_view(*prev), dir@),
{
    proof {
        reveal_strlit("up");
        reveal_strlit("down");
        assert("up"@ =~= up_str());
        assert("down"@ =~= down_str());
    }
    let is_up = str_eq(dir, "up");
    let is_down = str_eq(dir, "down");
    match prev {
        Some(p) => {
            if str_eq(p.as_str(), dir) {
                None
            } else if str_eq(p.as_str(), "down") && is_up {
                Some(VoteChange { up_delta: 1, down_delta: -1, new_vote: VoteDirection::Up })
            } else if str_eq(p.as_str(), "up") && is_down {
                Some(VoteChange { up_delta: -1, down_delta: 1, new_vote: VoteDirection::Down })
            } else {
                None
            }
        },
        None => {
            if is_up {
                Some(VoteChange { up_delta: 1, down_delta: 0, new_vote: VoteDirection::Up })
            } else if is_down {
                Some(VoteChange { up_delta: 0, down_delta: 1, new_vote: VoteDirection::Down })
            } else {
                None
            }
        },
    }
}

/// What follows an optimistic vote update.
#[derive(Debug, Clone, Copy, PartialEq, Eq, Structural)]
pub enum VoteRequest {
    /// The user repeated their vote: nothing is sent.
    Ignored,
    /// Send this vote to the server.
    Send(VoteDirection),
    /// The direction names no vote: the caller reports an error.
    InvalidDirection,
}

pub open spec fn vote_request(prev: Option<Seq<char>>, dir: Seq<char>) -> VoteRequest {
    if prev == Some(dir) {
        VoteRequest::Ignored
    } else {
        match spec_vote_direction(dir) {
            Some(d) => VoteRequest::Send(d),
            None => VoteRequest::InvalidDirection,
        }
    }
}

impl Post {
    pub open spec fn tally(&self) -> VoteTally {
        VoteTally {
            upvotes: self.upvotes as int,
            downvotes: self.downvotes as int,
            user_vote: match self.user_vote {
                Some(v) => Some(v@),
                None => None,
            },
        }
    }

    /// The vote counts fit in `i32` after a change computed from `prev`.
    pub open spec fn change_fits(&self, prev: Option<Seq<char>>, dir: Seq<char>) -> bool {
        let t = tally_after(self.tally(), prev, dir);
        i32::MIN <= t.upvotes <= i32::MAX && i32::MIN <= t.downvotes <= i32::MAX
    }

    /// The vote counts fit in `i32` after voting `dir`.
    pub open spec fn vote_fits(&self, dir: Seq<char>) -> bool {
        self.change_fits(self.tally().user_vote, dir)
    }

    /// Everything but the vote counts and the user's vote is unchanged.
    pub open spec fn same_except_votes(&self, other: &Post) -> bool {
        &&& self.id == other.id
        &&& self.author_id == other.author_id
        &&& self.author_username == other.author_username
        &&& self.content == other.content
        &&& self.community_id == other.community_id
        &&& self.parent_post_id == other.parent_post_id
        &&& self.created_at == other.created_at
        &&& self.hashtags == other.hashtags
        &&& self.approved == other.approved
        &&& self.reply_count == other.reply_count
    }

    /// Apply a computed vote change to the local counts.
    pub fn apply_change(&mut self, c: Option<VoteChange>)
        requires
            change_view(c) matches Some((du, dd, _)) ==> i32::MIN <= old(self).upvotes + du
                <= i32::MAX && i32::MIN <= old(self).downvotes + dd <= i32::MAX,
        ensures
            final(self).tally() == (match change_view(c) {
                Some((du, dd, v)) => VoteTally {
                    upvotes: old(self).tally().upvotes + du,
                    downvotes: old(self).tally().downvotes + dd,
                    user_vote: Some(v),
                },
                None => old(self).tally(),
            }),
            final(self).same_except_votes(&*old(self)),
    {
        if let Some(ch) = c {
            self.upvotes = self.upvotes + ch.up_delta;
            self.downvotes = self.downvotes + ch.down_delta;
            self.user_vote = Some(crate::text::owned(ch.new_vote.as_str()));
        }
    }

    /// Apply the user's vote `dir` to the local counts and say what to send.
    pub fn apply_vote(&mut self, dir: &str) -> (r: VoteRequest)
        requires
            old(self).vote_fits(dir@),
        ensures
            final(self).tally() == vote_outcome(old(self).tally(), dir@),
            r == vote_request(old(self).tally().user_vote, dir@),
            final(self).same_except_votes(&*old(self)),
    {
        let c = compute_vote_change(&self.user_vote, dir);
        if let Some(prev) = &self.user_vote {
            if str_eq(prev.as_str(), dir) {
                return VoteRequest::Ignored;
            }
        }
        self.apply_change(c);
        match VoteDirection::from_str(dir) {
            Some(d) => VoteRequest::Send(d),
            None => VoteRequest::InvalidDirection,
        }
    }
}

/// What a vote does to the counts: a first upvote adds one upvote and a
/// first downvote one downvote; an upvote after a downvote moves one vote
/// from down to up and a downvote after an upvote the other way; repeating
/// the recorded vote changes nothing. The user's vote is then the new one.
pub proof fn lemma_vote_effects(up: int, down: int)
    ensures
        vote_outcome(VoteTally { upvotes: up, downvotes: down, user_vote: None }, up_str())
            == (VoteTally { upvotes: up + 1, downvotes: down, user_vote: Some(up_str()) }),
        vote_outcome(VoteTally { upvotes: up, downvotes: down, user_vote: None }, down_str())
            == (VoteTally { upvotes: up, downvotes: down + 1, user_vote: Some(down_str()) }),
        vote_outcome(VoteTally { upvotes: up, downvotes: down, user_vote: Some(down_str()) }, up_str())
            == (VoteTally { upvotes: up + 1, downvotes: down - 1, user_vote: Some(up_str()) }),
        vote_outcome(VoteTally { upvotes: up, downvotes: down, user_vote: Some(up_str()) }, down_str())
            == (VoteTally { upvotes: up - 1, downvotes: down + 1, user_vote: Some(down_str()) }),
        vote_outcome(VoteTally { upvotes: up, downvotes: down, user_vote: Some(up_str()) }, up_str())
            == (VoteTally { upvotes: up, downvotes: down, user_vote: Some(up_str()) }),
        vote_outcome(VoteTally { upvotes: up, downvotes: down, user_vote: Some(down_str()) }, down_str())
            == (VoteTally { upvotes: up, downvotes: down, user_vote: Some(down_str()) }),
{
    assert(up_str() != down_str()) by {
        assert(up_str().len() != down_str().len());
    }
}

/// Voting the same way twice is the same as voting once.
pub proof fn lemma_vote_idempotent(t: VoteTally, dir: Seq<char>)
    requires
        spec_vote_direction(dir) is Some,
    ensures
        vote_outcome(vote_outcome(t, dir), dir) == vote_outcome(t, dir),
{
}

/// A vote never changes the net score by more than two, and a valid first
/// vote or switch always records the user's vote as `dir`.
pub proof fn lemma_vote_records_direction(t: VoteTally, dir: Seq<char>)
    requires
        spec_vote_direction(dir) is Some,
        t.user_vote is None || spec_vote_direction(t.user_vote->0) is Some,
    ensures
        vote_outcome(t, dir).user_vote == Some(dir),
        -2 <= (vote_outcome(t, dir).upvotes - vote_outcome(t, dir).downvotes) - (t.upvotes
            - t.downvotes) <= 2,
{
}

} // verus!

verus! {

/// Apply a vote change to the reply at `k`, leaving the others as they are.
pub fn apply_change_at(v: &mut Vec<Post>, k: usize, c: Option<VoteChange>)
    requires
        k < old(v)@.len(),
        change_view(c) matches Some((du, dd, _)) ==> i32::MIN <= old(v)@[k as int].upvotes + du
            <= i32::MAX && i32::MIN <= old(v)@[k as int].downvotes + dd <= i32::MAX,
    ensures
        final(v)@.len() == old(v)@.len(),
        forall|j: int| 0 <= j < old(v)@.len() && j != k ==> final(v)@[j] == old(v)@[j],
        final(v)@[k as int].tally() == (match change_view(c) {
            Some((du, dd, nv)) => VoteTally {
                upvotes: old(v)@[k as int].tally().upvotes + du,
                downvotes: old(v)@[k as int].tally().downvotes + dd,
                user_vote: Some(nv),
            },
            None => old(v)@[k as int].tally(),
        }),
        final(v)@[k as int].same_except_votes(&old(v)@[k as int]),
{
    v[k].apply_change(c);
}

} // verus!
