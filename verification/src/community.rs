//! The community whose board is shown, and how it relates to the GitHub
//! repository the client was launched in: repo mode (launched inside a
//! repository, whose community is the board) and home mode (anywhere else,
//! with a list of joined communities).
use vstd::prelude::*;
use crate::feed::PostsState;
use crate::repo::RepoRef;
use crate::text::{chars_of, concat, string_from_chars};

verus! {

/// The user's role in a community.
#[derive(Debug, Clone, Copy, PartialEq, Eq, Structural)]
pub enum MembershipRole {
    Admin,
    Member,
}

/// The community whose board is shown.
#[derive(Debug)]
pub struct CommunityContext {
    pub id: u128,
    pub owner: String,
    pub name: String,
    /// The user's role, when they are a member.
    pub role: Option<MembershipRole>,
    pub member_count: i64,
    /// Someone has claimed the community as its admin.
    pub claimed: bool,
}

fn cat2(a: &str, b: &str) -> (r: Vec<char>)
    ensures
        r@ == a@ + b@,
{
    let x = chars_of(a);
    let y = chars_of(b);
    concat(x.as_slice(), y.as_slice())
}

fn push_str(v: Vec<char>, s: &str) -> (r: Vec<char>)
    ensures
        r@ == v@ + s@,
{
    let y = chars_of(s);
    concat(v.as_slice(), y.as_slice())
}

impl CommunityContext {
    /// `owner/name`.
    pub fn full_name(&self) -> (r: String)
        ensures
            r@ == self.owner@ + "/"@ + self.name@,
    {
        proof {
            reveal_strlit("/");
        }
        let o = chars_of(self.owner.as_str());
        let slash = chars_of("/");
        let n = chars_of(self.name.as_str());
        let a = concat(o.as_slice(), slash.as_slice());
        let b = concat(a.as_slice(), n.as_slice());
        string_from_chars(b.as_slice())
    }
}

/// The id of the community whose board is shown.
pub fn current_community_id(community: &Option<CommunityContext>) -> (r: Option<u128>)
    ensures
        r == (match community {
            Some(c) => Some(c.id),
            None => None,
        }),
{
    match community {
        Some(c) => Some(c.id),
        None => None,
    }
}

/// Home mode with no board open: the joined-communities list is the Posts
/// view.
pub fn is_home_list_active(launch_repo: &Option<RepoRef>, community: &Option<CommunityContext>) -> (r:
    bool)
    ensures
        r == (launch_repo is None && community is None),
{
    launch_repo.is_none() && community.is_none()
}

/// In repo mode, the board shown is not the launch repository's: the user
/// browsed away from it.
pub fn is_away_from_launch_community(
    launch_repo: &Option<RepoRef>,
    community: &Option<CommunityContext>,
) -> (r: bool)
    ensures
        r == (match (launch_repo, community) {
            (Some(repo), Some(c)) => c.owner@ != repo.owner@ || c.name@ != repo.name@,
            _ => false,
        }),
{
    match (launch_repo, community) {
        (Some(repo), Some(c)) => !crate::text::str_eq(c.owner.as_str(), repo.owner.as_str())
            || !crate::text::str_eq(c.name.as_str(), repo.name.as_str()),
        _ => false,
    }
}

/// The user administers the community shown.
pub fn is_current_community_admin(community: &Option<CommunityContext>) -> (r: bool)
    ensures
        r == (match community {
            Some(c) => c.role == Some(MembershipRole::Admin),
            None => false,
        }),
{
    match community {
        Some(c) => match c.role {
            Some(MembershipRole::Admin) => true,
            _ => false,
        },
        None => false,
    }
}

/// The community modal offers to claim the community: one is shown and
/// nobody has claimed it.
pub fn can_claim(community: &Option<CommunityContext>) -> (r: bool)
    ensures
        r == (match community {
            Some(c) => !c.claimed,
            None => false,
        }),
{
    match community {
        Some(c) => !c.claimed,
        None => false,
    }
}

/// The notice after returning to the launch repository's board.
pub fn returned_message(repo: &RepoRef) -> (r: String)
    ensures
        r@ == "Returned to "@ + repo.owner@ + "/"@ + repo.name@,
{
    let v = cat2("Returned to ", repo.owner.as_str());
    let v = push_str(v, "/");
    let v = push_str(v, repo.name.as_str());
    string_from_chars(v.as_slice())
}

/// The error when the launch repository's community could not be entered;
/// `error` is the categorized error.
pub fn join_error_message(owner: &str, name: &str, error: &str) -> (r: String)
    ensures
        r@ == "Could not open the "@ + owner@ + "/"@ + name@ + " community: "@ + error@,
{
    let v = cat2("Could not open the ", owner);
    let v = push_str(v, "/");
    let v = push_str(v, name);
    let v = push_str(v, " community: ");
    let v = push_str(v, error);
    string_from_chars(v.as_slice())
}

/// The notice after claiming the community: success, or the categorized
/// `error`.
pub fn claim_message(error: Option<&str>) -> (r: String)
    ensures
        r@ == (match error {
            None => "Community claimed - you are now admin"@,
            Some(e) => "Claim failed: "@ + e@,
        }),
{
    match error {
        None => crate::text::owned("Community claimed - you are now admin"),
        Some(e) => {
            let a = chars_of("Claim failed: ");
            let b = chars_of(e);
            let m = concat(a.as_slice(), b.as_slice());
            string_from_chars(m.as_slice())
        },
    }
}

impl PostsState {
    /// Leave a board: its posts, selection and error go.
    pub fn clear_for_closed_community(&mut self)
        ensures
            *final(self) == (PostsState {
                posts: final(self).posts,
                selected: None,
                error: None,
                ..*old(self)
            }),
            final(self).posts@.len() == 0,
    {
        self.posts.clear();
        self.selected = None;
        self.error = None;
    }
}

} // verus!
