//! Following, followers and friends; user search; other users' profiles;
//! followed hashtags; and the user's own profile with its bio editor.
use vstd::prelude::*;
use crate::error::{lowercase, to_lowercase};
use crate::keys::{down_key, is_down_key, is_up_key, up_key, KeyCode};
use crate::post::Post;
use crate::state::{HashtagsState, InputMode, SocialTab};
use crate::text::{
    chars_of, contains, contains_exec, contains_str, join_strs, owned, pop_char, push_char,
    string_from_chars,
};

verus! {

/// A user in a social list.
pub struct UserInfo {
    pub id: u128,
    pub username: String,
    pub follower_count: usize,
    pub following_count: usize,
}

/// A user found by a search.
pub struct UserSearchResult {
    pub id: u128,
    pub username: String,
}

/// The social-connections modal.
pub struct FriendsState {
    pub show_friends_modal: bool,
    pub selected_tab: SocialTab,
    pub following: Vec<UserInfo>,
    pub followers: Vec<UserInfo>,
    pub mutual_friends: Vec<UserInfo>,
    pub selected_index: usize,
    pub search_query: String,
    pub search_mode: bool,
    pub error: Option<String>,
    pub loading: bool,
    /// Reopen the modal after the profile opened from it is closed.
    pub return_to_modal_after_profile: bool,
}

/// `name` passes the search `query`: every name passes an empty query;
/// otherwise the lowercase name contains the lowercase query.
pub open spec fn name_matches(name: Seq<char>, query: Seq<char>) -> bool {
    query.len() == 0 || contains(lowercase(name), lowercase(query))
}

/// `r` lists, in increasing order, exactly the positions of `users` whose
/// name passes `query`.
pub open spec fn is_filtered(users: Seq<UserInfo>, query: Seq<char>, r: Seq<usize>) -> bool {
    &&& forall|a: int, b: int| 0 <= a < b < r.len() ==> r[a] < r[b]
    &&& forall|k: int|
        0 <= k < r.len() ==> r[k] < users.len() && name_matches(
            users[r[k] as int].username@,
            query,
        )
    &&& forall|i: usize|
        i < users.len() && name_matches(users[i as int].username@, query) ==> #[trigger] r.contains(i)
}

/// The positions of `users` whose name passes `query`, in order.
pub fn filter_users(users: &Vec<UserInfo>, query: &str) -> (r: Vec<usize>)
    ensures
        is_filtered(users@, query@, r@),
{
    let q = to_lowercase(query);
    let qc = chars_of(q.as_str());
    let empty = query.is_empty();
    proof {
        assert(empty == (query@.len() == 0));
    }
    let mut r: Vec<usize> = Vec::new();
    let mut i: usize = 0;
    while i < users.len()
        invariant
            0 <= i <= users@.len(),
            qc@ == lowercase(query@),
            empty == (query@.len() == 0),
            forall|a: int, b: int| 0 <= a < b < r@.len() ==> r@[a] < r@[b],
            forall|k: int|
                0 <= k < r@.len() ==> r@[k] < i && name_matches(
                    users@[r@[k] as int].username@,
                    query@,
                ),
            forall|j: usize|
                j < i && name_matches(users@[j as int].username@, query@) ==> #[trigger] r@.contains(j),
        decreases users@.len() - i,
    {
        let keep = if empty {
            true
        } else {
            let n = to_lowercase(users[i].username.as_str());
            let nc = chars_of(n.as_str());
            contains_exec(nc.as_slice(), qc.as_slice())
        };
        let ghost before = r@;
        if keep {
            r.push(i);
        }
        proof {
            assert forall|j: usize|
                j < i + 1 && name_matches(users@[j as int].username@, query@) implies #[trigger] r@.contains(j) by {
                if j < i {
                    assert(before.contains(j));
                    let t = choose|t: int| 0 <= t < before.len() && before[t] == j;
                    assert(r@[t] == j);
                } else {
                    assert(r@[r@.len() - 1] == j);
                }
            }
        }
        i = i + 1;
    }
    r
}

/// The list shown on tab `tab`.
pub open spec fn list_of(s: FriendsState) -> Seq<UserInfo> {
    match s.selected_tab {
        SocialTab::Following => s.following@,
        SocialTab::Followers => s.followers@,
        SocialTab::MutualFriends => s.mutual_friends@,
    }
}

pub open spec fn social_tab_next(t: SocialTab) -> SocialTab {
    match t {
        SocialTab::Following => SocialTab::Followers,
        SocialTab::Followers => SocialTab::MutualFriends,
        SocialTab::MutualFriends => SocialTab::Following,
    }
}

pub open spec fn social_tab_previous(t: SocialTab) -> SocialTab {
    match t {
        SocialTab::Following => SocialTab::MutualFriends,
        SocialTab::Followers => SocialTab::Following,
        SocialTab::MutualFriends => SocialTab::Followers,
    }
}

impl FriendsState {
    /// A closed, empty modal on the "Following" tab.
    pub fn new() -> (s: Self)
        ensures
            !s.show_friends_modal,
            s.selected_tab == SocialTab::Following,
            s.following@.len() == 0 && s.followers@.len() == 0 && s.mutual_friends@.len() == 0,
            s.selected_index == 0,
            s.search_query@.len() == 0,
            !s.search_mode,
            s.error is None,
            !s.loading,
            !s.return_to_modal_after_profile,
    {
        FriendsState {
            show_friends_modal: false,
            selected_tab: SocialTab::Following,
            following: Vec::new(),
            followers: Vec::new(),
            mutual_friends: Vec::new(),
            selected_index: 0,
            search_query: String::new(),
            search_mode: false,
            error: None,
            loading: false,
            return_to_modal_after_profile: false,
        }
    }

    /// Close the modal, leaving search and going back to the first row.
    pub fn close_friends_modal(&mut self)
        ensures
            *final(self) == (FriendsState {
                show_friends_modal: false,
                search_mode: false,
                search_query: final(self).search_query,
                selected_index: 0,
                error: None,
                ..*old(self)
            }),
            final(self).search_query@.len() == 0,
    {
        self.show_friends_modal = false;
        self.search_mode = false;
        self.search_query = String::new();
        self.selected_index = 0;
        self.error = None;
    }

    /// The positions of the users on the current tab that pass the search.
    pub fn get_filtered_social_list(&self) -> (r: Vec<usize>)
        ensures
            is_filtered(list_of(*self), self.search_query@, r@),
    {
        match self.selected_tab {
            SocialTab::Following => filter_users(&self.following, self.search_query.as_str()),
            SocialTab::Followers => filter_users(&self.followers, self.search_query.as_str()),
            SocialTab::MutualFriends => filter_users(
                &self.mutual_friends,
                self.search_query.as_str(),
            ),
        }
    }

    /// Handle a key in the social modal. While searching, characters
    /// extend the query, Backspace shortens it (both go back to the first
    /// row) and Esc leaves the search. Otherwise the arrows and `j`/`k`
    /// move within the filtered list, Tab/Right/`l` and BackTab/Left/`h`
    /// cycle the tabs, and `/` starts a search.
    pub fn handle_friends_modal_keys(&mut self, key: KeyCode)
        ensures
            old(self).search_mode ==> match key {
                KeyCode::Char(c) => *final(self) == (FriendsState {
                    search_query: final(self).search_query,
                    selected_index: 0,
                    ..*old(self)
                }) && final(self).search_query@ == old(self).search_query@.push(c),
                KeyCode::Backspace => *final(self) == (FriendsState {
                    search_query: final(self).search_query,
                    selected_index: 0,
                    ..*old(self)
                }) && final(self).search_query@ == (if old(self).search_query@.len() > 0 {
                    old(self).search_query@.drop_last()
                } else {
                    old(self).search_query@
                }),
                KeyCode::Esc => *final(self) == (FriendsState {
                    search_mode: false,
                    search_query: final(self).search_query,
                    ..*old(self)
                }) && final(self).search_query@.len() == 0,
                _ => *final(self) == *old(self),
            },
            !old(self).search_mode ==> {
                if is_up_key(key) {
                    *final(self) == (FriendsState {
                        selected_index: (if old(self).selected_index > 0 {
                            old(self).selected_index - 1
                        } else {
                            0
                        }) as usize,
                        ..*old(self)
                    })
                } else if is_down_key(key) {
                    exists|r: Seq<usize>|
                        #![trigger is_filtered(list_of(*old(self)), old(self).search_query@, r)]
                        is_filtered(list_of(*old(self)), old(self).search_query@, r) && *final(self)
                            == (FriendsState {
                            selected_index: (if old(self).selected_index + 1 < r.len() {
                                old(self).selected_index + 1
                            } else {
                                old(self).selected_index as int
                            }) as usize,
                            ..*old(self)
                        })
                } else if key == KeyCode::Tab || key == KeyCode::Right || key == KeyCode::Char('l')
                    || key == KeyCode::Char('L') {
                    *final(self) == (FriendsState {
                        selected_tab: social_tab_next(old(self).selected_tab),
                        selected_index: 0,
                        ..*old(self)
                    })
                } else if key == KeyCode::BackTab || key == KeyCode::Left || key == KeyCode::Char(
                    'h',
                ) || key == KeyCode::Char('H') {
                    *final(self) == (FriendsState {
                        selected_tab: social_tab_previous(old(self).selected_tab),
                        selected_index: 0,
                        ..*old(self)
                    })
                } else if key == KeyCode::Char('/') {
                    *final(self) == (FriendsState {
                        search_mode: true,
                        search_query: final(self).search_query,
                        ..*old(self)
                    }) && final(self).search_query@.len() == 0
                } else {
                    *final(self) == *old(self)
                }
            },
    {
        if self.search_mode {
            match key {
                KeyCode::Char(c) => {
                    push_char(&mut self.search_query, c);
                    self.selected_index = 0;
                },
                KeyCode::Backspace => {
                    pop_char(&mut self.search_query);
                    self.selected_index = 0;
                },
                KeyCode::Esc => {
                    self.search_mode = false;
                    self.search_query = String::new();
                },
                _ => {},
            }
            return;
        }
        if up_key(key) {
            if self.selected_index > 0 {
                self.selected_index = self.selected_index - 1;
            }
        } else if down_key(key) {
            let filtered = self.get_filtered_social_list();
            let max_index = filtered.len().saturating_sub(1);
            if self.selected_index < max_index {
                self.selected_index = self.selected_index + 1;
            }
        } else if key == KeyCode::Tab || key == KeyCode::Right || key == KeyCode::Char('l')
            || key == KeyCode::Char('L') {
            self.selected_tab =
                match self.selected_tab {
                    SocialTab::Following => SocialTab::Followers,
                    SocialTab::Followers => SocialTab::MutualFriends,
                    SocialTab::MutualFriends => SocialTab::Following,
                };
            self.selected_index = 0;
        } else if key == KeyCode::BackTab || key == KeyCode::Left || key == KeyCode::Char('h')
            || key == KeyCode::Char('H') {
            self.selected_tab =
                match self.selected_tab {
                    SocialTab::Following => SocialTab::MutualFriends,
                    SocialTab::Followers => SocialTab::Following,
                    SocialTab::MutualFriends => SocialTab::Followers,
                };
            self.selected_index = 0;
        } else if key == KeyCode::Char('/') {
            self.search_mode = true;
            self.search_query = String::new();
        }
    }
}

/// The user-search modal.
pub struct UserSearchState {
    pub show_modal: bool,
    pub search_query: String,
    pub search_results: Vec<UserSearchResult>,
    pub selected_index: usize,
    pub loading: bool,
    pub error: Option<String>,
}

/// What a key in the user-search modal asks for beyond editing the query.
#[derive(Debug, Clone, Copy, PartialEq, Eq, Structural)]
pub enum UserSearchAction {
    Nothing,
    /// The query changed: search again.
    Search,
    /// Open the profile of the highlighted user.
    ViewProfile,
    /// Start a conversation with the highlighted user.
    StartDm,
}

/// The highlight after moving by `direction` in `len` results.
pub open spec fn search_step(current: usize, len: int, direction: i32) -> usize {
    if len == 0 {
        current
    } else if direction > 0 {
        (if current + 1 < len - 1 {
            current + 1
        } else {
            len - 1
        }) as usize
    } else {
        (if current > 0 {
            current - 1
        } else {
            0
        }) as usize
    }
}

impl UserSearchState {
    /// A closed modal with an empty query.
    pub fn new() -> (s: Self)
        ensures
            !s.show_modal,
            s.search_query@.len() == 0,
            s.search_results@.len() == 0,
            s.selected_index == 0,
            !s.loading,
            s.error is None,
    {
        UserSearchState {
            show_modal: false,
            search_query: String::new(),
            search_results: Vec::new(),
            selected_index: 0,
            loading: false,
            error: None,
        }
    }

    /// Open the modal with an empty query, ready for typing.
    pub fn open_user_search_modal(&mut self, input_mode: &mut InputMode)
        ensures
            final(self).show_modal,
            final(self).search_query@.len() == 0,
            final(self).search_results@.len() == 0,
            final(self).selected_index == 0,
            final(self).error is None,
            final(self).loading == old(self).loading,
            *final(input_mode) == InputMode::Typing,
    {
        self.show_modal = true;
        self.search_query = String::new();
        self.search_results.clear();
        self.selected_index = 0;
        self.error = None;
        *input_mode = InputMode::Typing;
    }

    /// Close the modal and forget the search.
    pub fn close_user_search_modal(&mut self, input_mode: &mut InputMode)
        ensures
            !final(self).show_modal,
            final(self).search_query@.len() == 0,
            final(self).search_results@.len() == 0,
            final(self).selected_index == 0,
            final(self).error == old(self).error,
            final(self).loading == old(self).loading,
            *final(input_mode) == InputMode::Navigation,
    {
        self.show_modal = false;
        self.search_query = String::new();
        self.search_results.clear();
        self.selected_index = 0;
        *input_mode = InputMode::Navigation;
    }

    /// Move the highlight down (`direction > 0`) or up, within the results.
    pub fn user_search_navigate(&mut self, direction: i32)
        ensures
            *final(self) == (UserSearchState {
                selected_index: search_step(
                    old(self).selected_index,
                    old(self).search_results@.len() as int,
                    direction,
                ),
                ..*old(self)
            }),
    {
        let len = self.search_results.len();
        if len == 0 {
            return;
        }
        let current = self.selected_index;
        self.selected_index =
            if direction > 0 {
                if current < len - 1 && current + 1 < len - 1 {
                    current + 1
                } else {
                    len - 1
                }
            } else {
                current.saturating_sub(1)
            };
    }

    /// Handle a key in the search modal: the arrows and `j`/`k` move, `d`
    /// starts a conversation, Enter opens the profile, Backspace and other
    /// characters edit the query.
    pub fn handle_user_search_modal_keys(&mut self, key: KeyCode) -> (r: UserSearchAction)
        ensures
            match key {
                KeyCode::Down => r == UserSearchAction::Nothing && *final(self) == (UserSearchState {
                    selected_index: search_step(old(self).selected_index, old(self).search_results@.len() as int, 1i32),
                    ..*old(self)
                }),
                KeyCode::Up => r == UserSearchAction::Nothing && *final(self) == (UserSearchState {
                    selected_index: search_step(old(self).selected_index, old(self).search_results@.len() as int, -1i32),
                    ..*old(self)
                }),
                KeyCode::Backspace => r == UserSearchAction::Search && *final(self) == (UserSearchState {
                    search_query: final(self).search_query,
                    ..*old(self)
                }) && final(self).search_query@ == (if old(self).search_query@.len() > 0 {
                    old(self).search_query@.drop_last()
                } else {
                    old(self).search_query@
                }),
                KeyCode::Enter => r == UserSearchAction::ViewProfile && *final(self) == *old(self),
                KeyCode::Char(c) => if c == 'j' || c == 'J' {
                    r == UserSearchAction::Nothing && *final(self) == (UserSearchState {
                        selected_index: search_step(old(self).selected_index, old(self).search_results@.len() as int, 1i32),
                        ..*old(self)
                    })
                } else if c == 'k' || c == 'K' {
                    r == UserSearchAction::Nothing && *final(self) == (UserSearchState {
                        selected_index: search_step(old(self).selected_index, old(self).search_results@.len() as int, -1i32),
                        ..*old(self)
                    })
                } else if c == 'd' || c == 'D' {
                    r == UserSearchAction::StartDm && *final(self) == *old(self)
                } else {
                    r == UserSearchAction::Search && *final(self) == (UserSearchState {
                        search_query: final(self).search_query,
                        ..*old(self)
                    }) && final(self).search_query@ == old(self).search_query@.push(c)
                },
                _ => r == UserSearchAction::Nothing && *final(self) == *old(self),
            },
    {
        match key {
            KeyCode::Down => {
                self.user_search_navigate(1);
                UserSearchAction::Nothing
            },
            KeyCode::Up => {
                self.user_search_navigate(-1);
                UserSearchAction::Nothing
            },
            KeyCode::Backspace => {
                pop_char(&mut self.search_query);
                UserSearchAction::Search
            },
            KeyCode::Enter => UserSearchAction::ViewProfile,
            KeyCode::Char(c) => {
                if c == 'j' || c == 'J' {
                    self.user_search_navigate(1);
                    UserSearchAction::Nothing
                } else if c == 'k' || c == 'K' {
                    self.user_search_navigate(-1);
                    UserSearchAction::Nothing
                } else if c == 'd' || c == 'D' {
                    UserSearchAction::StartDm
                } else {
                    push_char(&mut self.search_query, c);
                    UserSearchAction::Search
                }
            },
            _ => UserSearchAction::Nothing,
        }
    }

    /// The query to search for, or None (after clearing the results) when it
    /// is shorter than two bytes.
    pub fn query_to_search(&mut self) -> (r: Option<String>)
        ensures
            crate::emoji::utf8_bytes(old(self).search_query@) < 2 ==> r is None && *final(self)
                == (UserSearchState { search_results: final(self).search_results, ..*old(self) })
                && final(self).search_results@.len() == 0,
            crate::emoji::utf8_bytes(old(self).search_query@) >= 2 ==> (r matches Some(q) && q@
                == old(self).search_query@) && *final(self) == (UserSearchState {
                loading: true,
                error: None,
                ..*old(self)
            }),
    {
        let cs = chars_of(self.search_query.as_str());
        if crate::emoji::utf8_bytes_below(cs.as_slice(), 2) {
            self.search_results.clear();
            return None;
        }
        self.loading = true;
        self.error = None;
        Some(owned(self.search_query.as_str()))
    }

    /// Show the results of a search, highlighting the first.
    pub fn apply_search_results(&mut self, results: Vec<UserSearchResult>)
        ensures
            *final(self) == (UserSearchState {
                search_results: results,
                selected_index: 0,
                loading: false,
                ..*old(self)
            }),
    {
        self.search_results = results;
        self.selected_index = 0;
        self.loading = false;
    }
}

/// How the current user relates to another user.
#[derive(Debug, Clone, Copy, PartialEq, Eq, Structural)]
pub enum RelationshipStatus {
    /// The profile is the current user's own.
    Self_,
    /// Neither follows the other.
    NoRelationship,
    Following,
    FollowsYou,
    MutualFriends,
}

pub open spec fn spec_next_relationship(rel: RelationshipStatus) -> Option<(bool, RelationshipStatus)> {
    match rel {
        RelationshipStatus::Self_ => Option::None,
        RelationshipStatus::NoRelationship => Some((true, RelationshipStatus::Following)),
        RelationshipStatus::FollowsYou => Some((true, RelationshipStatus::MutualFriends)),
        RelationshipStatus::Following => Some((false, RelationshipStatus::NoRelationship)),
        RelationshipStatus::MutualFriends => Some((false, RelationshipStatus::FollowsYou)),
    }
}

/// What a follow toggle does from `rel`: whether to follow (true) or
/// unfollow, and the relationship afterwards. None on one's own profile.
pub fn next_relationship_after_toggle(rel: &RelationshipStatus) -> (r: Option<(bool, RelationshipStatus)>)
    ensures
        r == spec_next_relationship(*rel),
{
    match rel {
        RelationshipStatus::Self_ => Option::None,
        RelationshipStatus::NoRelationship => Some((true, RelationshipStatus::Following)),
        RelationshipStatus::FollowsYou => Some((true, RelationshipStatus::MutualFriends)),
        RelationshipStatus::Following => Some((false, RelationshipStatus::NoRelationship)),
        RelationshipStatus::MutualFriends => Some((false, RelationshipStatus::FollowsYou)),
    }
}

/// Toggling twice from a relationship other than one's own comes back to it.
pub proof fn lemma_toggle_twice(rel: RelationshipStatus)
    requires
        rel != RelationshipStatus::Self_,
    ensures
        spec_next_relationship(rel) matches Some((f1, r1)) && spec_next_relationship(r1) matches Some(
            (f2, r2),
        ) && r2 == rel && f1 != f2,
{
}

/// Another user's profile as shown in the profile view.
pub struct UserProfileViewState {
    pub user_id: u128,
    pub username: String,
    pub bio: Option<String>,
    pub join_date: String,
    pub follower_count: usize,
    pub following_count: usize,
    pub post_count: usize,
    pub relationship: RelationshipStatus,
    pub error: Option<String>,
}

impl UserProfileViewState {
    /// The follow request a toggle makes now: the user and whether to
    /// follow, with the relationship to show once it succeeds. None when
    /// the view shows an error or is one's own profile.
    pub fn follow_toggle_request(&self) -> (r: Option<(u128, bool, RelationshipStatus)>)
        ensures
            r == (if self.error is Some {
                Option::None
            } else {
                match spec_next_relationship(self.relationship) {
                    Some((f, rel)) => Some((self.user_id, f, rel)),
                    Option::None => Option::None,
                }
            }),
    {
        if self.error.is_some() {
            return Option::None;
        }
        match next_relationship_after_toggle(&self.relationship) {
            Some((f, rel)) => Some((self.user_id, f, rel)),
            Option::None => Option::None,
        }
    }

    /// Record a follow or unfollow that succeeded: the new relationship and
    /// one follower more or (never below zero) one less.
    pub fn apply_follow_success(&mut self, followed: bool, new_rel: RelationshipStatus)
        requires
            followed ==> old(self).follower_count < usize::MAX,
        ensures
            *final(self) == (UserProfileViewState {
                relationship: new_rel,
                follower_count: (if followed {
                    old(self).follower_count + 1
                } else if old(self).follower_count > 0 {
                    old(self).follower_count - 1
                } else {
                    0
                }) as usize,
                ..*old(self)
            }),
    {
        self.relationship = new_rel;
        if followed {
            self.follower_count = self.follower_count + 1;
        } else {
            self.follower_count = self.follower_count.saturating_sub(1);
        }
    }
}

/// Whether a key closes the profile view: Esc or `q`.
pub fn closes_profile_view(key: KeyCode) -> (r: bool)
    ensures
        r == (key == KeyCode::Esc || key == KeyCode::Char('q')),
{
    match key {
        KeyCode::Esc => true,
        KeyCode::Char(c) => c == 'q',
        _ => false,
    }
}

/// The hashtag name to follow: without one leading `#`.
pub open spec fn clean_hashtag(name: Seq<char>) -> Seq<char> {
    if name.len() > 0 && name[0] == '#' {
        name.subrange(1, name.len() as int)
    } else {
        name
    }
}

/// What a key in the hashtags modal asks for beyond its own state.
#[derive(Debug, Clone, Copy, PartialEq, Eq, Structural)]
pub enum HashtagAction {
    Nothing,
    /// Follow the hashtag typed in the input.
    Follow,
    /// Unfollow the hashtag awaiting confirmation.
    Unfollow,
}

impl HashtagsState {
    /// The name to send when following `name`.
    pub fn hashtag_to_follow(name: &str) -> (r: String)
        ensures
            r@ == clean_hashtag(name@),
    {
        let cs = chars_of(name);
        if cs.len() > 0 && cs[0] == '#' {
            let t = crate::text::slice_to_vec(cs.as_slice(), 1, cs.len());
            string_from_chars(t.as_slice())
        } else {
            owned(name)
        }
    }

    /// The error shown when following `clean_name` failed.
    pub fn follow_failed_message(clean_name: &str) -> (r: String)
        ensures
            r@ == "Failed to follow #"@ + clean_name@,
    {
        let a = chars_of("Failed to follow #");
        let b = chars_of(clean_name);
        let m = crate::text::concat(a.as_slice(), b.as_slice());
        string_from_chars(m.as_slice())
    }

    /// Start loading the followed hashtags: loading, no error shown.
    pub fn begin_load(&mut self)
        ensures
            *final(self) == (HashtagsState { loading: true, error: None, ..*old(self) }),
    {
        self.loading = true;
        self.error = None;
    }

    /// Loading ended: `Ok` shows the followed hashtags, an error says that
    /// they could not be loaded.
    pub fn finish_load(&mut self, result: Result<Vec<String>, String>)
        ensures
            match result {
                Ok(h) => *final(self) == (HashtagsState { hashtags: h, loading: false, ..*old(self) }),
                Err(e) => (final(self).error matches Some(m) && m@ == "Failed to load hashtags: "@ + e@)
                    && *final(self) == (HashtagsState { error: final(self).error, loading: false, ..*old(self) }),
            },
    {
        match result {
            Ok(h) => {
                self.hashtags = h;
            },
            Err(e) => {
                self.error = Some(crate::text::join_strs("Failed to load hashtags: ", e.as_str()));
            },
        }
        self.loading = false;
    }

    /// The hashtag was followed: the input closes empty.
    pub fn apply_followed(&mut self)
        ensures
            *final(self) == (HashtagsState {
                add_hashtag_name: final(self).add_hashtag_name,
                show_add_hashtag_input: false,
                ..*old(self)
            }),
            final(self).add_hashtag_name@.len() == 0,
    {
        self.add_hashtag_name = String::new();
        self.show_add_hashtag_input = false;
    }

    /// Close the modal and its input.
    pub fn close_hashtags_modal(&mut self)
        ensures
            *final(self) == (HashtagsState {
                show_hashtags_modal: false,
                show_add_hashtag_input: false,
                add_hashtag_name: final(self).add_hashtag_name,
                error: None,
                ..*old(self)
            }),
            final(self).add_hashtag_name@.len() == 0,
    {
        self.show_hashtags_modal = false;
        self.show_add_hashtag_input = false;
        self.add_hashtag_name = String::new();
        self.error = None;
    }

    /// Handle a key in the hashtags modal. With an unfollow awaiting
    /// confirmation, Enter or `y` confirms and any other key cancels. In the
    /// add input, Enter submits, Esc cancels and characters edit the name.
    /// Otherwise the list (one row per hashtag and a last "Follow Hashtag"
    /// row) is moved with the arrows and `j`/`k`, Enter on the last row
    /// opens the input and `x` asks to unfollow the highlighted hashtag.
    pub fn handle_hashtags_modal_keys(&mut self, key: KeyCode) -> (r: HashtagAction)
        ensures
            old(self).show_unfollow_confirmation ==> if key == KeyCode::Enter || key
                == KeyCode::Char('y') || key == KeyCode::Char('Y') {
                r == HashtagAction::Unfollow && *final(self) == *old(self)
            } else {
                r == HashtagAction::Nothing && *final(self) == (HashtagsState {
                    show_unfollow_confirmation: false,
                    hashtag_to_unfollow: Option::None,
                    ..*old(self)
                })
            },
            !old(self).show_unfollow_confirmation && old(self).show_add_hashtag_input ==> match key {
                KeyCode::Enter => r == HashtagAction::Follow && *final(self) == *old(self),
                KeyCode::Esc => r == HashtagAction::Nothing && *final(self) == (HashtagsState {
                    show_add_hashtag_input: false,
                    add_hashtag_name: final(self).add_hashtag_name,
                    error: Option::None,
                    ..*old(self)
                }) && final(self).add_hashtag_name@.len() == 0,
                KeyCode::Char(c) => r == HashtagAction::Nothing && *final(self) == (HashtagsState {
                    add_hashtag_name: final(self).add_hashtag_name,
                    ..*old(self)
                }) && final(self).add_hashtag_name@ == old(self).add_hashtag_name@.push(c),
                KeyCode::Backspace => r == HashtagAction::Nothing && *final(self) == (HashtagsState {
                    add_hashtag_name: final(self).add_hashtag_name,
                    ..*old(self)
                }) && final(self).add_hashtag_name@ == (if old(self).add_hashtag_name@.len() > 0 {
                    old(self).add_hashtag_name@.drop_last()
                } else {
                    old(self).add_hashtag_name@
                }),
                _ => r == HashtagAction::Nothing && *final(self) == *old(self),
            },
            !old(self).show_unfollow_confirmation && !old(self).show_add_hashtag_input ==> {
                let n = old(self).hashtags@.len();
                let i = old(self).selected_hashtag;
                &&& r == HashtagAction::Nothing
                &&& if is_up_key(key) {
                    *final(self) == (HashtagsState {
                        selected_hashtag: (if i > 0 {
                            i - 1
                        } else {
                            0
                        }) as usize,
                        ..*old(self)
                    })
                } else if is_down_key(key) {
                    *final(self) == (HashtagsState {
                        selected_hashtag: (if i < n {
                            i + 1
                        } else {
                            i as int
                        }) as usize,
                        ..*old(self)
                    })
                } else if key == KeyCode::Enter && i == n {
                    *final(self) == (HashtagsState {
                        show_add_hashtag_input: true,
                        add_hashtag_name: final(self).add_hashtag_name,
                        error: Option::None,
                        ..*old(self)
                    }) && final(self).add_hashtag_name@.len() == 0
                } else if (key == KeyCode::Char('x') || key == KeyCode::Char('X')) && i < n {
                    *final(self) == (HashtagsState {
                        show_unfollow_confirmation: true,
                        hashtag_to_unfollow: final(self).hashtag_to_unfollow,
                        ..*old(self)
                    }) && (final(self).hashtag_to_unfollow matches Some(h) && h@ == old(self).hashtags@[i as int]@)
                } else {
                    *final(self) == *old(self)
                }
            },
    {
        if self.show_unfollow_confirmation {
            match key {
                KeyCode::Enter => {
                    return HashtagAction::Unfollow;
                },
                KeyCode::Char(c) => {
                    if c == 'y' || c == 'Y' {
                        return HashtagAction::Unfollow;
                    }
                },
                _ => {},
            }
            self.show_unfollow_confirmation = false;
            self.hashtag_to_unfollow = Option::None;
            return HashtagAction::Nothing;
        }
        if self.show_add_hashtag_input {
            match key {
                KeyCode::Enter => {
                    return HashtagAction::Follow;
                },
                KeyCode::Esc => {
                    self.show_add_hashtag_input = false;
                    self.add_hashtag_name = String::new();
                    self.error = Option::None;
                },
                KeyCode::Char(c) => {
                    push_char(&mut self.add_hashtag_name, c);
                },
                KeyCode::Backspace => {
                    pop_char(&mut self.add_hashtag_name);
                },
                _ => {},
            }
            return HashtagAction::Nothing;
        }
        let n = self.hashtags.len();
        if up_key(key) {
            if self.selected_hashtag > 0 {
                self.selected_hashtag = self.selected_hashtag - 1;
            }
        } else if down_key(key) {
            if self.selected_hashtag < n {
                self.selected_hashtag = self.selected_hashtag + 1;
            }
        } else if key == KeyCode::Enter {
            if self.selected_hashtag == n {
                self.show_add_hashtag_input = true;
                self.add_hashtag_name = String::new();
                self.error = Option::None;
            }
        } else if key == KeyCode::Char('x') || key == KeyCode::Char('X') {
            if self.selected_hashtag < n {
                let h = owned(self.hashtags[self.selected_hashtag].as_str());
                self.show_unfollow_confirmation = true;
                self.hashtag_to_unfollow = Some(h);
            }
        }
        HashtagAction::Nothing
    }
}

/// The signed-in user's own profile.
pub struct UserProfile {
    pub id: u128,
    pub username: String,
    pub bio: Option<String>,
    pub join_date: String,
    pub follower_count: usize,
    pub following_count: usize,
}

/// The profile tab: the user's profile, their posts, and the bio editor.
pub struct ProfileState {
    pub profile: Option<UserProfile>,
    pub user_posts: Vec<Post>,
    /// Selected row of the user's posts.
    pub selected: Option<usize>,
    pub loading: bool,
    pub error: Option<String>,
    pub show_edit_bio_modal: bool,
    pub edit_bio_content: String,
    /// Cursor position in characters.
    pub edit_bio_cursor_position: usize,
}

/// Longest bio, in characters.
pub const MAX_BIO_CHARS: usize = 160;

/// The bio after typing `c` at character position `cursor` (past the end
/// meaning the end).
pub open spec fn bio_insert(s: Seq<char>, cursor: int, c: char) -> Seq<char> {
    let k = if cursor < s.len() {
        cursor
    } else {
        s.len() as int
    };
    s.subrange(0, k).push(c) + s.subrange(k, s.len() as int)
}

/// What a key in the bio editor asks for beyond editing.
#[derive(Debug, Clone, Copy, PartialEq, Eq, Structural)]
pub enum BioAction {
    Nothing,
    /// Save the bio.
    Save,
}

/// The message shown when saving the bio failed with error text `e`.
pub open spec fn spec_bio_update_error(e: Seq<char>) -> Seq<char> {
    if contains(e, "401"@) || contains(e, "403"@) {
        "Authorization Error: You can only edit your own profile"@
    } else if contains(e, "400"@) {
        "Validation Error: "@ + e
    } else if contains(e, "connection"@) || contains(e, "timeout"@) {
        "Network Error: Connection failed - check your network and try again"@
    } else {
        "Failed to update bio: "@ + e
    }
}


fn prefixed(prefix: &str, e: &[char]) -> (r: String)
    ensures
        r@ == prefix@ + e@,
{
    let p = chars_of(prefix);
    let m = crate::text::concat(p.as_slice(), e);
    string_from_chars(m.as_slice())
}

/// The message shown when saving the bio failed with error text `error`.
pub fn bio_update_error(error: &str) -> (r: String)
    ensures
        r@ == spec_bio_update_error(error@),
{
    let e = chars_of(error);
    if contains_str(e.as_slice(), "401") || contains_str(e.as_slice(), "403") {
        owned("Authorization Error: You can only edit your own profile")
    } else if contains_str(e.as_slice(), "400") {
        prefixed("Validation Error: ", e.as_slice())
    } else if contains_str(e.as_slice(), "connection") || contains_str(e.as_slice(), "timeout") {
        owned("Network Error: Connection failed - check your network and try again")
    } else {
        prefixed("Failed to update bio: ", e.as_slice())
    }
}

/// The message shown when loading the profile failed, `message` being the
/// categorized error.
pub fn profile_load_error(message: &str) -> (r: String)
    ensures
        r@ == message@ + " (Switch tabs to retry)"@,
{
    let a = chars_of(message);
    let b = chars_of(" (Switch tabs to retry)");
    let m = crate::text::concat(a.as_slice(), b.as_slice());
    string_from_chars(m.as_slice())
}

/// The posts of `posts` written by `author`, in order.
pub open spec fn by_author(posts: Seq<Post>, author: u128) -> Seq<Post> {
    posts.filter(|p: Post| p.author_id == author)
}

impl ProfileState {
    /// No profile loaded and the bio editor closed.
    pub fn new() -> (s: Self)
        ensures
            s.profile is None,
            s.user_posts@.len() == 0,
            s.selected is None,
            !s.show_edit_bio_modal,
            s.edit_bio_content@.len() == 0,
            s.edit_bio_cursor_position == 0,
            !s.loading,
            s.error is None,
    {
        ProfileState {
            profile: Option::None,
            user_posts: Vec::new(),
            selected: Option::None,
            loading: false,
            error: Option::None,
            show_edit_bio_modal: false,
            edit_bio_content: String::new(),
            edit_bio_cursor_position: 0,
        }
    }

    /// A request of the profile tab starts: loading (when `loading`) and no
    /// error shown.
    pub fn begin_request(&mut self, loading: bool)
        ensures
            *final(self) == (ProfileState {
                loading: if loading {
                    true
                } else {
                    old(self).loading
                },
                error: None,
                ..*old(self)
            }),
    {
        if loading {
            self.loading = true;
        }
        self.error = None;
    }

    /// The profile arrived.
    pub fn apply_profile(&mut self, profile: UserProfile)
        ensures
            *final(self) == (ProfileState { profile: Some(profile), ..*old(self) }),
    {
        self.profile = Some(profile);
    }

    /// Loading the profile or its posts failed with the categorized message
    /// `message`: the error asks to switch tabs to retry.
    pub fn apply_load_failure(&mut self, message: &str)
        ensures
            (final(self).error matches Some(m) && m@ == message@ + " (Switch tabs to retry)"@),
            *final(self) == (ProfileState { error: final(self).error, ..*old(self) }),
    {
        self.error = Some(profile_load_error(message));
    }

    /// Loading the profile ended.
    pub fn end_load(&mut self)
        ensures
            *final(self) == (ProfileState { loading: false, ..*old(self) }),
    {
        self.loading = false;
    }

    /// Saving the bio failed with the error text `error`.
    pub fn apply_bio_failure(&mut self, error: &str)
        ensures
            (final(self).error matches Some(m) && m@ == spec_bio_update_error(error@)),
            *final(self) == (ProfileState { error: final(self).error, ..*old(self) }),
    {
        self.error = Some(bio_update_error(error));
    }

    /// Keep the loaded posts that `user_id` wrote, selecting the first.
    pub fn apply_user_posts(&mut self, posts: Vec<Post>, user_id: u128)
        ensures
            final(self).user_posts@ == by_author(posts@, user_id),
            final(self).selected == (if by_author(posts@, user_id).len() > 0 {
                Some(0usize)
            } else {
                Option::None
            }),
            *final(self) == (ProfileState {
                user_posts: final(self).user_posts,
                selected: final(self).selected,
                ..*old(self)
            }),
    {
        let mut kept: Vec<Post> = Vec::new();
        let mut rev: Vec<Post> = Vec::new();
        let mut posts = posts;
        let ghost orig = posts@;
        let n = posts.len();
        while posts.len() > 0
            invariant
                n == orig.len(),
                posts@ == orig.subrange(0, posts@.len() as int),
                rev@.len() == n - posts@.len(),
                forall|k: int| 0 <= k < rev@.len() ==> rev@[k] == orig[n - 1 - k],
            decreases posts@.len(),
        {
            let x = posts.pop().unwrap();
            rev.push(x);
            proof {
                assert(posts@ =~= orig.subrange(0, posts@.len() as int));
            }
        }
        let mut i: usize = 0;
        while rev.len() > 0
            invariant
                n == orig.len(),
                i + rev@.len() == n,
                forall|k: int| 0 <= k < rev@.len() ==> rev@[k] == orig[n - 1 - k],
                kept@ == by_author(orig.subrange(0, i as int), user_id),
            decreases rev@.len(),
        {
            let x = rev.pop().unwrap();
            proof {
                reveal(Seq::filter);
                assert(orig.subrange(0, i + 1).drop_last() =~= orig.subrange(0, i as int));
                assert(orig.subrange(0, i + 1).last() == x);
                assert(by_author(orig.subrange(0, i + 1), user_id) == (if x.author_id == user_id {
                    by_author(orig.subrange(0, i as int), user_id).push(x)
                } else {
                    by_author(orig.subrange(0, i as int), user_id)
                }));
            }
            if x.author_id == user_id {
                kept.push(x);
            }
            i = i + 1;
        }
        proof {
            assert(orig.subrange(0, n as int) =~= orig);
        }
        self.user_posts = kept;
        if self.user_posts.len() > 0 {
            self.selected = Some(0);
        } else {
            self.selected = Option::None;
        }
    }

    /// Select the next of the user's posts, staying on the last.
    pub fn next_user_post(&mut self)
        ensures
            old(self).user_posts@.len() == 0 ==> *final(self) == *old(self),
            old(self).user_posts@.len() > 0 ==> *final(self) == (ProfileState {
                selected: Some(
                    match old(self).selected {
                        Some(i) => if i >= old(self).user_posts@.len() - 1 {
                            i
                        } else {
                            (i + 1) as usize
                        },
                        Option::None => 0usize,
                    },
                ),
                ..*old(self)
            }),
    {
        let n = self.user_posts.len();
        if n == 0 {
            return;
        }
        let i = match self.selected {
            Some(i) => if i >= n - 1 {
                i
            } else {
                i + 1
            },
            Option::None => 0,
        };
        self.selected = Some(i);
    }

    /// Select the previous of the user's posts, staying on the first.
    pub fn previous_user_post(&mut self)
        ensures
            old(self).user_posts@.len() == 0 ==> *final(self) == *old(self),
            old(self).user_posts@.len() > 0 ==> *final(self) == (ProfileState {
                selected: Some(
                    match old(self).selected {
                        Some(i) => if i == 0 {
                            0usize
                        } else {
                            (i - 1) as usize
                        },
                        Option::None => 0usize,
                    },
                ),
                ..*old(self)
            }),
    {
        if self.user_posts.len() == 0 {
            return;
        }
        let i = match self.selected {
            Some(i) => if i == 0 {
                0
            } else {
                i - 1
            },
            Option::None => 0,
        };
        self.selected = Some(i);
    }

    /// Open the bio editor on the current bio, cursor at its end; nothing
    /// happens before the profile is loaded.
    pub fn open_edit_bio_modal(&mut self, input_mode: &mut InputMode)
        ensures
            old(self).profile is None ==> *final(self) == *old(self) && *final(input_mode) == *old(input_mode),
            old(self).profile matches Some(p) ==> {
                let bio = match p.bio {
                    Some(b) => b@,
                    Option::None => Seq::<char>::empty(),
                };
                &&& final(self).show_edit_bio_modal
                &&& final(self).edit_bio_content@ == bio
                &&& final(self).edit_bio_cursor_position == bio.len()
                &&& *final(input_mode) == InputMode::Typing
                &&& final(self).profile == old(self).profile
                &&& final(self).user_posts == old(self).user_posts
            },
    {
        let content = match &self.profile {
            Some(p) => match &p.bio {
                Some(b) => owned(b.as_str()),
                Option::None => String::new(),
            },
            Option::None => {
                return;
            },
        };
        let n = chars_of(content.as_str()).len();
        self.show_edit_bio_modal = true;
        self.edit_bio_content = content;
        self.edit_bio_cursor_position = n;
        *input_mode = InputMode::Typing;
    }

    /// Close the bio editor, dropping what was typed.
    pub fn close_edit_bio_modal(&mut self, input_mode: &mut InputMode)
        ensures
            *final(self) == (ProfileState {
                show_edit_bio_modal: false,
                edit_bio_content: final(self).edit_bio_content,
                edit_bio_cursor_position: 0,
                ..*old(self)
            }),
            final(self).edit_bio_content@.len() == 0,
            *final(input_mode) == InputMode::Navigation,
    {
        self.show_edit_bio_modal = false;
        self.edit_bio_content = String::new();
        self.edit_bio_cursor_position = 0;
        *input_mode = InputMode::Navigation;
    }

    /// Type `c` at the cursor, unless the bio already has 160 characters.
    pub fn add_char_to_bio(&mut self, c: char)
        requires
            old(self).edit_bio_cursor_position < usize::MAX,
        ensures
            old(self).edit_bio_content@.len() < 160 ==> *final(self) == (ProfileState {
                edit_bio_content: final(self).edit_bio_content,
                edit_bio_cursor_position: (old(self).edit_bio_cursor_position + 1) as usize,
                ..*old(self)
            }) && final(self).edit_bio_content@ == bio_insert(
                old(self).edit_bio_content@,
                old(self).edit_bio_cursor_position as int,
                c,
            ),
            old(self).edit_bio_content@.len() >= 160 ==> *final(self) == *old(self),
    {
        let cs = chars_of(self.edit_bio_content.as_str());
        if cs.len() < MAX_BIO_CHARS {
            let k = if self.edit_bio_cursor_position < cs.len() {
                self.edit_bio_cursor_position
            } else {
                cs.len()
            };
            let mut head = crate::text::slice_to_vec(cs.as_slice(), 0, k);
            head.push(c);
            let tail = crate::text::slice_to_vec(cs.as_slice(), k, cs.len());
            let joined = crate::text::concat(head.as_slice(), tail.as_slice());
            self.edit_bio_content = string_from_chars(joined.as_slice());
            self.edit_bio_cursor_position = self.edit_bio_cursor_position + 1;
        }
    }

    /// Delete the character before the cursor, if there is one.
    pub fn remove_char_from_bio(&mut self)
        ensures
            ({
                let p = old(self).edit_bio_cursor_position;
                let s = old(self).edit_bio_content@;
                if p > 0 && p - 1 < s.len() {
                    *final(self) == (ProfileState {
                        edit_bio_content: final(self).edit_bio_content,
                        edit_bio_cursor_position: (p - 1) as usize,
                        ..*old(self)
                    }) && final(self).edit_bio_content@ == s.remove(p - 1)
                } else {
                    *final(self) == *old(self)
                }
            }),
    {
        let p = self.edit_bio_cursor_position;
        let cs = chars_of(self.edit_bio_content.as_str());
        if p > 0 && p - 1 < cs.len() {
            let head = crate::text::slice_to_vec(cs.as_slice(), 0, p - 1);
            let tail = crate::text::slice_to_vec(cs.as_slice(), p, cs.len());
            let joined = crate::text::concat(head.as_slice(), tail.as_slice());
            proof {
                assert(joined@ =~= cs@.remove(p - 1));
            }
            self.edit_bio_content = string_from_chars(joined.as_slice());
            self.edit_bio_cursor_position = p - 1;
        }
    }

    /// Handle a key in the bio editor: characters and Backspace edit at the
    /// cursor, Left/Right/Home/End move it, and Enter asks to save.
    pub fn handle_edit_bio_modal_keys(&mut self, key: KeyCode) -> (r: BioAction)
        requires
            old(self).edit_bio_cursor_position < usize::MAX,
        ensures
            r == (if key == KeyCode::Enter {
                BioAction::Save
            } else {
                BioAction::Nothing
            }),
            match key {
                KeyCode::Char(c) => if old(self).edit_bio_content@.len() < 160 {
                    *final(self) == (ProfileState {
                        edit_bio_content: final(self).edit_bio_content,
                        edit_bio_cursor_position: (old(self).edit_bio_cursor_position + 1) as usize,
                        ..*old(self)
                    }) && final(self).edit_bio_content@ == bio_insert(
                        old(self).edit_bio_content@,
                        old(self).edit_bio_cursor_position as int,
                        c,
                    )
                } else {
                    *final(self) == *old(self)
                },
                KeyCode::Left => *final(self) == (ProfileState {
                    edit_bio_cursor_position: (if old(self).edit_bio_cursor_position > 0 {
                        old(self).edit_bio_cursor_position - 1
                    } else {
                        0
                    }) as usize,
                    ..*old(self)
                }),
                KeyCode::Right => *final(self) == (ProfileState {
                    edit_bio_cursor_position: (if old(self).edit_bio_cursor_position < old(self).edit_bio_content@.len() {
                        old(self).edit_bio_cursor_position + 1
                    } else {
                        old(self).edit_bio_cursor_position as int
                    }) as usize,
                    ..*old(self)
                }),
                KeyCode::Home => *final(self) == (ProfileState {
                    edit_bio_cursor_position: 0,
                    ..*old(self)
                }),
                KeyCode::End => *final(self) == (ProfileState {
                    edit_bio_cursor_position: old(self).edit_bio_content@.len() as usize,
                    ..*old(self)
                }),
                KeyCode::Backspace => {
                    let p = old(self).edit_bio_cursor_position;
                    let s = old(self).edit_bio_content@;
                    if p > 0 && p - 1 < s.len() {
                        *final(self) == (ProfileState {
                            edit_bio_content: final(self).edit_bio_content,
                            edit_bio_cursor_position: (p - 1) as usize,
                            ..*old(self)
                        }) && final(self).edit_bio_content@ == s.remove(p - 1)
                    } else {
                        *final(self) == *old(self)
                    }
                },
                _ => *final(self) == *old(self),
            },
    {
        match key {
            KeyCode::Char(c) => {
                self.add_char_to_bio(c);
                BioAction::Nothing
            },
            KeyCode::Backspace => {
                self.remove_char_from_bio();
                BioAction::Nothing
            },
            KeyCode::Enter => BioAction::Save,
            KeyCode::Left => {
                if self.edit_bio_cursor_position > 0 {
                    self.edit_bio_cursor_position = self.edit_bio_cursor_position - 1;
                }
                BioAction::Nothing
            },
            KeyCode::Right => {
                let n = chars_of(self.edit_bio_content.as_str()).len();
                if self.edit_bio_cursor_position < n {
                    self.edit_bio_cursor_position = self.edit_bio_cursor_position + 1;
                }
                BioAction::Nothing
            },
            KeyCode::Home => {
                self.edit_bio_cursor_position = 0;
                BioAction::Nothing
            },
            KeyCode::End => {
                self.edit_bio_cursor_position = chars_of(self.edit_bio_content.as_str()).len();
                BioAction::Nothing
            },
            _ => BioAction::Nothing,
        }
    }
}


impl UserProfileViewState {
    /// The view of `username` when their profile could not be loaded (with
    /// error text `error`): empty, with the error shown.
    pub fn failed(user_id: u128, username: String, error: &str) -> (v: Self)
        ensures
            v.user_id == user_id,
            v.username == username,
            v.bio is None,
            v.join_date@.len() == 0,
            v.follower_count == 0 && v.following_count == 0 && v.post_count == 0,
            v.relationship == RelationshipStatus::NoRelationship,
            v.error matches Some(m) && m@ == "Failed to load profile: "@ + error@,
    {
        UserProfileViewState {
            user_id,
            username,
            bio: Option::None,
            join_date: String::new(),
            follower_count: 0,
            following_count: 0,
            post_count: 0,
            relationship: RelationshipStatus::NoRelationship,
            error: Some(join_strs("Failed to load profile: ", error)),
        }
    }

    /// A follow or unfollow request failed with error text `error`.
    pub fn apply_follow_failure(&mut self, error: &str)
        ensures
            *final(self) == (UserProfileViewState { error: final(self).error, ..*old(self) }),
            final(self).error matches Some(m) && m@ == "Follow action failed: "@ + error@,
    {
        self.error = Some(join_strs("Follow action failed: ", error));
    }
}

/// Which list of the social modal failed to load.
#[derive(Debug, Clone, Copy, PartialEq, Eq, Structural)]
pub enum SocialList {
    Following,
    Followers,
    MutualFriends,
}

impl FriendsState {
    /// Start loading the three lists.
    pub fn begin_load(&mut self)
        ensures
            *final(self) == (FriendsState { loading: true, error: None, ..*old(self) }),
    {
        self.loading = true;
        self.error = None;
    }

    /// Loading `list` failed with error text `error`: the error is shown
    /// (and returned) and nothing is loading.
    pub fn apply_load_error(&mut self, list: SocialList, error: &str) -> (message: String)
        ensures
            message@ == (match list {
                SocialList::Following => "Failed to load following: "@,
                SocialList::Followers => "Failed to load followers: "@,
                SocialList::MutualFriends => "Failed to load mutual friends: "@,
            }) + error@,
            *final(self) == (FriendsState { error: final(self).error, loading: false, ..*old(self) }),
            final(self).error matches Some(m) && m@ == message@,
    {
        let message = match list {
            SocialList::Following => join_strs("Failed to load following: ", error),
            SocialList::Followers => join_strs("Failed to load followers: ", error),
            SocialList::MutualFriends => join_strs("Failed to load mutual friends: ", error),
        };
        self.error = Some(owned(message.as_str()));
        self.loading = false;
        message
    }

    /// The three lists arrived.
    pub fn apply_loaded_connections(
        &mut self,
        following: Vec<UserInfo>,
        followers: Vec<UserInfo>,
        mutual_friends: Vec<UserInfo>,
    )
        ensures
            *final(self) == (FriendsState {
                following: following,
                followers: followers,
                mutual_friends: mutual_friends,
                loading: false,
                ..*old(self)
            }),
    {
        self.following = following;
        self.followers = followers;
        self.mutual_friends = mutual_friends;
        self.loading = false;
    }
}

/// Close the profile that was opened over the app; when it was opened
/// from the social modal, that modal shows again.
pub fn close_user_profile_view(view: &mut Option<UserProfileViewState>, friends: &mut FriendsState)
    ensures
        *final(view) is None,
        old(friends).return_to_modal_after_profile ==> *final(friends) == (FriendsState {
            show_friends_modal: true,
            return_to_modal_after_profile: false,
            ..*old(friends)
        }),
        !old(friends).return_to_modal_after_profile ==> *final(friends) == *old(friends),
{
    *view = None;
    if friends.return_to_modal_after_profile {
        friends.show_friends_modal = true;
        friends.return_to_modal_after_profile = false;
    }
}

} // verus!
