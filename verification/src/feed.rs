//! The post feed: ordering, the selected row, the admin approval queue,
//! filters, and posts pushed by the realtime connection.
use vstd::prelude::*;
use std::collections::HashSet;
use crate::post::{vote_outcome, vote_request, Post, VoteRequest};
use crate::session::{ascii_lower, ascii_lower_all, ascii_lower_exec};
use crate::state::{FilterModalState, FilterTab, InputMode, PostFilter, SortOrder, UserConfig};
use crate::route::FilterCommand;
use crate::text::{chars_of, join_strs, owned, pop_char, push_char, string_from_chars};
use crate::emoji::{utf8_bytes, utf8_bytes_below};

verus! {

broadcast use vstd::std_specs::hash::group_hash_axioms;

/// How far from balanced the votes on a post are.
pub open spec fn controversy(p: Post) -> int {
    let d = p.upvotes - p.downvotes;
    if d < 0 {
        -d
    } else {
        d
    }
}

/// Post `a` comes strictly before post `b` in feed order `o` by its keys
/// alone: newest first; most upvoted first, then newest; or most balanced
/// first, then newest.
pub open spec fn key_less(o: SortOrder, a: Post, b: Post) -> bool {
    match o {
        SortOrder::Newest => a.created_at > b.created_at,
        SortOrder::Popular => a.upvotes > b.upvotes || (a.upvotes == b.upvotes && a.created_at
            > b.created_at),
        SortOrder::Controversial => controversy(a) < controversy(b) || (controversy(a)
            == controversy(b) && a.created_at > b.created_at),
    }
}

/// Position `i` comes before position `j` in a stable sort of `s` by `o`:
/// smaller keys first, equal keys in their original order.
pub open spec fn sorts_before(s: Seq<Post>, o: SortOrder, i: int, j: int) -> bool {
    key_less(o, s[i], s[j]) || (!key_less(o, s[j], s[i]) && i < j)
}

/// `r` lists every position of `s` once, in stable sorted order.
pub open spec fn is_stable_order(s: Seq<Post>, o: SortOrder, r: Seq<usize>) -> bool {
    &&& r.len() == s.len()
    &&& forall|k: int| 0 <= k < r.len() ==> r[k] < s.len()
    &&& forall|i: usize| i < s.len() ==> #[trigger] r.contains(i)
    &&& forall|a: int, b: int| 0 <= a < b < r.len() ==> sorts_before(s, o, r[a] as int, r[b] as int)
}

fn key_less_exec(o: SortOrder, a: &Post, b: &Post) -> (r: bool)
    ensures
        r == key_less(o, *a, *b),
{
    match o {
        SortOrder::Newest => a.created_at > b.created_at,
        SortOrder::Popular => a.upvotes > b.upvotes || (a.upvotes == b.upvotes && a.created_at
            > b.created_at),
        SortOrder::Controversial => {
            let da: i64 = a.upvotes as i64 - a.downvotes as i64;
            let db: i64 = b.upvotes as i64 - b.downvotes as i64;
            let ca: i64 = if da < 0 {
                -da
            } else {
                da
            };
            let cb: i64 = if db < 0 {
                -db
            } else {
                db
            };
            ca < cb || (ca == cb && a.created_at > b.created_at)
        },
    }
}

/// The positions of `posts` in stable sorted order.
pub fn stable_order(posts: &Vec<Post>, o: SortOrder) -> (r: Vec<usize>)
    ensures
        is_stable_order(posts@, o, r@),
{
    let mut r: Vec<usize> = Vec::new();
    let mut i: usize = 0;
    while i < posts.len()
        invariant
            0 <= i <= posts@.len(),
            r@.len() == i,
            forall|k: int| 0 <= k < r@.len() ==> r@[k] < i,
            forall|j: usize| j < i ==> #[trigger] r@.contains(j),
            forall|a: int, b: int|
                0 <= a < b < r@.len() ==> sorts_before(posts@, o, r@[a] as int, r@[b] as int),
        decreases posts@.len() - i,
    {
        let mut pos: usize = 0;
        while pos < r.len() && !key_less_exec(o, &posts[i], &posts[r[pos]])
            invariant
                0 <= pos <= r@.len(),
                i < posts@.len(),
                forall|k: int| 0 <= k < r@.len() ==> r@[k] < i,
                forall|k: int| 0 <= k < pos ==> sorts_before(posts@, o, r@[k] as int, i as int),
            decreases r@.len() - pos,
        {
            pos = pos + 1;
        }
        let ghost old_r = r@;
        proof {
            assert forall|k: int| pos <= k < old_r.len() implies sorts_before(
                posts@,
                o,
                i as int,
                old_r[k] as int,
            ) by {
                if k > pos as int {
                    assert(sorts_before(posts@, o, old_r[pos as int] as int, old_r[k] as int));
                }
            }
        }
        r.insert(pos, i);
        proof {
            assert forall|a: int, b: int| 0 <= a < b < r@.len() implies sorts_before(
                posts@,
                o,
                r@[a] as int,
                r@[b] as int,
            ) by {
                if a < pos && b == pos {
                } else if a < pos && b > pos {
                    assert(r@[b] == old_r[b - 1]);
                    assert(sorts_before(posts@, o, old_r[a] as int, i as int));
                } else if a == pos {
                    assert(r@[b] == old_r[b - 1]);
                } else if a > pos {
                    assert(r@[a] == old_r[a - 1]);
                    assert(r@[b] == old_r[b - 1]);
                }
            }
            assert forall|j: usize| j < i + 1 implies #[trigger] r@.contains(j) by {
                if j < i {
                    assert(old_r.contains(j));
                    let k = choose|k: int| 0 <= k < old_r.len() && old_r[k] == j;
                    if k < pos {
                        assert(r@[k] == j);
                    } else {
                        assert(r@[k + 1] == j);
                    }
                } else {
                    assert(r@[pos as int] == i);
                }
            }
        }
        i = i + 1;
    }
    r
}

/// Take the post out of slot `j`, leaving the slot empty.
fn take_slot(slots: &mut Vec<Option<Post>>, j: usize) -> (r: Option<Post>)
    requires
        j < old(slots)@.len(),
    ensures
        r == old(slots)@[j as int],
        final(slots)@ == old(slots)@.update(j as int, None),
{
    let mut x: Option<Post> = None;
    std::mem::swap(&mut x, &mut slots[j]);
    x
}

/// `v` rearranged so that position `k` holds the post at `order[k]`.
pub fn permute(v: Vec<Post>, order: &Vec<usize>) -> (r: Vec<Post>)
    requires
        order@.len() == v@.len(),
        forall|k: int| 0 <= k < order@.len() ==> order@[k] < v@.len(),
        forall|a: int, b: int| 0 <= a < b < order@.len() ==> order@[a] != order@[b],
    ensures
        r@.len() == v@.len(),
        forall|k: int| 0 <= k < r@.len() ==> r@[k] == v@[order@[k] as int],
{
    let n = v.len();
    let mut v = v;
    let mut rev: Vec<Option<Post>> = Vec::new();
    let ghost orig = v@;
    while v.len() > 0
        invariant
            n == orig.len(),
            v@ == orig.subrange(0, v@.len() as int),
            rev@.len() == n - v@.len(),
            forall|k: int| 0 <= k < rev@.len() ==> rev@[k] == Some(orig[n - 1 - k]),
        decreases v@.len(),
    {
        let x = v.pop().unwrap();
        rev.push(Some(x));
        proof {
            assert(v@ =~= orig.subrange(0, v@.len() as int));
        }
    }
    let mut slots: Vec<Option<Post>> = Vec::new();
    let mut k: usize = 0;
    while k < n
        invariant
            n == orig.len(),
            rev@.len() == n,
            0 <= k <= n,
            forall|t: int| 0 <= t < n - k ==> rev@[t] == Some(orig[n - 1 - t]),
            slots@.len() == k,
            forall|t: int| 0 <= t < k ==> slots@[t] == Some(orig[t]),
        decreases n - k,
    {
        let x = take_slot(&mut rev, n - 1 - k);
        proof {
            assert(x == Some(orig[k as int]));
        }
        slots.push(x);
        proof {
        }
        k = k + 1;
    }
    let mut out: Vec<Post> = Vec::new();
    let mut m: usize = 0;
    while m < n
        invariant
            n == orig.len(),
            order@.len() == n,
            forall|t: int| 0 <= t < n ==> order@[t] < n,
            forall|a: int, b: int| 0 <= a < b < n ==> order@[a] != order@[b],
            slots@.len() == n,
            0 <= m <= n,
            forall|t: int| 0 <= t < n ==> (slots@[t] == Some(orig[t]) || (slots@[t] is None
                && exists|u: int| 0 <= u < m && order@[u] == t)),
            forall|u: int| m <= u < n ==> slots@[order@[u] as int] == Some(orig[order@[u] as int]),
            out@.len() == m,
            forall|t: int| 0 <= t < m ==> out@[t] == orig[order@[t] as int],
        decreases n - m,
    {
        let j = order[m];
        let x = take_slot(&mut slots, j);
        match x {
            Some(p) => {
                out.push(p);
            },
            None => {
                assert(false);
            },
        }
        proof {
            assert forall|u: int| m + 1 <= u < n implies slots@[order@[u] as int] == Some(
                orig[order@[u] as int],
            ) by {
                assert(order@[u] != order@[m as int]);
            }
            assert forall|t: int| 0 <= t < n implies (slots@[t] == Some(orig[t]) || (slots@[t]
                is None && exists|u: int| 0 <= u < m + 1 && order@[u] == t)) by {
                if t == j as int {
                    assert(order@[m as int] == t);
                }
            }
        }
        m = m + 1;
    }
    out
}

/// The feed's sort order and length from the settings: newest first and 25
/// posts when none are loaded, and at least one post.
pub open spec fn feed_settings(config: Option<UserConfig>) -> (SortOrder, int) {
    match config {
        Some(c) => (c.sort_order, if c.max_posts_display < 1 {
            1
        } else {
            c.max_posts_display as int
        }),
        None => (SortOrder::Newest, 25),
    }
}

/// `new` is `old` in stable feed order `o`, cut to its first `max` posts.
pub open spec fn is_sorted_limited(old: Seq<Post>, o: SortOrder, max: int, new: Seq<Post>) -> bool {
    exists|r: Seq<usize>|
        #![trigger is_stable_order(old, o, r)]
        is_stable_order(old, o, r) && new.len() == (if old.len() < max {
            old.len() as int
        } else {
            max
        }) && forall|k: int| 0 <= k < new.len() ==> new[k] == old[r[k] as int]
}

/// Sort `posts` by the configured feed order (a stable sort) and keep at
/// most the configured number of them.
pub fn sort_and_limit_posts(posts: &mut Vec<Post>, config: Option<UserConfig>)
    ensures
        is_sorted_limited(old(posts)@, feed_settings(config).0, feed_settings(config).1, final(posts)@),
{
    let (o, max): (SortOrder, usize) = match config {
        Some(c) => (c.sort_order, if c.max_posts_display < 1 {
            1usize
        } else {
            c.max_posts_display as usize
        }),
        None => (SortOrder::Newest, 25usize),
    };
    let ghost before = posts@;
    let order = stable_order(posts, o);
    proof {
        assert forall|a: int, b: int| 0 <= a < b < order@.len() implies order@[a] != order@[b] by {
            assert(sorts_before(before, o, order@[a] as int, order@[b] as int));
        }
    }
    let mut taken: Vec<Post> = Vec::new();
    std::mem::swap(&mut taken, posts);
    let mut sorted = permute(taken, &order);
    sorted.truncate(max);
    *posts = sorted;
    proof {
        assert(is_stable_order(before, o, order@));
    }
}

/// A sorted-and-limited feed never has a post ahead of one that sorts
/// strictly before it.
pub proof fn lemma_sorted_limited_is_sorted(old: Seq<Post>, o: SortOrder, max: int, new: Seq<Post>)
    requires
        is_sorted_limited(old, o, max, new),
    ensures
        forall|a: int, b: int| 0 <= a < b < new.len() ==> !key_less(o, new[b], new[a]),
{
    let r = choose|r: Seq<usize>|
        #![trigger is_stable_order(old, o, r)]
        is_stable_order(old, o, r) && new.len() == (if old.len() < max {
            old.len() as int
        } else {
            max
        }) && forall|k: int| 0 <= k < new.len() ==> new[k] == old[r[k] as int];
    assert forall|a: int, b: int| 0 <= a < b < new.len() implies !key_less(o, new[b], new[a]) by {
        assert(sorts_before(old, o, r[a] as int, r[b] as int));
    }
}

/// In a sorted-and-limited feed: by Newest, no post is older than one
/// after it; by Popular, no post has fewer upvotes than one after it, and
/// of two with as many upvotes the newer comes first (downvotes play no
/// part); by Controversial, no post has a larger gap between upvotes and
/// downvotes than one after it, and of two with the same gap the newer
/// comes first.
pub proof fn lemma_feed_order(old: Seq<Post>, o: SortOrder, max: int, new: Seq<Post>)
    requires
        is_sorted_limited(old, o, max, new),
    ensures
        o == SortOrder::Newest ==> forall|a: int, b: int|
            0 <= a < b < new.len() ==> new[a].created_at >= new[b].created_at,
        o == SortOrder::Popular ==> forall|a: int, b: int|
            0 <= a < b < new.len() ==> new[a].upvotes >= new[b].upvotes && (new[a].upvotes
                == new[b].upvotes ==> new[a].created_at >= new[b].created_at),
        o == SortOrder::Controversial ==> forall|a: int, b: int|
            #![trigger new[a], new[b]]
            0 <= a < b < new.len() ==> {
                let ga = if new[a].upvotes >= new[a].downvotes {
                    new[a].upvotes - new[a].downvotes
                } else {
                    new[a].downvotes - new[a].upvotes
                };
                let gb = if new[b].upvotes >= new[b].downvotes {
                    new[b].upvotes - new[b].downvotes
                } else {
                    new[b].downvotes - new[b].upvotes
                };
                ga <= gb && (ga == gb ==> new[a].created_at >= new[b].created_at)
            },
{
    lemma_sorted_limited_is_sorted(old, o, max, new);
    assert forall|a: int, b: int| 0 <= a < b < new.len() implies !key_less(o, new[b], new[a]) by {}
    if o == SortOrder::Newest {
        assert forall|a: int, b: int| 0 <= a < b < new.len() implies new[a].created_at
            >= new[b].created_at by {
            assert(!key_less(o, new[b], new[a]));
        }
    }
    if o == SortOrder::Popular {
        assert forall|a: int, b: int| 0 <= a < b < new.len() implies new[a].upvotes
            >= new[b].upvotes && (new[a].upvotes == new[b].upvotes ==> new[a].created_at
            >= new[b].created_at) by {
            assert(!key_less(o, new[b], new[a]));
        }
    }
    if o == SortOrder::Controversial {
        assert forall|a: int, b: int|
            #![trigger new[a], new[b]]
            0 <= a < b < new.len() implies ({
            let ga = if new[a].upvotes >= new[a].downvotes {
                new[a].upvotes - new[a].downvotes
            } else {
                new[a].downvotes - new[a].upvotes
            };
            let gb = if new[b].upvotes >= new[b].downvotes {
                new[b].upvotes - new[b].downvotes
            } else {
                new[b].downvotes - new[b].upvotes
            };
            ga <= gb && (ga == gb ==> new[a].created_at >= new[b].created_at)
        }) by {
            assert(!key_less(o, new[b], new[a]));
        }
    }
}

/// `a` and `b` are equal once ASCII letters are lowercased.
pub open spec fn eq_ignore_case(a: Seq<char>, b: Seq<char>) -> bool {
    ascii_lower_all(a) == ascii_lower_all(b)
}

/// `str::eq_ignore_ascii_case`.
pub fn eq_ignore_ascii_case(a: &str, b: &str) -> (r: bool)
    ensures
        r == eq_ignore_case(a@, b@),
{
    let x = chars_of(a);
    let y = chars_of(b);
    if x.len() != y.len() {
        proof {
            assert(ascii_lower_all(a@).len() != ascii_lower_all(b@).len());
        }
        return false;
    }
    let mut i: usize = 0;
    while i < x.len()
        invariant
            x@ == a@,
            y@ == b@,
            x@.len() == y@.len(),
            0 <= i <= x@.len(),
            forall|k: int| 0 <= k < i ==> ascii_lower(x@[k]) == ascii_lower(y@[k]),
        decreases x@.len() - i,
    {
        if ascii_lower_exec(x[i]) != ascii_lower_exec(y[i]) {
            proof {
                assert(ascii_lower_all(a@)[i as int] != ascii_lower_all(b@)[i as int]);
            }
            return false;
        }
        i = i + 1;
    }
    proof {
        assert(ascii_lower_all(a@) =~= ascii_lower_all(b@));
    }
    true
}

/// `post` carries hashtag `tag`, ignoring ASCII case.
pub open spec fn has_hashtag(post: Post, tag: Seq<char>) -> bool {
    exists|j: int| 0 <= j < post.hashtags@.len() && eq_ignore_case(#[trigger] post.hashtags@[j]@, tag)
}

/// `post` passes filter `f`: every post passes `All`; a multi filter wants
/// one of its hashtags on the post or the post's author among its users.
pub open spec fn matches_filter(post: Post, f: PostFilter) -> bool {
    match f {
        PostFilter::All => true,
        PostFilter::Multi { hashtags, users } => (exists|i: int|
            0 <= i < hashtags@.len() && has_hashtag(post, #[trigger] hashtags@[i]@)) || (exists|i: int|
            0 <= i < users@.len() && eq_ignore_case(post.author_username@, #[trigger] users@[i]@)),
    }
}

fn has_hashtag_exec(post: &Post, tag: &String) -> (r: bool)
    ensures
        r == has_hashtag(*post, tag@),
{
    let mut j: usize = 0;
    while j < post.hashtags.len()
        invariant
            0 <= j <= post.hashtags@.len(),
            forall|k: int| 0 <= k < j ==> !eq_ignore_case(#[trigger] post.hashtags@[k]@, tag@),
        decreases post.hashtags@.len() - j,
    {
        if eq_ignore_ascii_case(post.hashtags[j].as_str(), tag.as_str()) {
            return true;
        }
        j = j + 1;
    }
    false
}

fn any_hashtag(post: &Post, tags: &Vec<String>) -> (r: bool)
    ensures
        r == exists|i: int| 0 <= i < tags@.len() && has_hashtag(*post, #[trigger] tags@[i]@),
{
    let mut i: usize = 0;
    while i < tags.len()
        invariant
            0 <= i <= tags@.len(),
            forall|k: int| 0 <= k < i ==> !has_hashtag(*post, #[trigger] tags@[k]@),
        decreases tags@.len() - i,
    {
        if has_hashtag_exec(post, &tags[i]) {
            proof {
                assert(has_hashtag(*post, tags@[i as int]@));
            }
            return true;
        }
        i = i + 1;
    }
    false
}

fn any_user(post: &Post, users: &Vec<String>) -> (r: bool)
    ensures
        r == exists|i: int|
            0 <= i < users@.len() && eq_ignore_case(post.author_username@, #[trigger] users@[i]@),
{
    let mut u: usize = 0;
    while u < users.len()
        invariant
            0 <= u <= users@.len(),
            forall|k: int|
                0 <= k < u ==> !eq_ignore_case(post.author_username@, #[trigger] users@[k]@),
        decreases users@.len() - u,
    {
        if eq_ignore_ascii_case(post.author_username.as_str(), users[u].as_str()) {
            proof {
                assert(eq_ignore_case(post.author_username@, users@[u as int]@));
            }
            return true;
        }
        u = u + 1;
    }
    false
}

/// Whether `post` passes the filter `f`.
pub fn post_matches_filter(post: &Post, f: &PostFilter) -> (r: bool)
    ensures
        r == matches_filter(*post, *f),
{
    match f {
        PostFilter::All => true,
        PostFilter::Multi { hashtags, users } => any_hashtag(post, hashtags) || any_user(post, users),
    }
}

/// The highlight after a row left a list that now holds `n` rows: it
/// stays where it was (the first row when there was none) as far as the
/// shorter list allows.
pub open spec fn kept_selection(prev: Option<usize>, n: int) -> Option<usize> {
    let p = match prev {
        Some(i) => i as int,
        None => 0,
    };
    if n == 0 {
        None
    } else {
        Some((if p < n - 1 {
            p
        } else {
            n - 1
        }) as usize)
    }
}

/// State of the posts tab.
pub struct PostsState {
    pub posts: Vec<Post>,
    /// Selected row of the feed.
    pub selected: Option<usize>,
    pub loading: bool,
    pub error: Option<String>,
    /// A short notice shown under the feed, and the time it was shown in
    /// milliseconds since the epoch.
    pub message: Option<(String, u64)>,
    pub show_new_post_modal: bool,
    pub new_post_content: String,
    /// Set to load the feed once the loading state has been drawn.
    pub pending_load: bool,
    pub current_filter: PostFilter,
    pub show_filter_modal: bool,
    pub filter_modal_state: FilterModalState,
    /// The selection sits on the last row and the user tried to go further.
    pub at_end_of_feed: bool,
    /// Top-level threads waiting for an admin's approval.
    pub pending_threads: Vec<Post>,
    pub pending_selected: Option<usize>,
    pub show_approval_queue: bool,
    pub pending_threads_loading: bool,
    pub pending_threads_loaded: bool,
    pub pending_threads_error: Option<String>,
}

/// Some post of `posts` has id `id`.
pub open spec fn has_post_id(posts: Seq<Post>, id: u128) -> bool {
    exists|k: int| 0 <= k < posts.len() && #[trigger] posts[k].id == id
}

/// The id of the post in row `sel`, if that row holds one.
pub open spec fn selected_id(posts: Seq<Post>, sel: Option<usize>) -> Option<u128> {
    match sel {
        Some(i) => if i < posts.len() {
            Some(posts[i as int].id)
        } else {
            None
        },
        None => None,
    }
}

/// The selection `after` follows the post `want` into the list `posts`
/// (its first row with that id) where it is still there; otherwise it is
/// cleared for an empty list, put on the first row when there was none,
/// and left at `before` otherwise.
pub open spec fn restored_selection(
    posts: Seq<Post>,
    want: Option<u128>,
    before: Option<usize>,
    after: Option<usize>,
) -> bool {
    let found = match want {
        Some(id) => has_post_id(posts, id),
        None => false,
    };
    if found {
        &&& after is Some
        &&& after->0 < posts.len()
        &&& posts[after->0 as int].id == want->0
        &&& forall|j: int| 0 <= j < after->0 ==> #[trigger] posts[j].id != want->0
    } else if posts.len() == 0 {
        after is None
    } else if before is None {
        after == Some(0usize)
    } else {
        after == before
    }
}

fn find_post_id(posts: &Vec<Post>, id: u128) -> (r: Option<usize>)
    ensures
        match r {
            Some(k) => k < posts@.len() && posts@[k as int].id == id && forall|j: int|
                0 <= j < k ==> #[trigger] posts@[j].id != id,
            None => !has_post_id(posts@, id),
        },
{
    let mut k: usize = 0;
    while k < posts.len()
        invariant
            0 <= k <= posts@.len(),
            forall|j: int| 0 <= j < k ==> #[trigger] posts@[j].id != id,
        decreases posts@.len() - k,
    {
        if posts[k].id == id {
            return Some(k);
        }
        k = k + 1;
    }
    None
}

/// The admission test for a thread pushed by the server: not on the feed
/// and not seen before, approved, top-level, of the open community, and
/// passing the current filter.
pub open spec fn thread_admitted(
    posts: Seq<Post>,
    seen: Set<u128>,
    post: Post,
    community: Option<u128>,
    filter: PostFilter,
) -> bool {
    &&& !has_post_id(posts, post.id)
    &&& !seen.contains(post.id)
    &&& post.approved
    &&& post.parent_post_id is None
    &&& community == Some(post.community_id)
    &&& matches_filter(post, filter)
}

impl PostsState {
    /// An empty feed with nothing selected and no filter.
    pub fn new() -> (s: Self)
        ensures
            s.posts@.len() == 0,
            s.selected is None,
            s.current_filter == PostFilter::All,
            s.pending_threads@.len() == 0,
            s.pending_selected is None,
            !s.show_approval_queue,
            !s.at_end_of_feed,
            s.new_post_content@.len() == 0,
    {
        PostsState {
            posts: Vec::new(),
            selected: None,
            loading: false,
            error: None,
            message: None,
            show_new_post_modal: false,
            new_post_content: String::new(),
            pending_load: false,
            current_filter: PostFilter::All,
            show_filter_modal: false,
            filter_modal_state: FilterModalState::new(),
            at_end_of_feed: false,
            pending_threads: Vec::new(),
            pending_selected: None,
            show_approval_queue: false,
            pending_threads_loading: false,
            pending_threads_loaded: false,
            pending_threads_error: None,
        }
    }

    /// Every field but the posts and the selection is as in `o`.
    pub open spec fn same_except_feed(&self, o: &PostsState) -> bool {
        &&& self.loading == o.loading
        &&& self.error == o.error
        &&& self.message == o.message
        &&& self.show_new_post_modal == o.show_new_post_modal
        &&& self.new_post_content == o.new_post_content
        &&& self.pending_load == o.pending_load
        &&& self.current_filter == o.current_filter
        &&& self.show_filter_modal == o.show_filter_modal
        &&& self.filter_modal_state == o.filter_modal_state
        &&& self.at_end_of_feed == o.at_end_of_feed
        &&& self.pending_threads == o.pending_threads
        &&& self.pending_selected == o.pending_selected
        &&& self.show_approval_queue == o.show_approval_queue
        &&& self.pending_threads_loading == o.pending_threads_loading
        &&& self.pending_threads_loaded == o.pending_threads_loaded
        &&& self.pending_threads_error == o.pending_threads_error
    }

    /// The id of the selected post, if the selection is on one.
    pub fn selected_post_id(&self) -> (r: Option<u128>)
        ensures
            r == selected_id(self.posts@, self.selected),
    {
        match self.selected {
            Some(i) => if i < self.posts.len() {
                Some(self.posts[i].id)
            } else {
                None
            },
            None => None,
        }
    }

    /// Put the selection back on post `selected_post` after the feed changed.
    pub fn restore_selected_post(&mut self, selected_post: Option<u128>)
        ensures
            final(self).posts == old(self).posts,
            final(self).same_except_feed(&*old(self)),
            restored_selection(old(self).posts@, selected_post, old(self).selected, final(self).selected),
    {
        if let Some(post_id) = selected_post {
            if let Some(index) = find_post_id(&self.posts, post_id) {
                self.selected = Some(index);
                return;
            }
        }
        if self.posts.len() == 0 {
            self.selected = None;
        } else if self.selected.is_none() {
            self.selected = Some(0);
        }
    }

    /// Take in a thread pushed by the server: mark it seen, and where it is
    /// admitted, add it to the feed, re-sort and cut the feed, and keep the
    /// selection on the post it was on.
    pub fn apply_realtime_thread(
        &mut self,
        post: Post,
        seen_posts: &mut HashSet<u128>,
        community_id: Option<u128>,
        config: Option<UserConfig>,
    )
        ensures
            final(seen_posts)@ == old(seen_posts)@.insert(post.id),
            thread_step(*old(self), old(seen_posts)@, post, community_id, config, *final(self)),
    {
        let ghost before = *self;
        if find_post_id(&self.posts, post.id).is_some() {
            seen_posts.insert(post.id);
            return;
        }
        if !seen_posts.insert(post.id) {
            return;
        }
        if !post.approved || post.parent_post_id.is_some() {
            return;
        }
        match community_id {
            Some(c) => {
                if c != post.community_id {
                    return;
                }
            },
            None => {
                return;
            },
        }
        if !post_matches_filter(&post, &self.current_filter) {
            return;
        }
        let selected = self.selected_post_id();
        self.posts.push(post);
        sort_and_limit_posts(&mut self.posts, config);
        self.restore_selected_post(selected);
    }
}

/// One application of a pushed thread to the feed `s0`, with `seen` the ids
/// seen before: a thread that is not admitted leaves the feed as it was; an
/// admitted one joins it, the feed is re-sorted and cut, and the selection
/// follows the post it was on.
pub open spec fn thread_step(
    s0: PostsState,
    seen: Set<u128>,
    post: Post,
    community: Option<u128>,
    config: Option<UserConfig>,
    s1: PostsState,
) -> bool {
    if thread_admitted(s0.posts@, seen, post, community, s0.current_filter) {
        &&& is_sorted_limited(
            s0.posts@.push(post),
            feed_settings(config).0,
            feed_settings(config).1,
            s1.posts@,
        )
        &&& restored_selection(s1.posts@, selected_id(s0.posts@, s0.selected), s0.selected, s1.selected)
        &&& s1.same_except_feed(&s0)
    } else {
        s1 == s0
    }
}

/// A thread pushed twice is taken in at most once: the second delivery
/// changes nothing.
pub proof fn lemma_realtime_thread_idempotent(
    s0: PostsState,
    seen0: Set<u128>,
    post: Post,
    community: Option<u128>,
    config: Option<UserConfig>,
    s1: PostsState,
    s2: PostsState,
)
    requires
        thread_step(s0, seen0, post, community, config, s1),
        thread_step(s1, seen0.insert(post.id), post, community, config, s2),
    ensures
        s2 == s1,
        seen0.insert(post.id).insert(post.id) == seen0.insert(post.id),
{
    assert(seen0.insert(post.id).contains(post.id));
    assert(seen0.insert(post.id).insert(post.id) =~= seen0.insert(post.id));
}

/// The texts of a list of strings.
pub open spec fn str_views(v: Seq<String>) -> Seq<Seq<char>> {
    v.map_values(|x: String| x@)
}

/// `after` is `before` with `item` checked or unchecked: its first
/// occurrence removed where there is one, else `item` appended.
pub open spec fn is_toggled(before: Seq<Seq<char>>, item: Seq<char>, after: Seq<Seq<char>>) -> bool {
    if before.contains(item) {
        exists|k: int|
            0 <= k < before.len() && before[k] == item && (forall|j: int|
                0 <= j < k ==> before[j] != item) && #[trigger] before.remove(k) == after
    } else {
        after == before.push(item)
    }
}

/// A copy of a list of strings.
pub fn clone_strings(v: &Vec<String>) -> (r: Vec<String>)
    ensures
        str_views(r@) == str_views(v@),
{
    let mut r: Vec<String> = Vec::new();
    let mut i: usize = 0;
    while i < v.len()
        invariant
            0 <= i <= v@.len(),
            r@.len() == i,
            forall|k: int| 0 <= k < i ==> #[trigger] r@[k]@ == v@[k]@,
        decreases v@.len() - i,
    {
        let x = crate::text::owned(v[i].as_str());
        r.push(x);
        i = i + 1;
    }
    proof {
        assert(str_views(r@) =~= str_views(v@));
    }
    r
}

fn position_of_string(v: &Vec<String>, s: &String) -> (r: Option<usize>)
    ensures
        match r {
            Some(k) => k < v@.len() && v@[k as int]@ == s@ && forall|j: int|
                0 <= j < k ==> #[trigger] v@[j]@ != s@,
            None => !str_views(v@).contains(s@),
        },
{
    let mut k: usize = 0;
    while k < v.len()
        invariant
            0 <= k <= v@.len(),
            forall|j: int| 0 <= j < k ==> #[trigger] v@[j]@ != s@,
        decreases v@.len() - k,
    {
        if v[k] == *s {
            return Some(k);
        }
        k = k + 1;
    }
    proof {
        if str_views(v@).contains(s@) {
            let t = choose|t: int| 0 <= t < str_views(v@).len() && str_views(v@)[t] == s@;
            assert(v@[t]@ == s@);
        }
    }
    None
}

/// Check `item` in `checked` if it is not there, uncheck it if it is.
pub fn toggle_string(checked: &mut Vec<String>, item: &String)
    ensures
        is_toggled(str_views(old(checked)@), item@, str_views(final(checked)@)),
{
    let ghost before = str_views(checked@);
    match position_of_string(checked, item) {
        Some(pos) => {
            checked.remove(pos);
            proof {
                assert(before[pos as int] == item@);
                assert(before.contains(item@));
                assert(before.remove(pos as int) =~= str_views(checked@));
            }
        },
        None => {
            checked.push(crate::text::owned(item.as_str()));
            proof {
                assert(str_views(checked@) =~= before.push(item@));
            }
        },
    }
}

/// `n` is `o` with the highlighted hashtag or user checked or unchecked;
/// nothing changes on the "All" tab or past the end of the list.
pub open spec fn item_toggled(o: FilterModalState, n: FilterModalState) -> bool {
    let i = o.selected_index as int;
    match o.selected_tab {
        FilterTab::Hashtags => if i < o.hashtag_list@.len() {
            &&& is_toggled(
                str_views(o.checked_hashtags@),
                o.hashtag_list@[i]@,
                str_views(n.checked_hashtags@),
            )
            &&& n == (FilterModalState {
                checked_hashtags: n.checked_hashtags,
                ..o
            })
        } else {
            n == o
        },
        FilterTab::Users => if i < o.user_list@.len() {
            &&& is_toggled(
                str_views(o.checked_users@),
                o.user_list@[i]@,
                str_views(n.checked_users@),
            )
            &&& n == (FilterModalState {
                checked_users: n.checked_users,
                ..o
            })
        } else {
            n == o
        },
        FilterTab::All => n == o,
    }
}

impl FilterModalState {
    /// Check or uncheck the highlighted hashtag or user; the "All" tab has
    /// nothing to check.
    pub fn toggle_filter_item(&mut self)
        ensures
            item_toggled(*old(self), *final(self)),
    {
        let i = self.selected_index;
        match self.selected_tab {
            FilterTab::Hashtags => {
                if i < self.hashtag_list.len() {
                    let item = crate::text::owned(self.hashtag_list[i].as_str());
                    toggle_string(&mut self.checked_hashtags, &item);
                }
            },
            FilterTab::Users => {
                if i < self.user_list.len() {
                    let item = crate::text::owned(self.user_list[i].as_str());
                    toggle_string(&mut self.checked_users, &item);
                }
            },
            FilterTab::All => {},
        }
    }
}

pub open spec fn filter_tab_next(t: FilterTab) -> FilterTab {
    match t {
        FilterTab::All => FilterTab::Hashtags,
        FilterTab::Hashtags => FilterTab::Users,
        FilterTab::Users => FilterTab::All,
    }
}

pub open spec fn filter_tab_previous(t: FilterTab) -> FilterTab {
    match t {
        FilterTab::All => FilterTab::Users,
        FilterTab::Users => FilterTab::Hashtags,
        FilterTab::Hashtags => FilterTab::All,
    }
}

/// The last row of the filter modal's tab: none past the first on "All",
/// the "add hashtag" row after the hashtags, the last user.
pub open spec fn filter_max_index(s: FilterModalState) -> int {
    match s.selected_tab {
        FilterTab::All => 0,
        FilterTab::Hashtags => s.hashtag_list@.len() as int,
        FilterTab::Users => if s.user_list@.len() > 0 {
            s.user_list@.len() - 1
        } else {
            0
        },
    }
}

impl FilterModalState {
    /// The followed hashtags and the followed users' names arrived for the
    /// filter lists; a list that could not be loaded (`None`) is shown
    /// empty.
    pub fn apply_filter_lists(&mut self, hashtags: Option<Vec<String>>, users: Option<Vec<String>>)
        ensures
            match hashtags {
                Some(h) => final(self).hashtag_list@ == h@,
                None => final(self).hashtag_list@.len() == 0,
            },
            match users {
                Some(u) => final(self).user_list@ == u@,
                None => final(self).user_list@.len() == 0,
            },
            *final(self) == (FilterModalState {
                hashtag_list: final(self).hashtag_list,
                user_list: final(self).user_list,
                ..*old(self)
            }),
    {
        match hashtags {
            Some(h) => {
                self.hashtag_list = h;
            },
            None => {
                self.hashtag_list.clear();
            },
        }
        match users {
            Some(u) => {
                self.user_list = u;
            },
            None => {
                self.user_list.clear();
            },
        }
    }

    /// Carry out a filter-modal command on the modal itself: edit, open or
    /// close the add-hashtag input, switch tabs (back to the first row),
    /// move within the tab, or check the highlighted item. The other
    /// commands leave the modal to the caller.
    pub fn apply_filter_command(&mut self, cmd: FilterCommand)
        ensures
            match cmd {
                FilterCommand::TypeHashtag(c) => *final(self) == (FilterModalState {
                    add_hashtag_input: final(self).add_hashtag_input,
                    ..*old(self)
                }) && final(self).add_hashtag_input@ == old(self).add_hashtag_input@.push(c),
                FilterCommand::EraseHashtagChar => *final(self) == (FilterModalState {
                    add_hashtag_input: final(self).add_hashtag_input,
                    ..*old(self)
                }) && final(self).add_hashtag_input@ == (if old(self).add_hashtag_input@.len() > 0 {
                    old(self).add_hashtag_input@.drop_last()
                } else {
                    old(self).add_hashtag_input@
                }),
                FilterCommand::CloseAddInput => *final(self) == (FilterModalState {
                    show_add_hashtag_input: false,
                    add_hashtag_input: final(self).add_hashtag_input,
                    ..*old(self)
                }) && final(self).add_hashtag_input@.len() == 0,
                FilterCommand::OpenAddInput => *final(self) == (FilterModalState {
                    show_add_hashtag_input: true,
                    add_hashtag_input: final(self).add_hashtag_input,
                    ..*old(self)
                }) && final(self).add_hashtag_input@.len() == 0,
                FilterCommand::NextTab => *final(self) == (FilterModalState {
                    selected_tab: filter_tab_next(old(self).selected_tab),
                    selected_index: 0,
                    ..*old(self)
                }),
                FilterCommand::PreviousTab => *final(self) == (FilterModalState {
                    selected_tab: filter_tab_previous(old(self).selected_tab),
                    selected_index: 0,
                    ..*old(self)
                }),
                FilterCommand::Down => *final(self) == (FilterModalState {
                    selected_index: (if old(self).selected_index < filter_max_index(*old(self)) {
                        old(self).selected_index + 1
                    } else {
                        old(self).selected_index as int
                    }) as usize,
                    ..*old(self)
                }),
                FilterCommand::Up => *final(self) == (FilterModalState {
                    selected_index: (if old(self).selected_index > 0 {
                        old(self).selected_index - 1
                    } else {
                        0
                    }) as usize,
                    ..*old(self)
                }),
                FilterCommand::Toggle => item_toggled(*old(self), *final(self)),
                _ => *final(self) == *old(self),
            },
    {
        match cmd {
            FilterCommand::TypeHashtag(c) => {
                push_char(&mut self.add_hashtag_input, c);
            },
            FilterCommand::EraseHashtagChar => {
                pop_char(&mut self.add_hashtag_input);
            },
            FilterCommand::CloseAddInput => {
                self.show_add_hashtag_input = false;
                self.add_hashtag_input = String::new();
            },
            FilterCommand::OpenAddInput => {
                self.show_add_hashtag_input = true;
                self.add_hashtag_input = String::new();
            },
            FilterCommand::NextTab => {
                self.selected_tab = match self.selected_tab {
                    FilterTab::All => FilterTab::Hashtags,
                    FilterTab::Hashtags => FilterTab::Users,
                    FilterTab::Users => FilterTab::All,
                };
                self.selected_index = 0;
            },
            FilterCommand::PreviousTab => {
                self.selected_tab = match self.selected_tab {
                    FilterTab::All => FilterTab::Users,
                    FilterTab::Users => FilterTab::Hashtags,
                    FilterTab::Hashtags => FilterTab::All,
                };
                self.selected_index = 0;
            },
            FilterCommand::Down => {
                let max_index = match self.selected_tab {
                    FilterTab::All => 0,
                    FilterTab::Hashtags => self.hashtag_list.len(),
                    FilterTab::Users => self.user_list.len().saturating_sub(1),
                };
                if self.selected_index < max_index {
                    self.selected_index = self.selected_index + 1;
                }
            },
            FilterCommand::Up => {
                if self.selected_index > 0 {
                    self.selected_index = self.selected_index - 1;
                }
            },
            FilterCommand::Toggle => {
                self.toggle_filter_item();
            },
            _ => {},
        }
    }
}

/// Holds of the posts whose id is not `id`.
pub open spec fn other_than(id: u128) -> spec_fn(Post) -> bool {
    |p: Post| p.id != id
}

/// The posts of `s` whose id is not `id`, in order.
pub open spec fn without_id(s: Seq<Post>, id: u128) -> Seq<Post> {
    s.filter(other_than(id))
}

fn remove_posts_with_id(posts: &mut Vec<Post>, id: u128)
    ensures
        final(posts)@ == without_id(old(posts)@, id),
{
    let mut kept: Vec<Post> = Vec::new();
    let mut taken: Vec<Post> = Vec::new();
    std::mem::swap(&mut taken, posts);
    let ghost orig = taken@;
    let n = taken.len();
    let mut rev: Vec<Post> = Vec::new();
    while taken.len() > 0
        invariant
            n == orig.len(),
            taken@ == orig.subrange(0, taken@.len() as int),
            rev@.len() == n - taken@.len(),
            forall|k: int| 0 <= k < rev@.len() ==> rev@[k] == orig[n - 1 - k],
        decreases taken@.len(),
    {
        let x = taken.pop().unwrap();
        rev.push(x);
        proof {
            assert(taken@ =~= orig.subrange(0, taken@.len() as int));
        }
    }
    let mut i: usize = 0;
    while rev.len() > 0
        invariant
            n == orig.len(),
            i + rev@.len() == n,
            forall|k: int| 0 <= k < rev@.len() ==> rev@[k] == orig[n - 1 - k],
            kept@ == orig.subrange(0, i as int).filter(other_than(id)),
        decreases rev@.len(),
    {
        let x = rev.pop().unwrap();
        proof {
            assert(x == orig[i as int]);
            reveal(Seq::filter);
            assert(orig.subrange(0, i + 1).drop_last() =~= orig.subrange(0, i as int));
            assert(orig.subrange(0, i + 1).last() == x);
            assert(other_than(id)(x) == (x.id != id));
            assert(orig.subrange(0, i + 1).filter(other_than(id)) == (if x.id != id {
                orig.subrange(0, i as int).filter(other_than(id)).push(x)
            } else {
                orig.subrange(0, i as int).filter(other_than(id))
            }));
        }
        if x.id != id {
            kept.push(x);
        }
        i = i + 1;
    }
    proof {
        assert(orig.subrange(0, n as int) =~= orig);
    }
    *posts = kept;
}

/// The row after `cur` in a list of `len` rows, staying on the last row.
pub open spec fn step_down(cur: Option<usize>, len: int) -> Option<usize> {
    if len == 0 {
        None
    } else {
        let c = match cur {
            Some(i) => i as int,
            None => 0,
        };
        Some((if c + 1 < len - 1 {
            c + 1
        } else {
            len - 1
        }) as usize)
    }
}

/// The row before `cur` in a list of `len` rows, staying on the first row.
pub open spec fn step_up(cur: Option<usize>, len: int) -> Option<usize> {
    if len == 0 {
        None
    } else {
        let c = match cur {
            Some(i) => i as int,
            None => 0,
        };
        Some((if c > 0 {
            c - 1
        } else {
            0
        }) as usize)
    }
}

impl PostsState {
    /// Move the feed selection down one row. The rows are `offset` rows
    /// above the posts and then one row per post; at the last row the
    /// selection stays and the end of the feed is flagged.
    pub fn next_post(&mut self, offset: usize)
        requires
            offset + old(self).posts@.len() <= usize::MAX,
        ensures
            old(self).posts@.len() == 0 ==> *final(self) == *old(self),
            old(self).posts@.len() > 0 ==> {
                let total = offset + old(self).posts@.len();
                match old(self).selected {
                    Some(i) => if i >= total - 1 {
                        final(self).selected == Some(i) && final(self).at_end_of_feed
                    } else {
                        final(self).selected == Some((i + 1) as usize) && !final(self).at_end_of_feed
                    },
                    None => final(self).selected == Some(offset) && !final(self).at_end_of_feed,
                }
            },
            *final(self) == (PostsState {
                selected: final(self).selected,
                at_end_of_feed: final(self).at_end_of_feed,
                ..*old(self)
            }),
    {
        if self.posts.len() == 0 {
            return;
        }
        let total = offset + self.posts.len();
        let next = match self.selected {
            Some(i) => {
                if i >= total - 1 {
                    self.at_end_of_feed = true;
                    i
                } else {
                    self.at_end_of_feed = false;
                    i + 1
                }
            },
            None => {
                self.at_end_of_feed = false;
                offset
            },
        };
        self.selected = Some(next);
    }

    /// Move the feed selection up one row, never above the first post row,
    /// and clear the end-of-feed flag.
    pub fn previous_post(&mut self, offset: usize)
        ensures
            old(self).posts@.len() == 0 ==> *final(self) == *old(self),
            old(self).posts@.len() > 0 ==> {
                &&& !final(self).at_end_of_feed
                &&& final(self).selected == (match old(self).selected {
                    Some(i) => if i > offset {
                        Some((i - 1) as usize)
                    } else {
                        Some(offset)
                    },
                    None => Some(offset),
                })
            },
            *final(self) == (PostsState {
                selected: final(self).selected,
                at_end_of_feed: final(self).at_end_of_feed,
                ..*old(self)
            }),
    {
        if self.posts.len() == 0 {
            return;
        }
        self.at_end_of_feed = false;
        match self.selected {
            Some(i) => {
                if i > offset {
                    self.selected = Some(i - 1);
                } else {
                    self.selected = Some(offset);
                }
            },
            None => {
                self.selected = Some(offset);
            },
        }
    }

    /// Move down the approval queue, staying on its last thread.
    pub fn next_pending_thread(&mut self)
        ensures
            final(self).pending_selected == step_down(
                old(self).pending_selected,
                old(self).pending_threads@.len() as int,
            ),
            *final(self) == (PostsState { pending_selected: final(self).pending_selected, ..*old(self) }),
    {
        let len = self.pending_threads.len();
        if len == 0 {
            self.pending_selected = None;
            return;
        }
        let current = match self.pending_selected {
            Some(i) => i,
            None => 0,
        };
        if current < len - 1 && current + 1 < len - 1 {
            self.pending_selected = Some(current + 1);
        } else {
            self.pending_selected = Some(len - 1);
        }
    }

    /// Move up the approval queue, staying on its first thread.
    pub fn previous_pending_thread(&mut self)
        ensures
            final(self).pending_selected == step_up(
                old(self).pending_selected,
                old(self).pending_threads@.len() as int,
            ),
            *final(self) == (PostsState { pending_selected: final(self).pending_selected, ..*old(self) }),
    {
        let len = self.pending_threads.len();
        if len == 0 {
            self.pending_selected = None;
            return;
        }
        let current = match self.pending_selected {
            Some(i) => i,
            None => 0,
        };
        self.pending_selected = Some(current.saturating_sub(1));
    }

    /// The id of the highlighted thread in the approval queue.
    pub fn selected_pending_thread_id(&self) -> (r: Option<u128>)
        ensures
            r == selected_id(self.pending_threads@, self.pending_selected),
    {
        match self.pending_selected {
            Some(i) => if i < self.pending_threads.len() {
                Some(self.pending_threads[i].id)
            } else {
                None
            },
            None => None,
        }
    }

    /// Drop thread `post_id` from the approval queue after it was approved or
    /// rejected, keeping the highlight where it was as far as the shorter
    /// queue allows.
    pub fn remove_pending_thread(&mut self, post_id: u128)
        ensures
            final(self).pending_threads@ == without_id(old(self).pending_threads@, post_id),
            final(self).pending_selected == kept_selection(
                old(self).pending_selected,
                final(self).pending_threads@.len() as int,
            ),
            *final(self) == (PostsState {
                pending_threads: final(self).pending_threads,
                pending_selected: final(self).pending_selected,
                ..*old(self)
            }),
    {
        let previous = match self.pending_selected {
            Some(i) => i,
            None => 0,
        };
        remove_posts_with_id(&mut self.pending_threads, post_id);
        let n = self.pending_threads.len();
        if n == 0 {
            self.pending_selected = None;
        } else if previous < n - 1 {
            self.pending_selected = Some(previous);
        } else {
            self.pending_selected = Some(n - 1);
        }
    }

    /// Empty and hide the approval queue.
    pub fn clear_approval_queue(&mut self)
        ensures
            final(self).pending_threads@.len() == 0,
            final(self).pending_selected is None,
            !final(self).show_approval_queue,
            !final(self).pending_threads_loading,
            !final(self).pending_threads_loaded,
            *final(self) == (PostsState {
                pending_threads: final(self).pending_threads,
                pending_selected: None,
                show_approval_queue: false,
                pending_threads_loading: false,
                pending_threads_loaded: false,
                pending_threads_error: None,
                ..*old(self)
            }),
    {
        self.pending_threads.clear();
        self.pending_selected = None;
        self.show_approval_queue = false;
        self.pending_threads_loading = false;
        self.pending_threads_loaded = false;
        self.pending_threads_error = None;
    }

    /// Hide the approval queue and return to navigation input.
    pub fn close_approval_queue(&mut self, input_mode: &mut InputMode)
        ensures
            *final(self) == (PostsState {
                show_approval_queue: false,
                pending_threads_error: None,
                ..*old(self)
            }),
            *final(input_mode) == InputMode::Navigation,
    {
        self.show_approval_queue = false;
        self.pending_threads_error = None;
        *input_mode = InputMode::Navigation;
    }

    /// Vote `direction` on the selected post: clear the error, update the
    /// counts optimistically, and say which post to send what for. Nothing
    /// happens without a selected post.
    pub fn vote_on_selected_post(&mut self, direction: &str) -> (r: Option<(u128, VoteRequest)>)
        requires
            old(self).selected matches Some(i) ==> (i < old(self).posts@.len() ==> old(
                self,
            ).posts@[i as int].vote_fits(direction@)),
        ensures
            match old(self).selected {
                Some(i) if i < old(self).posts@.len() => {
                    let p = old(self).posts@[i as int];
                    &&& r == Some((p.id, vote_request(p.tally().user_vote, direction@)))
                    &&& final(self).posts@.len() == old(self).posts@.len()
                    &&& final(self).posts@[i as int].tally() == vote_outcome(p.tally(), direction@)
                    &&& final(self).posts@[i as int].same_except_votes(&p)
                    &&& forall|j: int|
                        0 <= j < old(self).posts@.len() && j != i ==> final(self).posts@[j] == old(
                            self,
                        ).posts@[j]
                    &&& final(self).error is None
                    &&& final(self).selected == old(self).selected
                },
                _ => r is None && *final(self) == *old(self),
            },
    {
        match self.selected {
            Some(i) => {
                if i < self.posts.len() {
                    self.error = None;
                    let id = self.posts[i].id;
                    let req = self.posts[i].apply_vote(direction);
                    Some((id, req))
                } else {
                    None
                }
            },
            None => None,
        }
    }

    /// Open the filter modal on its first row, checking what the current
    /// filter checks.
    pub fn open_filter_modal(&mut self, input_mode: &mut InputMode)
        ensures
            final(self).show_filter_modal,
            final(self).filter_modal_state.selected_index == 0,
            final(self).filter_modal_state.search_input@.len() == 0,
            *final(input_mode) == InputMode::Navigation,
            match old(self).current_filter {
                PostFilter::Multi { hashtags, users } => str_views(
                    final(self).filter_modal_state.checked_hashtags@,
                ) == str_views(hashtags@) && str_views(final(self).filter_modal_state.checked_users@)
                    == str_views(users@),
                PostFilter::All => final(self).filter_modal_state.checked_hashtags@.len() == 0
                    && final(self).filter_modal_state.checked_users@.len() == 0,
            },
            *final(self) == (PostsState {
                show_filter_modal: true,
                filter_modal_state: final(self).filter_modal_state,
                ..*old(self)
            }),
            final(self).filter_modal_state == (FilterModalState {
                selected_index: 0,
                search_input: final(self).filter_modal_state.search_input,
                checked_hashtags: final(self).filter_modal_state.checked_hashtags,
                checked_users: final(self).filter_modal_state.checked_users,
                ..old(self).filter_modal_state
            }),
    {
        self.show_filter_modal = true;
        self.filter_modal_state.selected_index = 0;
        self.filter_modal_state.search_input = String::new();
        *input_mode = InputMode::Navigation;
        self.filter_modal_state.checked_hashtags.clear();
        self.filter_modal_state.checked_users.clear();
        match &self.current_filter {
            PostFilter::Multi { hashtags, users } => {
                self.filter_modal_state.checked_hashtags = clone_strings(hashtags);
                self.filter_modal_state.checked_users = clone_strings(users);
            },
            PostFilter::All => {},
        }
    }

    /// Close the filter modal, keeping what is checked for next time.
    pub fn close_filter_modal(&mut self, input_mode: &mut InputMode)
        ensures
            !final(self).show_filter_modal,
            !final(self).filter_modal_state.search_mode,
            final(self).filter_modal_state.search_input@.len() == 0,
            final(self).filter_modal_state.search_results@.len() == 0,
            *final(input_mode) == InputMode::Navigation,
            *final(self) == (PostsState {
                show_filter_modal: false,
                filter_modal_state: final(self).filter_modal_state,
                ..*old(self)
            }),
            final(self).filter_modal_state == (FilterModalState {
                search_mode: false,
                search_input: final(self).filter_modal_state.search_input,
                search_results: final(self).filter_modal_state.search_results,
                ..old(self).filter_modal_state
            }),
    {
        self.show_filter_modal = false;
        self.filter_modal_state.search_mode = false;
        self.filter_modal_state.search_input = String::new();
        self.filter_modal_state.search_results.clear();
        *input_mode = InputMode::Navigation;
    }

    /// Close the filter modal and uncheck everything.
    pub fn cancel_filter_modal(&mut self, input_mode: &mut InputMode)
        ensures
            !final(self).show_filter_modal,
            final(self).filter_modal_state.checked_hashtags@.len() == 0,
            final(self).filter_modal_state.checked_users@.len() == 0,
            final(self).filter_modal_state.search_input@.len() == 0,
            final(self).filter_modal_state.search_results@.len() == 0,
            *final(input_mode) == InputMode::Navigation,
            *final(self) == (PostsState {
                show_filter_modal: false,
                filter_modal_state: final(self).filter_modal_state,
                ..*old(self)
            }),
            final(self).filter_modal_state == (FilterModalState {
                search_mode: false,
                search_input: final(self).filter_modal_state.search_input,
                search_results: final(self).filter_modal_state.search_results,
                checked_hashtags: final(self).filter_modal_state.checked_hashtags,
                checked_users: final(self).filter_modal_state.checked_users,
                ..old(self).filter_modal_state
            }),
    {
        self.filter_modal_state.checked_hashtags.clear();
        self.filter_modal_state.checked_users.clear();
        self.close_filter_modal(input_mode);
    }

    /// Make `filter` the current filter, close the modal, and ask for the
    /// feed to be loaded again.
    pub fn apply_filter(&mut self, filter: PostFilter, input_mode: &mut InputMode)
        ensures
            final(self).current_filter == filter,
            !final(self).show_filter_modal,
            final(self).pending_load,
            *final(input_mode) == InputMode::Navigation,
            final(self).filter_modal_state.search_input@.len() == 0,
            final(self).filter_modal_state.search_results@.len() == 0,
            *final(self) == (PostsState {
                current_filter: filter,
                show_filter_modal: false,
                pending_load: true,
                filter_modal_state: final(self).filter_modal_state,
                ..*old(self)
            }),
            final(self).filter_modal_state == (FilterModalState {
                search_mode: false,
                search_input: final(self).filter_modal_state.search_input,
                search_results: final(self).filter_modal_state.search_results,
                ..old(self).filter_modal_state
            }),
    {
        self.current_filter = filter;
        self.close_filter_modal(input_mode);
        self.pending_load = true;
    }

    /// The filter in effect when the feed opens: all posts.
    pub fn load_filter_preference(&mut self)
        ensures
            *final(self) == (PostsState { current_filter: PostFilter::All, ..*old(self) }),
    {
        self.current_filter = PostFilter::All;
    }

    /// Type `c` into the new post, unless it already holds 280 bytes or more.
    pub fn add_char_to_post(&mut self, c: char)
        ensures
            final(self).new_post_content@ == (if utf8_bytes(old(self).new_post_content@) < 280 {
                old(self).new_post_content@.push(c)
            } else {
                old(self).new_post_content@
            }),
            *final(self) == (PostsState { new_post_content: final(self).new_post_content, ..*old(self) }),
    {
        let mut cs = chars_of(self.new_post_content.as_str());
        if utf8_bytes_below(cs.as_slice(), 280) {
            cs.push(c);
            self.new_post_content = string_from_chars(cs.as_slice());
        }
    }

    /// Delete the last character of the new post, if any.
    pub fn remove_char_from_post(&mut self)
        ensures
            final(self).new_post_content@ == (if old(self).new_post_content@.len() > 0 {
                old(self).new_post_content@.drop_last()
            } else {
                old(self).new_post_content@
            }),
            *final(self) == (PostsState { new_post_content: final(self).new_post_content, ..*old(self) }),
    {
        let mut cs = chars_of(self.new_post_content.as_str());
        if cs.len() > 0 {
            cs.pop();
            self.new_post_content = string_from_chars(cs.as_slice());
        }
    }
}

impl PostsState {
    /// Take a deleted post off the feed: the first post with id `post_id`
    /// goes, and a selection past the new end moves to the last post (none
    /// when the feed is empty).
    pub fn remove_post_from_feed(&mut self, post_id: u128)
        ensures
            !has_post_id(old(self).posts@, post_id) ==> *final(self) == *old(self),
            has_post_id(old(self).posts@, post_id) ==> exists|k: int|
                0 <= k < old(self).posts@.len() && old(self).posts@[k].id == post_id && (forall|j: int|
                    0 <= j < k ==> #[trigger] old(self).posts@[j].id != post_id) && #[trigger] old(self).posts@.remove(k)
                    == final(self).posts@ && final(self).selected == (if final(self).posts@.len() == 0 {
                    None
                } else if k >= final(self).posts@.len() {
                    Some((final(self).posts@.len() - 1) as usize)
                } else {
                    old(self).selected
                }),
            final(self).same_except_feed(&*old(self)),
    {
        match find_post_id(&self.posts, post_id) {
            Some(k) => {
                let ghost before = self.posts@;
                self.posts.remove(k);
                let n = self.posts.len();
                if n == 0 {
                    self.selected = None;
                } else if k >= n {
                    self.selected = Some(n - 1);
                }
                proof {
                    assert(before[k as int].id == post_id);
                }
            },
            None => {},
        }
    }
}

impl PostsState {
    /// Back from the post detail view: select the feed row it was opened
    /// from, when there was one.
    pub fn return_to_feed_position(&mut self, previous: Option<usize>)
        ensures
            *final(self) == (PostsState {
                selected: if previous is Some {
                    previous
                } else {
                    old(self).selected
                },
                ..*old(self)
            }),
    {
        if previous.is_some() {
            self.selected = previous;
        }
    }

    /// Show the notice `text` under the feed from time `now_ms` on.
    pub fn show_message(&mut self, text: String, now_ms: u64)
        ensures
            *final(self) == (PostsState { message: Some((text, now_ms)), ..*old(self) }),
    {
        self.message = Some((text, now_ms));
    }
}

/// The size and order of the feed to ask the server for: the configured
/// ones, or 25 posts newest first when no settings are loaded.
pub fn feed_query(config: Option<UserConfig>) -> (r: (i32, SortOrder))
    ensures
        r == (match config {
            Some(c) => (c.max_posts_display, c.sort_order),
            None => (25i32, SortOrder::Newest),
        }),
{
    match config {
        Some(c) => (c.max_posts_display, c.sort_order),
        None => (25, SortOrder::Newest),
    }
}

/// `seen` grown by the ids of `posts`.
pub open spec fn with_ids(seen: Set<u128>, posts: Seq<Post>) -> Set<u128> {
    seen.union(Set::new(|id: u128| has_post_id(posts, id)))
}

impl PostsState {
    /// Start loading the feed: no error, no filter; with a community to
    /// load from, no notice either.
    pub fn begin_load(&mut self, has_community: bool)
        ensures
            *final(self) == (PostsState {
                loading: true,
                error: None,
                current_filter: PostFilter::All,
                message: if has_community {
                    None
                } else {
                    old(self).message
                },
                ..*old(self)
            }),
    {
        self.loading = true;
        self.error = None;
        self.current_filter = PostFilter::All;
        if has_community {
            self.message = None;
        }
    }

    /// No community is open: the feed is empty.
    pub fn apply_no_community(&mut self)
        ensures
            *final(self) == (PostsState {
                posts: final(self).posts,
                selected: None,
                loading: false,
                ..*old(self)
            }),
            final(self).posts@.len() == 0,
    {
        self.posts.clear();
        self.selected = None;
        self.loading = false;
    }

    /// The feed arrived: it is shown from its first post, and its posts
    /// count as seen for the realtime connection.
    pub fn apply_loaded_posts(&mut self, posts: Vec<Post>, seen: &mut HashSet<u128>)
        ensures
            *final(self) == (PostsState {
                posts: posts,
                selected: if posts@.len() > 0 {
                    Some(0usize)
                } else {
                    None
                },
                loading: false,
                ..*old(self)
            }),
            final(seen)@ == with_ids(old(seen)@, posts@),
    {
        let mut k: usize = 0;
        while k < posts.len()
            invariant
                0 <= k <= posts@.len(),
                seen@ == old(seen)@.union(
                    Set::new(|id: u128| exists|j: int| 0 <= j < k && #[trigger] posts@[j].id == id),
                ),
            decreases posts@.len() - k,
        {
            let ghost before = seen@;
            seen.insert(posts[k].id);
            proof {
                assert(seen@ =~= old(seen)@.union(
                    Set::new(|id: u128| exists|j: int| 0 <= j < k + 1 && #[trigger] posts@[j].id == id),
                )) by {
                    assert forall|id: u128| #[trigger] seen@.contains(id) == old(seen)@.union(
                        Set::new(|id: u128| exists|j: int| 0 <= j < k + 1 && #[trigger] posts@[j].id == id),
                    ).contains(id) by {
                        if id == posts@[k as int].id {
                            assert(posts@[k as int].id == id);
                        }
                    }
                }
            }
            k = k + 1;
        }
        proof {
            assert(seen@ =~= with_ids(old(seen)@, posts@));
        }
        let n = posts.len();
        self.posts = posts;
        self.selected = if n > 0 {
            Some(0)
        } else {
            None
        };
        self.loading = false;
    }

    /// Loading the feed failed with the (categorized) message `message`.
    pub fn apply_load_error(&mut self, message: String)
        ensures
            *final(self) == (PostsState { error: Some(message), loading: false, ..*old(self) }),
    {
        self.error = Some(message);
        self.loading = false;
    }
}

/// `posts` after a reply to `parent_id`: the first post with that id
/// counts one more reply.
pub open spec fn reply_counted(old_posts: Seq<Post>, parent_id: u128, new_posts: Seq<Post>) -> bool {
    &&& new_posts.len() == old_posts.len()
    &&& forall|k: int|
        0 <= k < old_posts.len() ==> #[trigger] new_posts[k] == (if old_posts[k].id == parent_id
            && forall|j: int| 0 <= j < k ==> old_posts[j].id != parent_id {
            Post { reply_count: (old_posts[k].reply_count + 1) as i32, ..old_posts[k] }
        } else {
            old_posts[k]
        })
}

impl PostsState {
    /// A reply to post `parent_id` was posted: the listed post counts it
    /// at once, before the thread is loaded again.
    pub fn count_new_reply(&mut self, parent_id: u128)
        requires
            forall|k: int|
                0 <= k < old(self).posts@.len() && #[trigger] old(self).posts@[k].id == parent_id
                    ==> old(self).posts@[k].reply_count < i32::MAX,
        ensures
            reply_counted(old(self).posts@, parent_id, final(self).posts@),
            *final(self) == (PostsState { posts: final(self).posts, ..*old(self) }),
    {
        match find_post_id(&self.posts, parent_id) {
            Some(k) => {
                let ghost before = self.posts@;
                let n = self.posts[k].reply_count + 1;
                self.posts[k].reply_count = n;
                proof {
                    assert forall|i: int| 0 <= i < before.len() implies #[trigger] self.posts@[i]
                        == (if before[i].id == parent_id && forall|j: int|
                        0 <= j < i ==> before[j].id != parent_id {
                        Post { reply_count: (before[i].reply_count + 1) as i32, ..before[i] }
                    } else {
                        before[i]
                    }) by {
                        if i < k {
                            assert(before[i].id != parent_id);
                        } else if i > k {
                            assert(before[k as int].id == parent_id);
                        }
                    }
                }
            },
            None => {
                proof {
                    assert forall|i: int| 0 <= i < self.posts@.len() implies self.posts@[i].id
                        != parent_id by {
                        if self.posts@[i].id == parent_id {
                            assert(has_post_id(self.posts@, parent_id));
                        }
                    }
                }
            },
        }
    }
}

/// The queue decision taken on a pending thread.
#[derive(Debug, Clone, Copy, PartialEq, Eq, Structural)]
pub enum Moderation {
    Approved,
    Rejected,
}

impl PostsState {
    /// Open the approval queue: only an admin of the open community may;
    /// anyone else sees why. Returns whether the queue is to be loaded.
    pub fn open_approval_queue(&mut self, is_admin: bool) -> (load: bool)
        ensures
            load == is_admin,
            is_admin ==> *final(self) == (PostsState {
                show_approval_queue: true,
                pending_threads_error: None,
                ..*old(self)
            }),
            !is_admin ==> (final(self).error matches Some(m) && m@
                == "Community admin role required to review pending threads."@) && *final(self)
                == (PostsState { error: final(self).error, ..*old(self) }),
    {
        if !is_admin {
            self.error = Some(owned("Community admin role required to review pending threads."));
            return false;
        }
        self.show_approval_queue = true;
        self.pending_threads_error = None;
        true
    }

    /// Start loading the queue of the open community `community`: without
    /// one, the error says to open one first and nothing is loaded. Returns
    /// the community to ask for.
    pub fn begin_pending_load(&mut self, community: Option<u128>) -> (r: Option<u128>)
        ensures
            r == community,
            community is None ==> (final(self).pending_threads_error matches Some(m) && m@
                == "Open a community before reviewing pending threads."@) && *final(self)
                == (PostsState { pending_threads_error: final(self).pending_threads_error, ..*old(self) }),
            community is Some ==> *final(self) == (PostsState {
                pending_threads_loading: true,
                pending_threads_error: None,
                ..*old(self)
            }),
    {
        match community {
            None => {
                self.pending_threads_error = Some(owned("Open a community before reviewing pending threads."));
                None
            },
            Some(id) => {
                self.pending_threads_loading = true;
                self.pending_threads_error = None;
                Some(id)
            },
        }
    }

    /// The pending threads arrived: shown from the first, if any.
    pub fn apply_pending_threads(&mut self, posts: Vec<Post>)
        ensures
            *final(self) == (PostsState {
                pending_threads: posts,
                pending_threads_loaded: true,
                pending_selected: if posts@.len() > 0 {
                    Some(0usize)
                } else {
                    None
                },
                pending_threads_loading: false,
                ..*old(self)
            }),
    {
        let has_posts = posts.len() > 0;
        self.pending_threads = posts;
        self.pending_threads_loaded = true;
        if has_posts {
            self.pending_selected = Some(0);
        } else {
            self.pending_selected = None;
        }
        self.pending_threads_loading = false;
    }

    /// A request of the approval queue failed with the (categorized)
    /// message `message`.
    pub fn apply_pending_error(&mut self, message: String)
        ensures
            *final(self) == (PostsState {
                pending_threads_error: Some(message),
                pending_threads_loading: false,
                ..*old(self)
            }),
    {
        self.pending_threads_error = Some(message);
        self.pending_threads_loading = false;
    }

    /// Thread `post_id` by `author` was approved or rejected at `now_ms`: it
    /// leaves the queue and a notice names its author.
    pub fn apply_moderated(&mut self, post_id: u128, decision: Moderation, author: &str, now_ms: u64)
        ensures
            final(self).pending_threads@ == without_id(old(self).pending_threads@, post_id),
            final(self).pending_selected == kept_selection(
                old(self).pending_selected,
                final(self).pending_threads@.len() as int,
            ),
            final(self).message matches Some((m, t)) && t == now_ms && m@ == (match decision {
                Moderation::Approved => "Approved @"@,
                Moderation::Rejected => "Rejected @"@,
            }) + author@ + "'s thread."@,
            *final(self) == (PostsState {
                pending_threads: final(self).pending_threads,
                pending_selected: final(self).pending_selected,
                message: final(self).message,
                ..*old(self)
            }),
    {
        self.remove_pending_thread(post_id);
        let lead = match decision {
            Moderation::Approved => "Approved @",
            Moderation::Rejected => "Rejected @",
        };
        let a = join_strs(lead, author);
        let m = join_strs(a.as_str(), "'s thread.");
        self.message = Some((m, now_ms));
    }
}

/// What Enter does in the filter modal.
pub enum FilterEnter {
    Nothing,
    /// Follow this (trimmed) hashtag.
    FollowHashtag(String),
    /// Apply this filter.
    Apply(PostFilter),
}

impl FilterModalState {
    /// What Enter does: in the add-hashtag input of the hashtags tab, follow
    /// the trimmed name (nothing when blank); on the hashtags tab's add row,
    /// nothing; otherwise apply the checked hashtags or users of the tab
    /// (all posts when none is checked, and on the "All" tab).
    pub fn filter_on_enter(&self) -> (r: FilterEnter)
        ensures
            self.selected_tab == FilterTab::Hashtags && self.show_add_hashtag_input ==> if crate::text::trim(self.add_hashtag_input@).len() == 0 {
                r is Nothing
            } else {
                r matches FilterEnter::FollowHashtag(h) && h@ == crate::text::trim(self.add_hashtag_input@)
            },
            self.selected_tab == FilterTab::Hashtags && !self.show_add_hashtag_input
                && self.selected_index == self.hashtag_list@.len() ==> r is Nothing,
            !(self.selected_tab == FilterTab::Hashtags && (self.show_add_hashtag_input || self.selected_index
                == self.hashtag_list@.len())) ==> match self.selected_tab {
                FilterTab::All => r matches FilterEnter::Apply(PostFilter::All),
                FilterTab::Hashtags => if self.checked_hashtags@.len() > 0 {
                    r matches FilterEnter::Apply(PostFilter::Multi { hashtags, users })
                        && str_views(hashtags@) == str_views(self.checked_hashtags@) && users@.len() == 0
                } else {
                    r matches FilterEnter::Apply(PostFilter::All)
                },
                FilterTab::Users => if self.checked_users@.len() > 0 {
                    r matches FilterEnter::Apply(PostFilter::Multi { hashtags, users })
                        && str_views(users@) == str_views(self.checked_users@) && hashtags@.len() == 0
                } else {
                    r matches FilterEnter::Apply(PostFilter::All)
                },
            },
    {
        let hashtags_tab = match self.selected_tab {
            FilterTab::Hashtags => true,
            _ => false,
        };
        if hashtags_tab && self.show_add_hashtag_input {
            let cs = chars_of(self.add_hashtag_input.as_str());
            let t = crate::text::trim_chars(cs.as_slice());
            if t.len() == 0 {
                return FilterEnter::Nothing;
            }
            return FilterEnter::FollowHashtag(string_from_chars(t.as_slice()));
        }
        if hashtags_tab && self.selected_index == self.hashtag_list.len() {
            return FilterEnter::Nothing;
        }
        match self.selected_tab {
            FilterTab::All => FilterEnter::Apply(PostFilter::All),
            FilterTab::Hashtags => if self.checked_hashtags.len() > 0 {
                FilterEnter::Apply(
                    PostFilter::Multi { hashtags: clone_strings(&self.checked_hashtags), users: Vec::new() },
                )
            } else {
                FilterEnter::Apply(PostFilter::All)
            },
            FilterTab::Users => if self.checked_users.len() > 0 {
                FilterEnter::Apply(
                    PostFilter::Multi { hashtags: Vec::new(), users: clone_strings(&self.checked_users) },
                )
            } else {
                FilterEnter::Apply(PostFilter::All)
            },
        }
    }
}

} // verus!
