//! The reply tree behind the post-detail view and its full-post modal:
//! which replies belong under a root, which are visible given the
//! expanded nodes, and how the modal selection maps to posts.
//!
//! Parent links come from the server and are walked without a visited set.
//! On cyclic data such a walk never ends; every walk here therefore carries
//! a step budget of one more than the number of replies, which is never
//! exhausted when the walk ends on its own (it then visits each reply at
//! most once).
use vstd::prelude::*;
use std::collections::HashMap;
use crate::post::Post;

verus! {

broadcast use vstd::std_specs::hash::group_hash_axioms;

/// Index of the first post in `s[i..]` whose id is `id`, or -1.
pub open spec fn first_with_id(s: Seq<Post>, id: u128, i: int) -> int
    decreases s.len() - i,
{
    if i < 0 || i >= s.len() {
        -1
    } else if s[i].id == id {
        i
    } else {
        first_with_id(s, id, i + 1)
    }
}

pub proof fn lemma_first_with_id_range(s: Seq<Post>, id: u128, i: int)
    requires
        0 <= i,
    ensures
        first_with_id(s, id, i) == -1 || (i <= first_with_id(s, id, i) < s.len() && s[first_with_id(
            s,
            id,
            i,
        )].id == id),
        first_with_id(s, id, i) == -1 ==> forall|k: int| i <= k < s.len() ==> s[k].id != id,
        first_with_id(s, id, i) != -1 ==> forall|k: int|
            i <= k < first_with_id(s, id, i) ==> s[k].id != id,
    decreases s.len() - i,
{
    if i < s.len() && s[i].id != id {
        lemma_first_with_id_range(s, id, i + 1);
    }
}

/// Following parent links from `cur`, looking each parent up by its first
/// occurrence in `s`, reaches `root` within `fuel` lookups.
pub open spec fn walk_reaches(s: Seq<Post>, cur: Option<u128>, root: u128, fuel: nat) -> bool
    decreases fuel,
{
    match cur {
        None => false,
        Some(p) => if p == root {
            true
        } else if fuel == 0 {
            false
        } else {
            let k = first_with_id(s, p, 0);
            if k < 0 {
                false
            } else {
                walk_reaches(s, s[k].parent_post_id, root, (fuel - 1) as nat)
            }
        },
    }
}

/// The walk budget used throughout: one more than the number of replies.
pub open spec fn budget(s: Seq<Post>) -> nat {
    s.len() + 1
}

/// `r` is a descendant of `root` (and not the root itself).
pub open spec fn in_subtree(s: Seq<Post>, r: Post, root: u128) -> bool {
    r.id != root && walk_reaches(s, r.parent_post_id, root, budget(s))
}

/// Ids, in order, of the replies `s[k]` with `mask[k]` whose parent is `p`.
pub open spec fn kids(s: Seq<Post>, mask: Seq<bool>, p: u128, n: int) -> Seq<u128>
    decreases n,
{
    if n <= 0 {
        Seq::empty()
    } else {
        let prev = kids(s, mask, p, n - 1);
        if mask[n - 1] && s[n - 1].parent_post_id == Some(p) {
            prev.push(s[n - 1].id)
        } else {
            prev
        }
    }
}

/// `id` is marked expanded.
pub open spec fn expanded(m: Map<u128, bool>, id: u128) -> bool {
    m.contains_key(id) && m[id]
}

/// Depth-first listing of `ks` and, below each expanded one, its children.
pub open spec fn flatten(
    s: Seq<Post>,
    mask: Seq<bool>,
    m: Map<u128, bool>,
    ks: Seq<u128>,
    fuel: nat,
) -> Seq<u128>
    decreases fuel, ks.len(),
{
    if ks.len() == 0 {
        Seq::empty()
    } else {
        let c = ks[0];
        let below = if expanded(m, c) && fuel > 0 {
            flatten(s, mask, m, kids(s, mask, c, s.len() as int), (fuel - 1) as nat)
        } else {
            Seq::empty()
        };
        seq![c] + below + flatten(s, mask, m, ks.drop_first(), fuel)
    }
}

/// The posts shown below `root` when the nodes in `m` are expanded.
pub open spec fn visible(s: Seq<Post>, mask: Seq<bool>, m: Map<u128, bool>, root: u128) -> Seq<
    u128,
> {
    flatten(s, mask, m, kids(s, mask, root, s.len() as int), budget(s))
}

/// Which replies belong to the subtree of `root`.
pub open spec fn subtree_mask(s: Seq<Post>, root: u128) -> Seq<bool> {
    Seq::new(s.len(), |k: int| in_subtree(s, s[k], root))
}

/// Every reply counts.
pub open spec fn all_mask(s: Seq<Post>) -> Seq<bool> {
    Seq::new(s.len(), |k: int| true)
}

/// A reply is direct when its parent is not among the replies.
pub open spec fn is_direct(s: Seq<Post>, r: Post) -> bool {
    match r.parent_post_id {
        Some(p) => first_with_id(s, p, 0) == -1,
        None => false,
    }
}

/// Indices, in order, of the direct replies among `s[..n]`.
pub open spec fn direct_indices(s: Seq<Post>, n: int) -> Seq<usize>
    decreases n,
{
    if n <= 0 {
        Seq::empty()
    } else {
        let prev = direct_indices(s, n - 1);
        if is_direct(s, s[n - 1]) {
            prev.push((n - 1) as usize)
        } else {
            prev
        }
    }
}

/// Ancestors of a reply inside the subtree, nearest first: each parent id
/// is listed, then looked up among the subtree's replies.
pub open spec fn ancestors(s: Seq<Post>, mask: Seq<bool>, cur: Option<u128>, fuel: nat) -> Seq<
    u128,
>
    decreases fuel,
{
    match cur {
        None => Seq::empty(),
        Some(p) => if fuel == 0 {
            Seq::empty()
        } else {
            seq![p] + ancestors(s, mask, parent_in_mask(s, mask, p, 0), (fuel - 1) as nat)
        },
    }
}

/// Parent of the first reply in `s[i..]` with id `id` among those in `mask`.
pub open spec fn parent_in_mask(s: Seq<Post>, mask: Seq<bool>, id: u128, i: int) -> Option<u128>
    decreases s.len() - i,
{
    if i < 0 || i >= s.len() {
        None
    } else if mask[i] && s[i].id == id {
        s[i].parent_post_id
    } else {
        parent_in_mask(s, mask, id, i + 1)
    }
}

/// `m` with each id of `ids` marked expanded, in order.
pub open spec fn expand_all(m: Map<u128, bool>, ids: Seq<u128>) -> Map<u128, bool>
    decreases ids.len(),
{
    if ids.len() == 0 {
        m
    } else {
        expand_all(m.insert(ids[0], true), ids.drop_first())
    }
}

/// Position of `id` in `ids`, or -1.
pub open spec fn position_of(ids: Seq<u128>, id: u128, i: int) -> int
    decreases ids.len() - i,
{
    if i < 0 || i >= ids.len() {
        -1
    } else if ids[i] == id {
        i
    } else {
        position_of(ids, id, i + 1)
    }
}

// ---------------------------------------------------------------------------
// Executable building blocks
// ---------------------------------------------------------------------------

/// Index of the first reply with id `id`, if any.
pub fn find_index(s: &Vec<Post>, id: u128) -> (r: Option<usize>)
    ensures
        match r {
            Some(k) => k as int == first_with_id(s@, id, 0),
            None => first_with_id(s@, id, 0) == -1,
        },
{
    let mut i: usize = 0;
    while i < s.len()
        invariant
            0 <= i <= s@.len(),
            first_with_id(s@, id, 0) == first_with_id(s@, id, i as int),
        decreases s@.len() - i,
    {
        if s[i].id == id {
            return Some(i);
        }
        i = i + 1;
    }
    None
}

fn walk_exec(s: &Vec<Post>, cur: Option<u128>, root: u128, fuel: usize) -> (r: bool)
    ensures
        r == walk_reaches(s@, cur, root, fuel as nat),
    decreases fuel,
{
    match cur {
        None => false,
        Some(p) => {
            if p == root {
                true
            } else if fuel == 0 {
                false
            } else {
                match find_index(s, p) {
                    None => false,
                    Some(k) => {
                        proof {
                            lemma_first_with_id_range(s@, p, 0);
                        }
                        walk_exec(s, s[k].parent_post_id, root, fuel - 1)
                    },
                }
            }
        },
    }
}

/// For each reply, whether it lies in the subtree of `root`.
pub fn subtree_mask_exec(s: &Vec<Post>, root: u128) -> (mask: Vec<bool>)
    requires
        s@.len() < usize::MAX,
    ensures
        mask@ == subtree_mask(s@, root),
{
    let mut mask: Vec<bool> = Vec::new();
    let mut i: usize = 0;
    while i < s.len()
        invariant
            s@.len() < usize::MAX,
            0 <= i <= s@.len(),
            mask@.len() == i,
            forall|k: int| 0 <= k < i ==> mask@[k] == in_subtree(s@, s@[k], root),
        decreases s@.len() - i,
    {
        let inside = s[i].id != root && walk_exec(s, s[i].parent_post_id, root, s.len() + 1);
        mask.push(inside);
        i = i + 1;
    }
    assert(mask@ =~= subtree_mask(s@, root));
    mask
}

/// A mask that admits every reply.
pub fn all_mask_exec(s: &Vec<Post>) -> (mask: Vec<bool>)
    ensures
        mask@ == all_mask(s@),
{
    let mut mask: Vec<bool> = Vec::new();
    let mut i: usize = 0;
    while i < s.len()
        invariant
            0 <= i <= s@.len(),
            mask@.len() == i,
            forall|k: int| 0 <= k < i ==> mask@[k],
        decreases s@.len() - i,
    {
        mask.push(true);
        i = i + 1;
    }
    assert(mask@ =~= all_mask(s@));
    mask
}

fn kids_exec(s: &Vec<Post>, mask: &Vec<bool>, p: u128) -> (r: Vec<u128>)
    requires
        mask@.len() == s@.len(),
    ensures
        r@ == kids(s@, mask@, p, s@.len() as int),
{
    let mut r: Vec<u128> = Vec::new();
    let mut i: usize = 0;
    while i < s.len()
        invariant
            mask@.len() == s@.len(),
            0 <= i <= s@.len(),
            r@ == kids(s@, mask@, p, i as int),
        decreases s@.len() - i,
    {
        if mask[i] && s[i].parent_post_id == Some(p) {
            r.push(s[i].id);
        }
        i = i + 1;
    }
    r
}

fn flatten_exec(
    s: &Vec<Post>,
    mask: &Vec<bool>,
    m: &HashMap<u128, bool>,
    ks: &Vec<u128>,
    start: usize,
    fuel: usize,
    out: &mut Vec<u128>,
)
    requires
        mask@.len() == s@.len(),
        start <= ks@.len(),
    ensures
        final(out)@ == old(out)@ + flatten(s@, mask@, m@, ks@.skip(start as int), fuel as nat),
    decreases fuel, ks@.len() - start,
{
    if start == ks.len() {
        assert(ks@.skip(start as int).len() == 0);
        assert(old(out)@ + Seq::<u128>::empty() =~= old(out)@);
        return ;
    }
    let c = ks[start];
    let ghost before = out@;
    out.push(c);
    let is_open = match m.get(&c) {
        Some(v) => *v,
        None => false,
    };
    let ghost mid = out@;
    if is_open && fuel > 0 {
        let sub = kids_exec(s, mask, c);
        assert(sub@.skip(0) =~= sub@);
        flatten_exec(s, mask, m, &sub, 0, fuel - 1, out);
    }
    let ghost after_below = out@;
    flatten_exec(s, mask, m, ks, start + 1, fuel, out);
    proof {
        let rest = ks@.skip(start as int);
        assert(rest[0] == c);
        assert(rest.drop_first() =~= ks@.skip(start + 1));
        assert(expanded(m@, c) == is_open);
        let below = if expanded(m@, c) && fuel > 0 {
            flatten(s@, mask@, m@, kids(s@, mask@, c, s@.len() as int), (fuel - 1) as nat)
        } else {
            Seq::<u128>::empty()
        };
        assert(after_below =~= before + seq![c] + below);
        assert(flatten(s@, mask@, m@, rest, fuel as nat) == seq![c] + below + flatten(
            s@,
            mask@,
            m@,
            rest.drop_first(),
            fuel as nat,
        ));
        assert(out@ =~= before + flatten(s@, mask@, m@, rest, fuel as nat));
    }
}

/// The posts shown below `root`, in display order.
pub fn visible_exec(s: &Vec<Post>, mask: &Vec<bool>, m: &HashMap<u128, bool>, root: u128) -> (r:
    Vec<u128>)
    requires
        mask@.len() == s@.len(),
        s@.len() < usize::MAX,
    ensures
        r@ == visible(s@, mask@, m@, root),
{
    let top = kids_exec(s, mask, root);
    let mut out: Vec<u128> = Vec::new();
    flatten_exec(s, mask, m, &top, 0, s.len() + 1, &mut out);
    assert(top@.skip(0) =~= top@);
    assert(Seq::<u128>::empty() + visible(s@, mask@, m@, root) =~= visible(s@, mask@, m@, root));
    out
}

/// Indices of the direct replies, in order.
pub fn direct_reply_indices(s: &Vec<Post>) -> (r: Vec<usize>)
    ensures
        r@ == direct_indices(s@, s@.len() as int),
{
    let mut r: Vec<usize> = Vec::new();
    let mut i: usize = 0;
    while i < s.len()
        invariant
            0 <= i <= s@.len(),
            r@ == direct_indices(s@, i as int),
        decreases s@.len() - i,
    {
        let direct = match s[i].parent_post_id {
            Some(p) => find_index(s, p).is_none(),
            None => false,
        };
        if direct {
            r.push(i);
        }
        i = i + 1;
    }
    r
}

pub fn parent_in_mask_exec(s: &Vec<Post>, mask: &Vec<bool>, id: u128) -> (r: Option<u128>)
    requires
        mask@.len() == s@.len(),
    ensures
        r == parent_in_mask(s@, mask@, id, 0),
{
    let mut i: usize = 0;
    while i < s.len()
        invariant
            mask@.len() == s@.len(),
            0 <= i <= s@.len(),
            parent_in_mask(s@, mask@, id, 0) == parent_in_mask(s@, mask@, id, i as int),
        decreases s@.len() - i,
    {
        if mask[i] && s[i].id == id {
            return s[i].parent_post_id;
        }
        i = i + 1;
    }
    None
}

pub fn ancestors_exec(
    s: &Vec<Post>,
    mask: &Vec<bool>,
    cur: Option<u128>,
    fuel: usize,
    out: &mut Vec<u128>,
)
    requires
        mask@.len() == s@.len(),
    ensures
        final(out)@ == old(out)@ + ancestors(s@, mask@, cur, fuel as nat),
    decreases fuel,
{
    match cur {
        None => {
            assert(old(out)@ + Seq::<u128>::empty() =~= old(out)@);
        },
        Some(p) => {
            if fuel == 0 {
                assert(old(out)@ + Seq::<u128>::empty() =~= old(out)@);
            } else {
                out.push(p);
                let next = parent_in_mask_exec(s, mask, p);
                ancestors_exec(s, mask, next, fuel - 1, out);
                assert(out@ =~= old(out)@ + ancestors(s@, mask@, cur, fuel as nat));
            }
        },
    }
}

pub fn expand_all_exec(m: &mut HashMap<u128, bool>, ids: &Vec<u128>)
    ensures
        final(m)@ == expand_all(old(m)@, ids@),
{
    let mut i: usize = 0;
    assert(ids@.skip(0) =~= ids@);
    while i < ids.len()
        invariant
            0 <= i <= ids@.len(),
            expand_all(old(m)@, ids@) == expand_all(m@, ids@.skip(i as int)),
        decreases ids@.len() - i,
    {
        let ghost before = m@;
        m.insert(ids[i], true);
        proof {
            assert(ids@.skip(i as int)[0] == ids@[i as int]);
            assert(ids@.skip(i as int).drop_first() =~= ids@.skip(i + 1));
        }
        i = i + 1;
    }
    assert(ids@.skip(ids@.len() as int) =~= Seq::<u128>::empty());
}

pub fn position_exec(ids: &Vec<u128>, id: u128) -> (r: Option<usize>)
    ensures
        match r {
            Some(k) => k as int == position_of(ids@, id, 0) && k < ids@.len(),
            None => position_of(ids@, id, 0) == -1,
        },
{
    let mut i: usize = 0;
    while i < ids.len()
        invariant
            0 <= i <= ids@.len(),
            position_of(ids@, id, 0) == position_of(ids@, id, i as int),
        decreases ids@.len() - i,
    {
        if ids[i] == id {
            return Some(i);
        }
        i = i + 1;
    }
    None
}

} // verus!
