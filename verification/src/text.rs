//! Character-level helpers shared by the parsers and formatters.
use vstd::prelude::*;

verus! {

/// The characters of `s`, in order.
pub fn chars_of(s: &str) -> (out: Vec<char>)
    ensures
        out@ == s@,
{
    let mut out: Vec<char> = Vec::new();
    for c in it: s.chars()
        invariant
            out@ == it.seq().take(it.index() as int),
    {
        out.push(c);
    }
    out
}

/// `String::from_iter` over the characters of a slice: the string holds
/// exactly those characters, in order.
#[verifier::external_body]
pub(crate) fn string_from_chars(chars: &[char]) -> (s: String)
    ensures
        s@ == chars@,
{
    String::from_iter(chars)
}

/// An owned copy of `s` (`str::to_string`).
pub fn owned(s: &str) -> (r: String)
    ensures
        r@ == s@,
{
    s.to_owned()
}

/// Whether the text `n` occurs in the characters `s`.
pub fn contains_str(s: &[char], n: &str) -> (r: bool)
    ensures
        r == contains(s@, n@),
{
    let nc = chars_of(n);
    contains_exec(s, nc.as_slice())
}

/// The text `a` followed by the text `b`, as a new string.
pub fn join_strs(a: &str, b: &str) -> (r: String)
    ensures
        r@ == a@ + b@,
{
    let x = chars_of(a);
    let y = chars_of(b);
    let xy = concat(x.as_slice(), y.as_slice());
    string_from_chars(xy.as_slice())
}

/// Whether two sequences of characters are equal, compared element by element.
pub fn seq_eq(a: &[char], b: &[char]) -> (r: bool)
    ensures
        r == (a@ == b@),
{
    if a.len() != b.len() {
        return false;
    }
    let mut i: usize = 0;
    while i < a.len()
        invariant
            a@.len() == b@.len(),
            0 <= i <= a@.len(),
            forall|j: int| 0 <= j < i ==> a@[j] == b@[j],
        decreases a@.len() - i,
    {
        if a[i] != b[i] {
            return false;
        }
        i = i + 1;
    }
    assert(a@ =~= b@);
    true
}

/// Whether two strings hold the same characters.
pub fn str_eq(a: &str, b: &str) -> (r: bool)
    ensures
        r == (a@ == b@),
{
    let ca = chars_of(a);
    let cb = chars_of(b);
    seq_eq(ca.as_slice(), cb.as_slice())
}

} // verus!

verus! {

/// Unicode `White_Space`, the property `char::is_whitespace` tests.
pub open spec fn is_ws(c: char) -> bool {
    ('\u{9}' <= c && c <= '\u{d}') || c == ' ' || c == '\u{85}' || c == '\u{a0}' || c == '\u{1680}'
        || ('\u{2000}' <= c && c <= '\u{200a}') || c == '\u{2028}' || c == '\u{2029}' || c
        == '\u{202f}' || c == '\u{205f}' || c == '\u{3000}'
}

/// `s` without its leading whitespace.
pub open spec fn trim_start(s: Seq<char>) -> Seq<char>
    decreases s.len(),
{
    if s.len() > 0 && is_ws(s[0]) {
        trim_start(s.drop_first())
    } else {
        s
    }
}

/// `s` without its trailing whitespace.
pub open spec fn trim_end(s: Seq<char>) -> Seq<char>
    decreases s.len(),
{
    if s.len() > 0 && is_ws(s.last()) {
        trim_end(s.drop_last())
    } else {
        s
    }
}

/// `s` without leading and trailing whitespace (`str::trim`).
pub open spec fn trim(s: Seq<char>) -> Seq<char> {
    trim_end(trim_start(s))
}

/// `s` without any trailing `c` (`str::trim_end_matches` with one char).
pub open spec fn trim_end_char(s: Seq<char>, c: char) -> Seq<char>
    decreases s.len(),
{
    if s.len() > 0 && s.last() == c {
        trim_end_char(s.drop_last(), c)
    } else {
        s
    }
}

/// `p` is a prefix of `s`.
pub open spec fn has_prefix(s: Seq<char>, p: Seq<char>) -> bool {
    p.len() <= s.len() && s.subrange(0, p.len() as int) == p
}

/// `p` is a suffix of `s`.
pub open spec fn has_suffix(s: Seq<char>, p: Seq<char>) -> bool {
    p.len() <= s.len() && s.subrange(s.len() - p.len(), s.len() as int) == p
}

/// `n` occurs in `s` at position `i`.
pub open spec fn occurs_at(s: Seq<char>, n: Seq<char>, i: int) -> bool {
    0 <= i && i + n.len() <= s.len() && s.subrange(i, i + n.len()) == n
}

/// `n` occurs somewhere in `s` (`str::contains`).
pub open spec fn contains(s: Seq<char>, n: Seq<char>) -> bool {
    exists|i: int| occurs_at(s, n, i)
}

/// Whether `c` is whitespace.
pub fn is_whitespace(c: char) -> (r: bool)
    ensures
        r == is_ws(c),
{
    ('\u{9}' <= c && c <= '\u{d}') || c == ' ' || c == '\u{85}' || c == '\u{a0}' || c == '\u{1680}'
        || ('\u{2000}' <= c && c <= '\u{200a}') || c == '\u{2028}' || c == '\u{2029}' || c
        == '\u{202f}' || c == '\u{205f}' || c == '\u{3000}'
}

pub proof fn lemma_trim_start_skip(s: Seq<char>, i: int)
    requires
        0 <= i <= s.len(),
        forall|k: int| 0 <= k < i ==> is_ws(s[k]),
    ensures
        trim_start(s) == trim_start(s.subrange(i, s.len() as int)),
    decreases i,
{
    if i > 0 {
        assert(s.drop_first() =~= s.subrange(1, s.len() as int));
        lemma_trim_start_skip(s.drop_first(), i - 1);
        assert(s.drop_first().subrange(i - 1, s.drop_first().len() as int) =~= s.subrange(
            i,
            s.len() as int,
        ));
    } else {
        assert(s.subrange(0, s.len() as int) =~= s);
    }
}

pub proof fn lemma_trim_end_cut(s: Seq<char>, j: int)
    requires
        0 <= j <= s.len(),
        forall|k: int| j <= k < s.len() ==> is_ws(s[k]),
    ensures
        trim_end(s) == trim_end(s.subrange(0, j)),
    decreases s.len() - j,
{
    if j < s.len() {
        assert(s.drop_last() =~= s.subrange(0, s.len() - 1));
        lemma_trim_end_cut(s.drop_last(), j);
        assert(s.drop_last().subrange(0, j) =~= s.subrange(0, j));
    } else {
        assert(s.subrange(0, j) =~= s);
    }
}

/// The characters of `s` without leading and trailing whitespace.
pub fn trim_chars(s: &[char]) -> (r: Vec<char>)
    ensures
        r@ == trim(s@),
{
    let n = s.len();
    let mut i: usize = 0;
    while i < n && is_whitespace(s[i])
        invariant
            n == s@.len(),
            0 <= i <= n,
            forall|k: int| 0 <= k < i ==> is_ws(s@[k]),
        decreases n - i,
    {
        i = i + 1;
    }
    proof {
        lemma_trim_start_skip(s@, i as int);
    }
    let ghost t = s@.subrange(i as int, n as int);
    assert(i == n || !is_ws(t[0]));
    assert(trim_start(t) == t) by {
        if t.len() > 0 {
            assert(!is_ws(t[0]));
        }
    }
    let mut j: usize = n;
    while j > i && is_whitespace(s[j - 1])
        invariant
            n == s@.len(),
            i <= j <= n,
            forall|k: int| j <= k < n ==> is_ws(s@[k]),
        decreases j,
    {
        j = j - 1;
    }
    proof {
        lemma_trim_end_cut(t, j - i);
        assert(forall|k: int| j - i <= k < t.len() ==> t[k] == s@[k + i]);
    }
    let mut r: Vec<char> = Vec::new();
    let mut k: usize = i;
    while k < j
        invariant
            n == s@.len(),
            i <= k <= j <= n,
            r@ == s@.subrange(i as int, k as int),
        decreases j - k,
    {
        r.push(s[k]);
        proof {
            assert(s@.subrange(i as int, k + 1) =~= s@.subrange(i as int, k as int).push(s@[k as int]));
        }
        k = k + 1;
    }
    proof {
        let u = t.subrange(0, j - i);
        assert(u =~= r@);
        assert(trim_end(u) == u) by {
            if u.len() > 0 {
                assert(u.last() == s@[j - 1]);
            }
        }
    }
    r
}

/// Whether `p` is a prefix of `s`.
pub fn starts_with(s: &[char], p: &[char]) -> (r: bool)
    ensures
        r == has_prefix(s@, p@),
{
    if p.len() > s.len() {
        return false;
    }
    let mut i: usize = 0;
    while i < p.len()
        invariant
            p@.len() <= s@.len(),
            0 <= i <= p@.len(),
            forall|k: int| 0 <= k < i ==> s@[k] == p@[k],
        decreases p@.len() - i,
    {
        if s[i] != p[i] {
            assert(s@.subrange(0, p@.len() as int)[i as int] != p@[i as int]);
            return false;
        }
        i = i + 1;
    }
    assert(s@.subrange(0, p@.len() as int) =~= p@);
    true
}

/// `s[from..to]` as a vector.
pub fn slice_to_vec(s: &[char], from: usize, to: usize) -> (r: Vec<char>)
    requires
        from <= to <= s@.len(),
    ensures
        r@ == s@.subrange(from as int, to as int),
{
    let mut r: Vec<char> = Vec::new();
    let mut k: usize = from;
    while k < to
        invariant
            from <= k <= to <= s@.len(),
            r@ == s@.subrange(from as int, k as int),
        decreases to - k,
    {
        r.push(s[k]);
        proof {
            assert(s@.subrange(from as int, k + 1) =~= s@.subrange(from as int, k as int).push(
                s@[k as int],
            ));
        }
        k = k + 1;
    }
    r
}

/// `s` with the prefix `p` removed, when `s` starts with `p`.
pub fn strip_prefix(s: &[char], p: &[char]) -> (r: Option<Vec<char>>)
    ensures
        match r {
            Some(rest) => has_prefix(s@, p@) && rest@ == s@.subrange(p@.len() as int, s@.len() as int),
            None => !has_prefix(s@, p@),
        },
{
    if starts_with(s, p) {
        Some(slice_to_vec(s, p.len(), s.len()))
    } else {
        None
    }
}

/// `s` without trailing copies of `c`.
pub fn trim_end_char_exec(s: &[char], c: char) -> (r: Vec<char>)
    ensures
        r@ == trim_end_char(s@, c),
{
    let mut j: usize = s.len();
    assert(s@.subrange(0, s@.len() as int) =~= s@);
    while j > 0 && s[j - 1] == c
        invariant
            j <= s@.len(),
            trim_end_char(s@, c) == trim_end_char(s@.subrange(0, j as int), c),
        decreases j,
    {
        proof {
            let u = s@.subrange(0, j as int);
            assert(u.drop_last() =~= s@.subrange(0, j - 1));
        }
        j = j - 1;
    }
    assert(s@.subrange(0, s@.len() as int) =~= s@);
    slice_to_vec(s, 0, j)
}

/// `a` followed by `b`.
pub fn concat(a: &[char], b: &[char]) -> (r: Vec<char>)
    ensures
        r@ == a@ + b@,
{
    let mut r = slice_to_vec(a, 0, a.len());
    let mut k: usize = 0;
    assert(a@.subrange(0, a@.len() as int) =~= a@);
    while k < b.len()
        invariant
            0 <= k <= b@.len(),
            r@ == a@ + b@.subrange(0, k as int),
        decreases b@.len() - k,
    {
        r.push(b[k]);
        proof {
            assert(b@.subrange(0, k + 1) =~= b@.subrange(0, k as int).push(b@[k as int]));
            assert(a@ + b@.subrange(0, k + 1) =~= (a@ + b@.subrange(0, k as int)).push(b@[k as int]));
        }
        k = k + 1;
    }
    assert(b@.subrange(0, b@.len() as int) =~= b@);
    r
}

} // verus!

verus! {

/// Index of the first occurrence of `n` in `s` at or after `i`, or -1.
pub open spec fn find_from(s: Seq<char>, n: Seq<char>, i: int) -> int
    decreases s.len() + 1 - i,
{
    if i < 0 || i + n.len() > s.len() {
        -1
    } else if s.subrange(i, i + n.len()) == n {
        i
    } else {
        find_from(s, n, i + 1)
    }
}

pub proof fn lemma_find_from(s: Seq<char>, n: Seq<char>, i: int)
    requires
        0 <= i,
    ensures
        find_from(s, n, i) == -1 || (i <= find_from(s, n, i) && occurs_at(s, n, find_from(s, n, i))),
        find_from(s, n, i) == -1 ==> forall|k: int| i <= k ==> !occurs_at(s, n, k),
        find_from(s, n, i) != -1 ==> forall|k: int| i <= k < find_from(s, n, i) ==> !occurs_at(s, n, k),
    decreases s.len() + 1 - i,
{
    if i + n.len() <= s.len() && s.subrange(i, i + n.len()) != n {
        lemma_find_from(s, n, i + 1);
    }
}

/// `contains` is the same as finding a first occurrence.
pub proof fn lemma_contains_find(s: Seq<char>, n: Seq<char>)
    ensures
        contains(s, n) <==> find_from(s, n, 0) != -1,
{
    lemma_find_from(s, n, 0);
    if contains(s, n) {
        let k = choose|k: int| occurs_at(s, n, k);
        assert(0 <= k);
    }
}

/// Position of the first occurrence of `n` in `s`.
pub fn find(s: &[char], n: &[char]) -> (r: Option<usize>)
    ensures
        match r {
            Some(k) => k as int == find_from(s@, n@, 0),
            None => find_from(s@, n@, 0) == -1,
        },
{
    if n.len() > s.len() {
        return None;
    }
    let last = s.len() - n.len();
    let mut i: usize = 0;
    while i <= last
        invariant
            s@.len() <= usize::MAX,
            n@.len() <= s@.len(),
            last == s@.len() - n@.len(),
            0 <= i <= last + 1,
            find_from(s@, n@, 0) == find_from(s@, n@, i as int),
        decreases last + 1 - i,
    {
        let mut j: usize = 0;
        let mut ok = true;
        while j < n.len()
            invariant
                s@.len() <= usize::MAX,
                n@.len() <= s@.len(),
                i <= last,
                last == s@.len() - n@.len(),
                0 <= j <= n@.len(),
                ok == (forall|k: int| 0 <= k < j ==> s@[i + k] == n@[k]),
            decreases n@.len() - j,
        {
            if s[i + j] != n[j] {
                ok = false;
            }
            j = j + 1;
        }
        proof {
            if ok {
                assert(s@.subrange(i as int, i + n@.len()) =~= n@);
            } else {
                let k = choose|k: int| 0 <= k < n@.len() && s@[i + k] != n@[k];
                assert(s@.subrange(i as int, i + n@.len())[k] != n@[k]);
            }
        }
        if ok {
            return Some(i);
        }
        if i == last {
            assert(find_from(s@, n@, i + 1) == -1);
            return None;
        }
        i = i + 1;
    }
    None
}

/// Whether `n` occurs in `s`.
pub fn contains_exec(s: &[char], n: &[char]) -> (r: bool)
    ensures
        r == contains(s@, n@),
{
    proof {
        lemma_contains_find(s@, n@);
    }
    find(s, n).is_some()
}

/// Whether `s` ends with `p`.
pub fn ends_with(s: &[char], p: &[char]) -> (r: bool)
    ensures
        r == has_suffix(s@, p@),
{
    if p.len() > s.len() {
        return false;
    }
    let off = s.len() - p.len();
    let mut i: usize = 0;
    while i < p.len()
        invariant
            s@.len() <= usize::MAX,
            p@.len() <= s@.len(),
            off == s@.len() - p@.len(),
            0 <= i <= p@.len(),
            forall|k: int| 0 <= k < i ==> s@[off + k] == p@[k],
        decreases p@.len() - i,
    {
        if s[off + i] != p[i] {
            assert(s@.subrange(off as int, s@.len() as int)[i as int] != p@[i as int]);
            return false;
        }
        i = i + 1;
    }
    assert(s@.subrange(off as int, s@.len() as int) =~= p@);
    true
}

/// `s` with the suffix `p` removed when it ends with `p`, else `s`
/// (`str::strip_suffix(..).unwrap_or(s)`).
pub fn strip_suffix_or_keep(s: &[char], p: &[char]) -> (r: Vec<char>)
    ensures
        r@ == (if has_suffix(s@, p@) {
            s@.subrange(0, s@.len() - p@.len())
        } else {
            s@
        }),
{
    if ends_with(s, p) {
        slice_to_vec(s, 0, s.len() - p.len())
    } else {
        assert(s@.subrange(0, s@.len() as int) =~= s@);
        slice_to_vec(s, 0, s.len())
    }
}

/// Index of the first `c` in `s`, or -1.
pub open spec fn index_of(s: Seq<char>, c: char, i: int) -> int
    decreases s.len() - i,
{
    if i < 0 || i >= s.len() {
        -1
    } else if s[i] == c {
        i
    } else {
        index_of(s, c, i + 1)
    }
}

pub proof fn lemma_index_of(s: Seq<char>, c: char, i: int)
    requires
        0 <= i,
    ensures
        index_of(s, c, i) == -1 || (i <= index_of(s, c, i) < s.len() && s[index_of(s, c, i)] == c),
        index_of(s, c, i) == -1 ==> forall|k: int| i <= k < s.len() ==> s[k] != c,
        index_of(s, c, i) != -1 ==> forall|k: int| i <= k < index_of(s, c, i) ==> s[k] != c,
    decreases s.len() - i,
{
    if i < s.len() && s[i] != c {
        lemma_index_of(s, c, i + 1);
    }
}

/// Position of the first `c` in `s`.
pub fn index_of_exec(s: &[char], c: char) -> (r: Option<usize>)
    ensures
        match r {
            Some(k) => k as int == index_of(s@, c, 0) && k < s@.len(),
            None => index_of(s@, c, 0) == -1,
        },
{
    proof {
        lemma_index_of(s@, c, 0);
    }
    let mut i: usize = 0;
    while i < s.len()
        invariant
            0 <= i <= s@.len(),
            index_of(s@, c, 0) == index_of(s@, c, i as int),
        decreases s@.len() - i,
    {
        if s[i] == c {
            return Some(i);
        }
        i = i + 1;
    }
    None
}

} // verus!

verus! {

/// `s` with every non-overlapping occurrence of `p`, left to right,
/// replaced by `w` (`str::replace` with a non-empty pattern).
pub open spec fn replace_all(s: Seq<char>, p: Seq<char>, w: Seq<char>) -> Seq<char>
    decreases s.len(),
{
    if p.len() == 0 {
        s
    } else {
        let k = find_from(s, p, 0);
        if k < 0 {
            s
        } else {
            proof {
                lemma_find_from(s, p, 0);
            }
            s.subrange(0, k) + w + replace_all(s.subrange(k + p.len(), s.len() as int), p, w)
        }
    }
}

/// Replace every occurrence of the non-empty pattern `p` by `w`.
pub fn replace_all_exec(s: &[char], p: &[char], w: &[char]) -> (r: Vec<char>)
    requires
        p@.len() > 0,
    ensures
        r@ == replace_all(s@, p@, w@),
{
    let mut out: Vec<char> = Vec::new();
    let mut rest: Vec<char> = slice_to_vec(s, 0, s.len());
    assert(s@.subrange(0, s@.len() as int) =~= s@);
    loop
        invariant
            p@.len() > 0,
            out@ + replace_all(rest@, p@, w@) == replace_all(s@, p@, w@),
        decreases rest@.len(),
    {
        match find(rest.as_slice(), p) {
            None => {
                let r = concat(out.as_slice(), rest.as_slice());
                assert(replace_all(rest@, p@, w@) == rest@);
                return r;
            },
            Some(k) => {
                proof {
                    lemma_find_from(rest@, p@, 0);
                }
                let rlen = rest.len();
                let head = slice_to_vec(rest.as_slice(), 0, k);
                let tail = slice_to_vec(rest.as_slice(), k + p.len(), rlen);
                let a = concat(out.as_slice(), head.as_slice());
                let b = concat(a.as_slice(), w);
                proof {
                    assert(replace_all(rest@, p@, w@) == rest@.subrange(0, k as int) + w@
                        + replace_all(tail@, p@, w@));
                    assert(b@ + replace_all(tail@, p@, w@) =~= out@ + replace_all(rest@, p@, w@));
                }
                out = b;
                rest = tail;
            },
        }
    }
}

/// Append `c` to `s` (`String::push`).
pub fn push_char(s: &mut String, c: char)
    ensures
        final(s)@ == old(s)@.push(c),
{
    let mut cs = chars_of(s.as_str());
    cs.push(c);
    *s = string_from_chars(cs.as_slice());
}

/// Remove the last character of `s`, if any (`String::pop`).
pub fn pop_char(s: &mut String)
    ensures
        final(s)@ == (if old(s)@.len() > 0 {
            old(s)@.drop_last()
        } else {
            old(s)@
        }),
{
    let mut cs = chars_of(s.as_str());
    if cs.len() > 0 {
        cs.pop();
        *s = string_from_chars(cs.as_slice());
    }
}

} // verus!
