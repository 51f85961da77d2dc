//! Whether a published version is newer than the running one, and how
//! boolean switches in the environment are read.
use vstd::prelude::*;
use crate::numfmt::{all_digits, digit_value, digits_value, is_digit};
use crate::session::{ascii_lower_all, ascii_lower_exec};
use crate::text::{chars_of, seq_eq};

verus! {

/// `str::parse::<u32>`: an optional `+`, then at least one digit, with the
/// value inside `u32`.
pub open spec fn spec_parse_u32(s: Seq<char>) -> Option<u32> {
    let body = if s.len() > 0 && s[0] == '+' {
        s.drop_first()
    } else {
        s
    };
    if body.len() == 0 || !all_digits(body) || digits_value(body) > u32::MAX {
        None
    } else {
        Some(digits_value(body) as u32)
    }
}

/// `s` cut at every `.` (`str::split('.')`): one more piece than dots.
pub open spec fn split_dots(s: Seq<char>) -> Seq<Seq<char>>
    decreases s.len(),
{
    if s.len() == 0 {
        seq![Seq::empty()]
    } else {
        let p = split_dots(s.drop_last());
        if s.last() == '.' {
            p.push(Seq::empty())
        } else {
            p.update(p.len() - 1, p.last().push(s.last()))
        }
    }
}

/// The pieces that parse as `u32`, in order, the others dropped.
pub open spec fn parsed_parts(pieces: Seq<Seq<char>>) -> Seq<u32>
    decreases pieces.len(),
{
    if pieces.len() == 0 {
        Seq::empty()
    } else {
        let r = parsed_parts(pieces.drop_last());
        match spec_parse_u32(pieces.last()) {
            Some(v) => r.push(v),
            None => r,
        }
    }
}

/// The numeric components of a version string such as `1.2.3`.
pub open spec fn version_parts(s: Seq<char>) -> Seq<u32> {
    parsed_parts(split_dots(s))
}

/// Version `l` is newer than `c`: the first differing component decides,
/// and when one is a prefix of the other the longer is newer.
pub open spec fn newer(l: Seq<u32>, c: Seq<u32>) -> bool
    decreases l.len(),
{
    if l.len() == 0 || c.len() == 0 {
        l.len() > c.len()
    } else if l[0] > c[0] {
        true
    } else if l[0] < c[0] {
        false
    } else {
        newer(l.drop_first(), c.drop_first())
    }
}

proof fn lemma_split_nonempty(s: Seq<char>)
    ensures
        split_dots(s).len() > 0,
    decreases s.len(),
{
    if s.len() > 0 {
        lemma_split_nonempty(s.drop_last());
    }
}

proof fn lemma_digits_over(s: Seq<char>, k: int, bound: int)
    requires
        0 < k <= s.len(),
        0 <= bound,
        all_digits(s.subrange(0, k)),
        digits_value(s.subrange(0, k)) > bound,
    ensures
        !all_digits(s) || digits_value(s) > bound,
    decreases s.len() - k,
{
    if k < s.len() && all_digits(s) {
        let a = s.subrange(0, k);
        let b = s.subrange(0, k + 1);
        assert(b.drop_last() =~= a);
        assert(all_digits(b));
        assert(digit_value(b.last()) >= 0);
        lemma_digits_over(s, k + 1, bound);
    } else if k == s.len() {
        assert(s.subrange(0, k) =~= s);
    }
}

/// Parse a decimal `u32` the way `str::parse::<u32>` does.
pub fn parse_u32(s: &[char]) -> (r: Option<u32>)
    ensures
        r == spec_parse_u32(s@),
{
    let n = s.len();
    let start: usize = if n > 0 && s[0] == '+' {
        1
    } else {
        0
    };
    let ghost body = s@.subrange(start as int, n as int);
    proof {
        if start == 1 {
            assert(body =~= s@.drop_first());
        } else {
            assert(body =~= s@);
        }
    }
    if start == n {
        return None;
    }
    let mut i: usize = start;
    let mut acc: u64 = 0;
    while i < n
        invariant
            n == s@.len(),
            start <= i <= n,
            body == s@.subrange(start as int, n as int),
            body == (if s@.len() > 0 && s@[0] == '+' {
                s@.drop_first()
            } else {
                s@
            }),
            body.len() > 0,
            all_digits(s@.subrange(start as int, i as int)),
            acc == digits_value(s@.subrange(start as int, i as int)),
            acc <= u32::MAX,
        decreases n - i,
    {
        let c = s[i];
        if !('0' <= c && c <= '9') {
            proof {
                assert(body[i - start] == c);
                assert(!is_digit(body[i - start]));
            }
            return None;
        }
        let d = (c as u32 - '0' as u32) as u64;
        let next = acc * 10 + d;
        proof {
            let pre = s@.subrange(start as int, i as int);
            let post = s@.subrange(start as int, i + 1);
            assert(post.drop_last() =~= pre);
            assert(post.last() == c);
            assert(all_digits(post));
        }
        if next > 4294967295 {
            proof {
                assert(body.subrange(0, i + 1 - start) =~= s@.subrange(start as int, i + 1));
                lemma_digits_over(body, (i + 1 - start) as int, u32::MAX as int);
            }
            return None;
        }
        acc = next;
        i = i + 1;
    }
    proof {
        assert(s@.subrange(start as int, n as int) == body);
    }
    Some(acc as u32)
}

/// The numeric components of version string `v`.
pub fn parse_version(v: &str) -> (r: Vec<u32>)
    ensures
        r@ == version_parts(v@),
{
    let s = chars_of(v);
    let mut done: Vec<u32> = Vec::new();
    let mut cur: Vec<char> = Vec::new();
    let mut i: usize = 0;
    proof {
        assert(s@.subrange(0, 0) =~= Seq::<char>::empty());
        assert(split_dots(Seq::<char>::empty()).drop_last() =~= Seq::<Seq<char>>::empty());
    }
    while i < s.len()
        invariant
            0 <= i <= s@.len(),
            split_dots(s@.subrange(0, i as int)).len() > 0,
            cur@ == split_dots(s@.subrange(0, i as int)).last(),
            done@ == parsed_parts(split_dots(s@.subrange(0, i as int)).drop_last()),
        decreases s@.len() - i,
    {
        let ghost pre = s@.subrange(0, i as int);
        let ghost post = s@.subrange(0, i + 1);
        let ghost p = split_dots(pre);
        proof {
            assert(post.drop_last() =~= pre);
            assert(post.last() == s@[i as int]);
        }
        if s[i] == '.' {
            proof {
                assert(split_dots(post) == p.push(Seq::<char>::empty()));
                assert(split_dots(post).drop_last() =~= p);
                assert(p.drop_last().push(p.last()) =~= p);
            }
            let v = parse_u32(cur.as_slice());
            match v {
                Some(x) => {
                    done.push(x);
                },
                None => {},
            }
            cur = Vec::new();
            proof {
                assert(cur@ =~= split_dots(post).last());
            }
        } else {
            proof {
                assert(split_dots(post) == p.update(p.len() - 1, p.last().push(s@[i as int])));
                assert(split_dots(post).drop_last() =~= p.drop_last());
            }
            cur.push(s[i]);
        }
        i = i + 1;
    }
    proof {
        assert(s@.subrange(0, s@.len() as int) =~= s@);
        let p = split_dots(s@);
        assert(p.drop_last().push(p.last()) =~= p);
    }
    let v = parse_u32(cur.as_slice());
    match v {
        Some(x) => {
            done.push(x);
        },
        None => {},
    }
    done
}

/// Whether version `latest` is newer than `current`.
pub fn is_newer_version(latest: &str, current: &str) -> (r: bool)
    ensures
        r == newer(version_parts(latest@), version_parts(current@)),
{
    let l = parse_version(latest);
    let c = parse_version(current);
    let mut i: usize = 0;
    proof {
        assert(l@.subrange(0, l@.len() as int) =~= l@);
        assert(c@.subrange(0, c@.len() as int) =~= c@);
    }
    while i < l.len() && i < c.len()
        invariant
            l@ == version_parts(latest@),
            c@ == version_parts(current@),
            0 <= i <= l@.len(),
            i <= c@.len(),
            newer(l@, c@) == newer(l@.subrange(i as int, l@.len() as int), c@.subrange(i as int, c@.len() as int)),
        decreases l@.len() - i,
    {
        let ghost ls = l@.subrange(i as int, l@.len() as int);
        let ghost cs = c@.subrange(i as int, c@.len() as int);
        proof {
            assert(ls.drop_first() =~= l@.subrange(i + 1, l@.len() as int));
            assert(cs.drop_first() =~= c@.subrange(i + 1, c@.len() as int));
            assert(ls[0] == l@[i as int]);
            assert(cs[0] == c@[i as int]);
        }
        if l[i] > c[i] {
            return true;
        }
        if l[i] < c[i] {
            return false;
        }
        i = i + 1;
    }
    l.len() > c.len()
}

/// No version is newer than itself.
pub proof fn lemma_newer_irreflexive(v: Seq<u32>)
    ensures
        !newer(v, v),
    decreases v.len(),
{
    if v.len() > 0 {
        lemma_newer_irreflexive(v.drop_first());
    }
}

/// Of two versions, at most one is newer than the other.
pub proof fn lemma_newer_asymmetric(a: Seq<u32>, b: Seq<u32>)
    ensures
        !(newer(a, b) && newer(b, a)),
    decreases a.len(),
{
    if a.len() > 0 && b.len() > 0 && a[0] == b[0] {
        lemma_newer_asymmetric(a.drop_first(), b.drop_first());
    }
}

/// Versions compare part by part: where `l` and `c` first differ, at part
/// `i`, `l` is newer exactly when its part is the larger one.
pub proof fn lemma_newer_at_first_difference(l: Seq<u32>, c: Seq<u32>, i: int)
    requires
        0 <= i < l.len(),
        i < c.len(),
        forall|j: int| 0 <= j < i ==> l[j] == c[j],
        l[i] != c[i],
    ensures
        newer(l, c) == (l[i] > c[i]),
    decreases i,
{
    if i > 0 {
        assert forall|j: int| 0 <= j < i - 1 implies l.drop_first()[j] == c.drop_first()[j] by {
            assert(l[j + 1] == c[j + 1]);
        }
        lemma_newer_at_first_difference(l.drop_first(), c.drop_first(), i - 1);
    }
}

/// A version that extends another with more parts is the newer one.
pub proof fn lemma_newer_when_extended(l: Seq<u32>, c: Seq<u32>)
    requires
        c.len() < l.len(),
        forall|j: int| 0 <= j < c.len() ==> l[j] == c[j],
    ensures
        newer(l, c),
    decreases c.len(),
{
    if c.len() > 0 {
        assert forall|j: int| 0 <= j < c.drop_first().len() implies l.drop_first()[j]
            == c.drop_first()[j] by {
            assert(l[j + 1] == c[j + 1]);
        }
        lemma_newer_when_extended(l.drop_first(), c.drop_first());
    }
}

/// The version to offer as an update: `latest` when it differs from
/// `current` and is newer.
pub fn update_available(latest: &str, current: &str) -> (r: Option<String>)
    ensures
        r matches Some(v) ==> v@ == latest@,
        r is Some == (latest@ != current@ && newer(version_parts(latest@), version_parts(current@))),
{
    let a = chars_of(latest);
    let b = chars_of(current);
    if !seq_eq(a.as_slice(), b.as_slice()) && is_newer_version(latest, current) {
        Some(crate::text::owned(latest))
    } else {
        None
    }
}

/// An environment switch is on when its value, ignoring ASCII case, is
/// `1`, `true`, `yes` or `on`.
pub open spec fn flag_on(v: Seq<char>) -> bool {
    let l = ascii_lower_all(v);
    l == "1"@ || l == "true"@ || l == "yes"@ || l == "on"@
}

/// Whether an environment switch with value `value` (None when unset) is on.
pub fn env_flag(value: Option<&str>) -> (r: bool)
    ensures
        r == (match value {
            Some(v) => flag_on(v@),
            None => false,
        }),
{
    match value {
        Some(v) => {
            let cs = chars_of(v);
            let mut low: Vec<char> = Vec::new();
            let mut i: usize = 0;
            while i < cs.len()
                invariant
                    0 <= i <= cs@.len(),
                    low@ == ascii_lower_all(cs@.subrange(0, i as int)),
                decreases cs@.len() - i,
            {
                low.push(ascii_lower_exec(cs[i]));
                proof {
                    assert(low@ =~= ascii_lower_all(cs@.subrange(0, i + 1)));
                }
                i = i + 1;
            }
            proof {
                assert(cs@.subrange(0, cs@.len() as int) =~= cs@);
            }
            let one = chars_of("1");
            let t = chars_of("true");
            let y = chars_of("yes");
            let o = chars_of("on");
            seq_eq(low.as_slice(), one.as_slice()) || seq_eq(low.as_slice(), t.as_slice())
                || seq_eq(low.as_slice(), y.as_slice()) || seq_eq(low.as_slice(), o.as_slice())
        },
        None => false,
    }
}

} // verus!
