//! The GitHub repository the client was launched in, read from the URL of
//! the `origin` remote.
use vstd::prelude::*;
use crate::text::{
    chars_of, concat, find, find_from, has_prefix, has_suffix, index_of, index_of_exec,
    lemma_find_from, slice_to_vec, string_from_chars, strip_prefix,
    strip_suffix_or_keep, trim, trim_chars, is_ws, trim_start, trim_end, lemma_index_of,
};

verus! {

/// A GitHub repository, `owner/name`.
#[derive(Debug)]
pub struct RepoRef {
    pub owner: String,
    pub name: String,
}

impl RepoRef {
    /// `owner/name`.
    pub fn full_name(&self) -> (r: String)
        ensures
            r@ == self.owner@ + "/"@ + self.name@,
    {
        proof {
            reveal_strlit("/");
        }
        let o = chars_of(self.owner.as_str());
        let slash = chars_of("/");
        let n = chars_of(self.name.as_str());
        let a = concat(o.as_slice(), slash.as_slice());
        let b = concat(a.as_slice(), n.as_slice());
        string_from_chars(b.as_slice())
    }
}

/// `s` without the suffix `p` when it has it.
pub open spec fn drop_suffix(s: Seq<char>, p: Seq<char>) -> Seq<char> {
    if has_suffix(s, p) {
        s.subrange(0, s.len() - p.len())
    } else {
        s
    }
}

/// `s` without the prefix `p` when it has it.
pub open spec fn drop_prefix(s: Seq<char>, p: Seq<char>) -> Seq<char> {
    if has_prefix(s, p) {
        s.subrange(p.len() as int, s.len() as int)
    } else {
        s
    }
}

/// The `owner/name` path of a GitHub remote URL, before suffixes are removed.
pub open spec fn remote_path(url: Seq<char>) -> Option<Seq<char>> {
    if has_prefix(url, "git@github.com:"@) {
        Some(url.subrange(15, url.len() as int))
    } else {
        let k = find_from(url, "://"@, 0);
        if k < 0 {
            None
        } else {
            let after = drop_prefix(url.subrange(k + 3, url.len() as int), "git@"@);
            if has_prefix(after, "github.com/"@) {
                Some(after.subrange(11, after.len() as int))
            } else {
                None
            }
        }
    }
}

/// Owner and name parsed from a GitHub remote URL, in the forms git writes:
/// `https://github.com/owner/name(.git)`, `git@github.com:owner/name(.git)`,
/// `ssh://git@github.com/owner/name(.git)`, `git://github.com/owner/name(.git)`.
pub open spec fn spec_parse_github_remote(url: Seq<char>) -> Option<(Seq<char>, Seq<char>)> {
    match remote_path(trim(url)) {
        None => None,
        Some(p0) => split_remote_path(p0),
    }
}

/// Owner and name of the path `p0` of a remote URL: one `.git` and then
/// one `/` are dropped from its end, and the rest must be `owner/name`
/// with both non-empty and the name free of `/`.
pub open spec fn split_remote_path(p0: Seq<char>) -> Option<(Seq<char>, Seq<char>)> {
    let p = drop_suffix(drop_suffix(p0, ".git"@), "/"@);
    let k = index_of(p, '/', 0);
    if k < 0 {
        None
    } else {
        let owner = p.subrange(0, k);
        let name = p.subrange(k + 1, p.len() as int);
        if owner.len() == 0 || name.len() == 0 || index_of(name, '/', 0) >= 0 {
            None
        } else {
            Some((owner, name))
        }
    }
}

/// No character of `s` is `/`.
pub open spec fn slash_free(s: Seq<char>) -> bool {
    forall|i: int| 0 <= i < s.len() ==> s[i] != '/'
}

/// Every owner and name parsed out of a remote URL is non-empty and free
/// of `/`.
pub proof fn lemma_parsed_remote_shape(url: Seq<char>)
    ensures
        spec_parse_github_remote(url) matches Some((o, n)) ==> o.len() > 0 && n.len() > 0
            && slash_free(o) && slash_free(n),
{
    match remote_path(trim(url)) {
        None => {},
        Some(p0) => {
            let p = drop_suffix(drop_suffix(p0, ".git"@), "/"@);
            lemma_index_of(p, '/', 0);
            let k = index_of(p, '/', 0);
            if k >= 0 {
                let owner = p.subrange(0, k);
                let name = p.subrange(k + 1, p.len() as int);
                lemma_index_of(name, '/', 0);
                assert forall|i: int| 0 <= i < owner.len() implies owner[i] != '/' by {
                    assert(owner[i] == p[i]);
                }
            }
        },
    }
}

/// The path `owner/name.git` splits into `owner` and `name`, for an owner
/// and a name that are non-empty and free of `/`.
proof fn lemma_split_git_path(owner: Seq<char>, name: Seq<char>)
    requires
        owner.len() > 0,
        name.len() > 0,
        slash_free(owner),
        slash_free(name),
    ensures
        split_remote_path(owner + "/"@ + name + ".git"@) == Some((owner, name)),
{
    reveal_strlit("/");
    reveal_strlit(".git");
    let q = owner + "/"@ + name;
    let p0 = q + ".git"@;
    assert(has_suffix(p0, ".git"@)) by {
        assert(p0.subrange(p0.len() - 4, p0.len() as int) =~= ".git"@);
    }
    assert(drop_suffix(p0, ".git"@) =~= q);
    assert(!has_suffix(q, "/"@)) by {
        assert(q.subrange(q.len() - 1, q.len() as int)[0] == name.last());
        assert(name.last() != '/');
    }
    assert(drop_suffix(q, "/"@) == q);
    lemma_index_of(q, '/', 0);
    assert(q[owner.len() as int] == '/');
    assert forall|i: int| 0 <= i < owner.len() implies q[i] != '/' by {
        assert(q[i] == owner[i]);
    }
    assert(index_of(q, '/', 0) == owner.len());
    assert(q.subrange(0, owner.len() as int) =~= owner);
    assert(q.subrange(owner.len() + 1int, q.len() as int) =~= name);
    lemma_index_of(name, '/', 0);
}

/// The https URL `https://github.com/owner/name.git` parses back to
/// `owner` and `name`, for an owner and a name that are non-empty and free
/// of `/`.
pub proof fn lemma_https_git_remote_round_trip(owner: Seq<char>, name: Seq<char>)
    requires
        owner.len() > 0,
        name.len() > 0,
        slash_free(owner),
        slash_free(name),
    ensures
        spec_parse_github_remote("https://github.com/"@ + owner + "/"@ + name + ".git"@) == Some(
            (owner, name),
        ),
{
    reveal_strlit("https://github.com/");
    reveal_strlit("/");
    reveal_strlit("git@github.com:");
    reveal_strlit("://");
    reveal_strlit("git@");
    reveal_strlit("github.com/");
    reveal_strlit(".git");
    let p0 = owner + "/"@ + name + ".git"@;
    let url = "https://github.com/"@ + owner + "/"@ + name + ".git"@;
    assert(url =~= "https://github.com/"@ + p0);
    assert(url[0] == 'h');
    assert(trim_start(url) == url);
    assert(url.last() == 't');
    assert(trim_end(url) == url);
    assert(trim(url) == url);
    assert(!has_prefix(url, "git@github.com:"@)) by {
        assert(url.subrange(0, 15)[0] == url[0]);
        assert("git@github.com:"@[0] == 'g');
    }
    assert(url.subrange(5, 8) =~= "://"@);
    assert(find_from(url, "://"@, 0) == 5) by {
        assert(url.subrange(0, 3) != "://"@) by {
            assert(url.subrange(0, 3)[0] == url[0]);
            assert("://"@[0] == ':');
        }
        assert(url.subrange(1, 4) != "://"@) by {
            assert(url.subrange(1, 4)[0] == url[1]);
            assert("://"@[0] == ':');
        }
        assert(url.subrange(2, 5) != "://"@) by {
            assert(url.subrange(2, 5)[0] == url[2]);
            assert("://"@[0] == ':');
        }
        assert(url.subrange(3, 6) != "://"@) by {
            assert(url.subrange(3, 6)[0] == url[3]);
            assert("://"@[0] == ':');
        }
        assert(url.subrange(4, 7) != "://"@) by {
            assert(url.subrange(4, 7)[0] == url[4]);
            assert("://"@[0] == ':');
        }
        reveal_with_fuel(find_from, 7);
    }
    let rest = url.subrange(8, url.len() as int);
    assert(rest =~= "github.com/"@ + p0);
    assert(!has_prefix(rest, "git@"@)) by {
        assert(rest.subrange(0, 4)[3] == rest[3]);
        assert(rest[3] == 'h');
        assert("git@"@[3] == '@');
    }
    assert(drop_prefix(rest, "git@"@) == rest);
    assert(has_prefix(rest, "github.com/"@)) by {
        assert(rest.subrange(0, 11) =~= "github.com/"@);
    }
    assert(rest.subrange(11, rest.len() as int) =~= p0);
    assert(remote_path(url) == Some(p0));
    lemma_split_git_path(owner, name);
}

/// The SSH URL `git@github.com:owner/name.git` parses back to `owner` and
/// `name`, for an owner and a name that are non-empty and free of `/`.
pub proof fn lemma_ssh_git_remote_round_trip(owner: Seq<char>, name: Seq<char>)
    requires
        owner.len() > 0,
        name.len() > 0,
        slash_free(owner),
        slash_free(name),
    ensures
        spec_parse_github_remote("git@github.com:"@ + owner + "/"@ + name + ".git"@) == Some(
            (owner, name),
        ),
{
    reveal_strlit("git@github.com:");
    reveal_strlit("/");
    reveal_strlit(".git");
    let p0 = owner + "/"@ + name + ".git"@;
    let url = "git@github.com:"@ + owner + "/"@ + name + ".git"@;
    assert(url =~= "git@github.com:"@ + p0);
    assert(url[0] == 'g');
    assert(trim_start(url) == url);
    assert(url.last() == 't');
    assert(trim_end(url) == url);
    assert(trim(url) == url);
    assert(has_prefix(url, "git@github.com:"@)) by {
        assert(url.subrange(0, 15) =~= "git@github.com:"@);
    }
    assert(url.subrange(15, url.len() as int) =~= p0);
    assert(remote_path(url) == Some(p0));
    lemma_split_git_path(owner, name);
}

/// The path `owner/name` splits into `owner` and `name`, for an owner and
/// a name that are non-empty and free of `/`, the name not ending in
/// `.git`.
proof fn lemma_split_plain_path(owner: Seq<char>, name: Seq<char>)
    requires
        owner.len() > 0,
        name.len() > 0,
        forall|i: int| 0 <= i < owner.len() ==> owner[i] != '/',
        forall|i: int| 0 <= i < name.len() ==> name[i] != '/',
        !has_suffix(name, ".git"@),
    ensures
        split_remote_path(owner + "/"@ + name) == Some((owner, name)),
{
    reveal_strlit("/");
    reveal_strlit(".git");
    let p0 = owner + "/"@ + name;
    // no suffixes to drop
    assert(!has_suffix(p0, ".git"@)) by {
        if has_suffix(p0, ".git"@) {
            if name.len() >= 4 {
                assert(name.subrange(name.len() - 4, name.len() as int) =~= p0.subrange(
                    p0.len() - 4,
                    p0.len() as int,
                ));
            } else {
                let k = owner.len() as int;
                assert(p0[k] == '/');
                assert(p0.len() - 4 <= k);
                assert(p0.subrange(p0.len() - 4, p0.len() as int)[k - (p0.len() - 4)] == '/');
            }
        }
    }
    assert(drop_suffix(p0, ".git"@) == p0);
    assert(!has_suffix(p0, "/"@)) by {
        assert(p0.subrange(p0.len() - 1, p0.len() as int)[0] == name.last());
    }
    assert(drop_suffix(p0, "/"@) == p0);
    // the split at the first '/'
    lemma_index_of(p0, '/', 0);
    assert(p0[owner.len() as int] == '/');
    assert forall|i: int| 0 <= i < owner.len() implies p0[i] != '/' by {
        assert(p0[i] == owner[i]);
    }
    assert(index_of(p0, '/', 0) == owner.len());
    assert(p0.subrange(0, owner.len() as int) =~= owner);
    assert(p0.subrange(owner.len() + 1int, p0.len() as int) =~= name);
    lemma_index_of(name, '/', 0);
}

/// The https URL of repository `owner/name` on GitHub parses back to
/// `owner` and `name`, for an owner and a name that are not empty, hold no
/// `/`, and where the name does not end in `.git` or in whitespace.
pub proof fn lemma_https_remote_round_trip(owner: Seq<char>, name: Seq<char>)
    requires
        owner.len() > 0,
        name.len() > 0,
        forall|i: int| 0 <= i < owner.len() ==> owner[i] != '/',
        forall|i: int| 0 <= i < name.len() ==> name[i] != '/',
        !has_suffix(name, ".git"@),
        !is_ws(name.last()),
    ensures
        spec_parse_github_remote("https://github.com/"@ + owner + "/"@ + name) == Some((owner, name)),
{
    reveal_strlit("https://github.com/");
    reveal_strlit("/");
    reveal_strlit("git@github.com:");
    reveal_strlit("://");
    reveal_strlit("git@");
    reveal_strlit("github.com/");
    reveal_strlit(".git");
    let url = "https://github.com/"@ + owner + "/"@ + name;
    let p0 = owner + "/"@ + name;
    assert(url =~= "https://github.com/"@ + p0);
    assert(url.len() == 19 + p0.len());
    // no surrounding whitespace
    assert(url[0] == 'h');
    assert(trim_start(url) == url);
    assert(url.last() == name.last());
    assert(trim_end(url) == url);
    assert(trim(url) == url);
    // the https form
    assert(!has_prefix(url, "git@github.com:"@)) by {
        assert(url.subrange(0, 15)[0] == url[0]);
        assert("git@github.com:"@[0] == 'g');
    }
    assert(url.subrange(5, 8) =~= "://"@);
    assert(find_from(url, "://"@, 0) == 5) by {
        assert(url.subrange(0, 3) != "://"@) by {
            assert(url.subrange(0, 3)[0] == url[0]);
            assert("://"@[0] == ':');
        }
        assert(url.subrange(1, 4) != "://"@) by {
            assert(url.subrange(1, 4)[0] == url[1]);
            assert("://"@[0] == ':');
        }
        assert(url.subrange(2, 5) != "://"@) by {
            assert(url.subrange(2, 5)[0] == url[2]);
            assert("://"@[0] == ':');
        }
        assert(url.subrange(3, 6) != "://"@) by {
            assert(url.subrange(3, 6)[0] == url[3]);
            assert("://"@[0] == ':');
        }
        assert(url.subrange(4, 7) != "://"@) by {
            assert(url.subrange(4, 7)[0] == url[4]);
            assert("://"@[0] == ':');
        }
        reveal_with_fuel(find_from, 7);
    }
    let rest = url.subrange(8, url.len() as int);
    assert(rest =~= "github.com/"@ + p0);
    assert(!has_prefix(rest, "git@"@)) by {
        assert(rest.subrange(0, 4)[3] == rest[3]);
        assert(rest[3] == 'h');
        assert("git@"@[3] == '@');
    }
    assert(drop_prefix(rest, "git@"@) == rest);
    assert(has_prefix(rest, "github.com/"@)) by {
        assert(rest.subrange(0, 11) =~= "github.com/"@);
    }
    assert(rest.subrange(11, rest.len() as int) =~= p0);
    assert(remote_path(url) == Some(p0));
    lemma_split_plain_path(owner, name);
}

/// Parse `owner/name` out of a GitHub remote URL.
pub fn parse_github_remote(url: &str) -> (r: Option<RepoRef>)
    ensures
        match spec_parse_github_remote(url@) {
            Some((o, n)) => r matches Some(repo) && repo.owner@ == o && repo.name@ == n,
            None => r is None,
        },
        r matches Some(repo) ==> repo.owner@.len() > 0 && repo.name@.len() > 0 && slash_free(
            repo.owner@,
        ) && slash_free(repo.name@),
{
    proof {
        lemma_parsed_remote_shape(url@);
    }
    proof {
        reveal_strlit("git@github.com:");
        reveal_strlit("://");
        reveal_strlit("git@");
        reveal_strlit("github.com/");
        reveal_strlit(".git");
        reveal_strlit("/");
    }
    let raw = chars_of(url);
    let u = trim_chars(raw.as_slice());
    let ssh_prefix = chars_of("git@github.com:");
    let path: Vec<char> = match strip_prefix(u.as_slice(), ssh_prefix.as_slice()) {
        Some(rest) => rest,
        None => {
            let sep = chars_of("://");
            let k = match find(u.as_slice(), sep.as_slice()) {
                Some(k) => k,
                None => return None,
            };
            proof {
                lemma_find_from(u@, sep@, 0);
            }
            let ulen = u.len();
            let after0 = slice_to_vec(u.as_slice(), k + 3, ulen);
            let git_at = chars_of("git@");
            let after = match strip_prefix(after0.as_slice(), git_at.as_slice()) {
                Some(a) => a,
                None => after0,
            };
            let host = chars_of("github.com/");
            match strip_prefix(after.as_slice(), host.as_slice()) {
                Some(p) => p,
                None => return None,
            }
        },
    };
    let dot_git = chars_of(".git");
    let slash = chars_of("/");
    let p1 = strip_suffix_or_keep(path.as_slice(), dot_git.as_slice());
    let p = strip_suffix_or_keep(p1.as_slice(), slash.as_slice());
    let k = match index_of_exec(p.as_slice(), '/') {
        Some(k) => k,
        None => return None,
    };
    let plen = p.len();
    let owner = slice_to_vec(p.as_slice(), 0, k);
    let name = slice_to_vec(p.as_slice(), k + 1, plen);
    if owner.len() == 0 || name.len() == 0 || index_of_exec(name.as_slice(), '/').is_some() {
        return None;
    }
    Some(
        RepoRef {
            owner: string_from_chars(owner.as_slice()),
            name: string_from_chars(name.as_slice()),
        },
    )
}

/// The value a git command printed: its standard output trimmed, when the
/// command succeeded and printed something.
pub fn git_output_value(success: bool, stdout: &str) -> (r: Option<String>)
    ensures
        !success ==> r is None,
        success && trim(stdout@).len() == 0 ==> r is None,
        success && trim(stdout@).len() > 0 ==> (r matches Some(v) && v@ == trim(stdout@)),
{
    if !success {
        return None;
    }
    let raw = chars_of(stdout);
    let t = trim_chars(raw.as_slice());
    if t.len() == 0 {
        None
    } else {
        Some(string_from_chars(t.as_slice()))
    }
}

/// The repository to open, given the repository root (`git rev-parse
/// --show-toplevel`) and the URL of its `origin` remote: none outside a
/// repository, without an origin, or when the origin is not on GitHub.
pub fn detect_repo_context(toplevel: Option<String>, origin_url: Option<String>) -> (r: Option<RepoRef>)
    ensures
        match (toplevel, origin_url) {
            (Some(_), Some(u)) => match spec_parse_github_remote(u@) {
                Some((o, n)) => r matches Some(repo) && repo.owner@ == o && repo.name@ == n,
                None => r is None,
            },
            _ => r is None,
        },
{
    match (toplevel, origin_url) {
        (Some(_), Some(u)) => parse_github_remote(u.as_str()),
        _ => None,
    }
}

} // verus!
