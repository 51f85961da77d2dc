use fido::repo::parse_github_remote;

fn repo(owner: &str, name: &str) -> Option<(String, String)> {
    Some((owner.to_string(), name.to_string()))
}

fn parse(url: &str) -> Option<(String, String)> {
    parse_github_remote(url).map(|r| (r.owner, r.name))
}

#[test]
fn parses_github_remote_url_forms() {
    let cases = [
        ("https://github.com/ianjamesburke/fido.git", repo("ianjamesburke", "fido")),
        ("https://github.com/ianjamesburke/fido", repo("ianjamesburke", "fido")),
        ("https://github.com/rust-lang/rust/", repo("rust-lang", "rust")),
        ("git@github.com:octocat/Hello-World.git", repo("octocat", "Hello-World")),
        ("git@github.com:octocat/Hello-World", repo("octocat", "Hello-World")),
        ("ssh://git@github.com/owner/name.git", repo("owner", "name")),
        ("git://github.com/owner/name.git", repo("owner", "name")),
        ("  https://github.com/owner/name.git\n", repo("owner", "name")),
        // Not GitHub / not parseable
        ("https://gitlab.com/owner/name.git", None),
        ("git@gitlab.com:owner/name.git", None),
        ("https://github.com/owner", None),
        ("https://github.com/", None),
        ("not-a-url", None),
        ("", None),
    ];

    for (url, expected) in cases {
        assert_eq!(parse(url), expected, "url: {:?}", url);
    }
}

#[test]
fn full_name_joins_owner_and_name() {
    let r = parse_github_remote("git@github.com:testowner/testrepo.git").unwrap();
    assert_eq!(r.full_name(), "testowner/testrepo");
}

#[test]
fn rejects_nested_paths_and_empty_parts() {
    assert_eq!(parse("https://github.com/a/b/c"), None);
    assert_eq!(parse("https://github.com//b"), None);
    assert_eq!(parse("https://github.com/a/.git"), None);
}

#[test]
fn https_remote_of_owner_and_name_parses_back() {
    for (owner, name) in [("ann", "tool"), ("a-b", "x.y"), ("Org", "git")] {
        let url = format!("https://github.com/{}/{}", owner, name);
        let r = parse_github_remote(&url).unwrap();
        assert_eq!((r.owner.as_str(), r.name.as_str()), (owner, name));
    }
}

#[test]
fn git_suffixed_remotes_of_owner_and_name_parse_back() {
    for (owner, name) in [("ann", "tool"), ("a-b", "x.git"), ("Org", "g")] {
        for url in [
            format!("https://github.com/{}/{}.git", owner, name),
            format!("git@github.com:{}/{}.git", owner, name),
        ] {
            let r = parse_github_remote(&url).unwrap();
            assert_eq!((r.owner.as_str(), r.name.as_str()), (owner, name));
        }
    }
    assert!(parse_github_remote("https://github.com//tool").is_none());
    assert!(parse_github_remote("https://github.com/ann/").is_none());
}
