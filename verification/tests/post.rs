use fido::post::{apply_change_at, compute_vote_change, Post, VoteChange, VoteDirection, VoteRequest};
use fido::realtime::{attempt_status, RealtimeConnectionStatus};
use fido::repo::{detect_repo_context, git_output_value};

fn post(up: i32, down: i32, vote: Option<&str>) -> Post {
    Post {
        id: 1,
        author_id: 2,
        author_username: "a".to_string(),
        content: "c".to_string(),
        community_id: 3,
        parent_post_id: None,
        upvotes: up,
        downvotes: down,
        user_vote: vote.map(|v| v.to_string()),
        created_at: 0,
        hashtags: vec![],
        approved: true,
        reply_count: 0,
    }
}

fn deltas(c: Option<VoteChange>) -> Option<(i32, i32, VoteDirection)> {
    c.map(|c| (c.up_delta, c.down_delta, c.new_vote))
}

#[test]
fn vote_directions() {
    assert_eq!(VoteDirection::from_str("up"), Some(VoteDirection::Up));
    assert_eq!(VoteDirection::from_str("down"), Some(VoteDirection::Down));
    assert_eq!(VoteDirection::from_str("Up"), None);
    assert_eq!(VoteDirection::Up.as_str(), "up");
    assert_eq!(VoteDirection::Down.as_str(), "down");
}

#[test]
fn vote_changes() {
    assert_eq!(deltas(compute_vote_change(&None, "up")), Some((1, 0, VoteDirection::Up)));
    assert_eq!(deltas(compute_vote_change(&None, "down")), Some((0, 1, VoteDirection::Down)));
    assert_eq!(deltas(compute_vote_change(&Some("down".to_string()), "up")), Some((1, -1, VoteDirection::Up)));
    assert_eq!(deltas(compute_vote_change(&Some("up".to_string()), "down")), Some((-1, 1, VoteDirection::Down)));
    assert_eq!(deltas(compute_vote_change(&Some("up".to_string()), "up")), None);
    assert_eq!(deltas(compute_vote_change(&None, "sideways")), None);
}

#[test]
fn applying_votes() {
    let mut p = post(5, 2, None);
    assert_eq!(p.apply_vote("down"), VoteRequest::Send(VoteDirection::Down));
    assert_eq!((p.upvotes, p.downvotes, p.user_vote.as_deref()), (5, 3, Some("down")));
    assert_eq!(p.apply_vote("down"), VoteRequest::Ignored);
    assert_eq!((p.upvotes, p.downvotes), (5, 3));
    assert_eq!(p.apply_vote("up"), VoteRequest::Send(VoteDirection::Up));
    assert_eq!((p.upvotes, p.downvotes, p.user_vote.as_deref()), (6, 2, Some("up")));
    assert_eq!(p.apply_vote("meh"), VoteRequest::InvalidDirection);
    assert_eq!((p.upvotes, p.downvotes), (6, 2));

    let mut v = vec![post(0, 0, None), post(1, 1, None)];
    apply_change_at(&mut v, 1, compute_vote_change(&None, "up"));
    assert_eq!((v[0].upvotes, v[1].upvotes, v[1].user_vote.as_deref()), (0, 2, Some("up")));
    let mut q = post(1, 1, None);
    q.apply_change(None);
    assert_eq!((q.upvotes, q.downvotes, q.user_vote), (1, 1, None));
}

#[test]
fn git_outputs_and_repo_context() {
    assert_eq!(git_output_value(false, "x"), None);
    assert_eq!(git_output_value(true, "  \n"), None);
    assert_eq!(git_output_value(true, " /home/u/repo\n"), Some("/home/u/repo".to_string()));
    let r = detect_repo_context(Some("/repo".to_string()), Some("git@github.com:owner/name.git".to_string()))
        .unwrap();
    assert_eq!((r.owner.as_str(), r.name.as_str()), ("owner", "name"));
    assert_eq!(r.full_name(), "owner/name");
    assert!(detect_repo_context(None, Some("git@github.com:owner/name.git".to_string())).is_none());
    assert!(detect_repo_context(Some("/repo".to_string()), None).is_none());
    assert!(detect_repo_context(Some("/repo".to_string()), Some("https://gitlab.com/a/b".to_string())).is_none());
}

#[test]
fn connection_attempt_status() {
    assert_eq!(attempt_status(0), RealtimeConnectionStatus::Connecting);
    assert_eq!(attempt_status(3), RealtimeConnectionStatus::Reconnecting);
}
