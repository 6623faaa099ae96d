use barbershop::github::{Payload, PullRequest, Ref, Repository};

fn event(action: &str, merged: bool, branch: &str) -> Payload {
    Payload {
        action: action.to_string(),
        number: 2,
        pull_request: PullRequest {
            head: Ref {
                branch: branch.to_string(),
                repo: Repository {
                    url: "https://api.github.com/repos/Codertocat/Hello-World".to_string(),
                    full_name: "Codertocat/Hello-World".to_string(),
                },
            },
            merged,
        },
    }
}

#[test]
fn extracts_ref_url() {
    let payload = event("opened", false, "changes");
    assert_eq!(
        payload.ref_url(),
        "https://api.github.com/repos/Codertocat/Hello-World/git/refs/heads/changes"
    );
}

#[test]
fn closed_is_deletable() {
    let payload = event("closed", true, "changes");
    assert!(payload.deletable());
}

#[test]
fn opened_is_not_deltable() {
    let payload = event("opened", false, "changes");
    assert!(!payload.deletable());
}

#[test]
fn closed_unmerged_is_deletable() {
    assert!(event("closed", false, "changes").deletable());
    assert!(!event("reopened", true, "changes").deletable());
    assert!(!event("Closed", true, "changes").deletable());
}

#[test]
fn ref_url_keeps_slashes_of_branch() {
    let a = event("closed", true, "feature/x");
    let b = event("opened", false, "feature/x");
    assert_eq!(
        a.ref_url(),
        "https://api.github.com/repos/Codertocat/Hello-World/git/refs/heads/feature/x"
    );
    assert_eq!(a.ref_url(), b.ref_url());
}

#[test]
fn ref_url_encodes_unsafe_characters() {
    let p = event("closed", true, "fix me#1?é");
    assert_eq!(
        p.ref_url(),
        "https://api.github.com/repos/Codertocat/Hello-World/git/refs/heads/fix%20me%231%3F%C3%A9"
    );
    let q = event("closed", true, "v1.2_rc-3~a@b:c");
    assert_eq!(
        q.ref_url(),
        "https://api.github.com/repos/Codertocat/Hello-World/git/refs/heads/v1.2_rc-3~a@b:c"
    );
}

#[test]
fn ref_url_of_empty_branch() {
    let p = event("closed", true, "");
    assert_eq!(p.ref_url(), "https://api.github.com/repos/Codertocat/Hello-World/git/refs/heads/");
}
