use barbershop::github::{Payload, PullRequest, Ref, Repository};
use barbershop::handler::{on_authentication, on_deletion, on_payload, Action};

fn hello_world(action: &str) -> Payload {
    Payload {
        action: action.to_string(),
        number: 2,
        pull_request: PullRequest {
            head: Ref {
                branch: "changes".to_string(),
                repo: Repository {
                    url: "https://api.github.com/repos/Codertocat/Hello-World".to_string(),
                    full_name: "Codertocat/Hello-World".to_string(),
                },
            },
            merged: true,
        },
    }
}

#[test]
fn closed_event_deletes_and_counts_trim() {
    let payload = hello_world("closed");
    assert!(on_authentication(true).is_none());
    match on_payload(Some(&payload)) {
        Action::Delete { url } => assert_eq!(
            url,
            "https://api.github.com/repos/Codertocat/Hello-World/git/refs/heads/changes"
        ),
        Action::Respond(_) => panic!("expected a deletion"),
    }
    let reply = on_deletion(&payload, Ok(()));
    assert_eq!(reply.status, 200);
    let line = reply.metric.expect("time is moving backwards");
    assert!(line.contains("|barbershop.trim|"));
    assert!(line.ends_with("|#repo:Codertocat/Hello-World,branch:changes"));
}

#[test]
fn failed_deletion_answers_400_with_reason() {
    let payload = hello_world("closed");
    let reply = on_deletion(&payload, Err("404".to_string()));
    assert_eq!(reply.status, 400);
    let line = reply.metric.expect("time is moving backwards");
    assert!(line.contains("|barbershop.fail|"));
    assert!(line.ends_with("|#repo:Codertocat/Hello-World,branch:changes,reason:404"));
}

#[test]
fn unauthenticated_request_answers_401() {
    let reply = on_authentication(false).expect("a reply");
    assert_eq!(reply.status, 401);
    let line = reply.metric.expect("time is moving backwards");
    assert!(line.contains("|barbershop.fail|"));
    assert!(line.ends_with("|#reason:invalid_authentication"));
}

#[test]
fn opened_event_answers_200_without_count() {
    let payload = hello_world("opened");
    match on_payload(Some(&payload)) {
        Action::Respond(reply) => {
            assert_eq!(reply.status, 200);
            assert!(reply.metric.is_none());
        }
        Action::Delete { .. } => panic!("no deletion expected"),
    }
}

#[test]
fn undecodable_event_answers_200_without_count() {
    match on_payload(None) {
        Action::Respond(reply) => {
            assert_eq!(reply.status, 200);
            assert!(reply.metric.is_none());
        }
        Action::Delete { .. } => panic!("no deletion expected"),
    }
}
