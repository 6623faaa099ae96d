use vstd::prelude::*;
use crate::github::{deletable_action, ref_url_of, Payload};
use crate::metric::{incr, metric_line, tag_texts};

verus! {

/// What the handler answers the gateway: a status and, where the outcome is
/// counted, the counter line to hand to the metric sink.
pub struct Reply {
    pub status: u16,
    pub metric: Option<String>,
}

/// The next thing the handler does once a payload has been decoded.
pub enum Action {
    /// Answer at once.
    Respond(Reply),
    /// Delete the git reference at `url`, then report with `on_deletion`.
    Delete { url: String },
}

/// Whether `line`, where there is one, counts `name` with `tags` at some time.
pub open spec fn counts(line: Option<String>, name: Seq<char>, tags: Seq<Seq<char>>) -> bool {
    line matches Some(l) ==> exists|t: u64| l@ == #[trigger] metric_line(name, tags, t as nat)
}

/// The counter of branches deleted.
pub open spec fn trim_metric() -> Seq<char> {
    "barbershop.trim"@
}

/// The counter of failures, of authentication or of deletion.
pub open spec fn fail_metric() -> Seq<char> {
    "barbershop.fail"@
}

/// `repo:<repo>`, then `branch:<branch>`.
pub open spec fn trim_tags(repo: Seq<char>, branch: Seq<char>) -> Seq<Seq<char>> {
    seq!["repo:"@ + repo, "branch:"@ + branch]
}

/// `repo:<repo>`, `branch:<branch>`, then `reason:<reason>`.
pub open spec fn trim_fail_tags(reason: Seq<char>, repo: Seq<char>, branch: Seq<char>) -> Seq<
    Seq<char>,
> {
    trim_tags(repo, branch).push("reason:"@ + reason)
}

/// `reason:invalid_authentication`.
pub open spec fn auth_fail_tags() -> Seq<Seq<char>> {
    seq!["reason:invalid_authentication"@]
}

fn tag(key: &str, value: &str) -> (r: String)
    ensures
        r@ == key@ + value@,
{
    String::from_str(key).concat(value)
}

/// Counter line for a deleted branch.
pub fn incr_trim(repo: &str, branch: &str) -> (r: Option<String>)
    ensures
        counts(r, trim_metric(), trim_tags(repo@, branch@)),
{
    let tags = vec![tag("repo:", repo), tag("branch:", branch)];
    proof {
        reveal_strlit("repo:");
        reveal_strlit("branch:");
        reveal_strlit("barbershop.trim");
        assert(tag_texts(tags@) =~= trim_tags(repo@, branch@));
    }
    incr("barbershop.trim", tags)
}

/// Counter line for a request that failed authentication.
pub fn incr_auth_fail() -> (r: Option<String>)
    ensures
        counts(r, fail_metric(), auth_fail_tags()),
{
    let tags = vec![String::from_str("reason:invalid_authentication")];
    proof {
        reveal_strlit("reason:invalid_authentication");
        reveal_strlit("barbershop.fail");
        assert(tag_texts(tags@) =~= auth_fail_tags());
    }
    incr("barbershop.fail", tags)
}

/// Counter line for a deletion that failed for `reason`.
pub fn incr_trim_fail(reason: &str, repo: &str, branch: &str) -> (r: Option<String>)
    ensures
        counts(r, fail_metric(), trim_fail_tags(reason@, repo@, branch@)),
{
    let tags = vec![tag("repo:", repo), tag("branch:", branch), tag("reason:", reason)];
    proof {
        reveal_strlit("repo:");
        reveal_strlit("branch:");
        reveal_strlit("reason:");
        reveal_strlit("barbershop.fail");
        assert(tag_texts(tags@) =~= trim_fail_tags(reason@, repo@, branch@));
    }
    incr("barbershop.fail", tags)
}

/// First step, once the signature has been checked: nothing to answer yet
/// for an authentic request, which goes on to be decoded; `401` and a
/// failure count for any other, whose body is never decoded.
pub fn on_authentication(authentic: bool) -> (r: Option<Reply>)
    ensures
        r is None <==> authentic,
        r matches Some(reply) ==> reply.status == 401 && counts(
            reply.metric,
            fail_metric(),
            auth_fail_tags(),
        ),
{
    if authentic {
        None
    } else {
        Some(Reply { status: 401, metric: incr_auth_fail() })
    }
}

/// Second step, on the decoded payload (`None` where the body was no
/// pull-request event): delete the head branch of a closed pull request,
/// answer `200` with no count to anything else.
pub fn on_payload(payload: Option<&Payload>) -> (r: Action)
    ensures
        match payload {
            Some(p) if deletable_action(p.action@) => r matches Action::Delete { url } && url@
                == ref_url_of(p.pull_request.head.repo.url@, p.pull_request.head.branch@),
            _ => r matches Action::Respond(reply) && reply.status == 200 && reply.metric is None,
        },
{
    match payload {
        Some(p) => {
            if p.deletable() {
                Action::Delete { url: p.ref_url() }
            } else {
                Action::Respond(Reply { status: 200, metric: None })
            }
        },
        None => Action::Respond(Reply { status: 200, metric: None }),
    }
}

/// Last step, on the outcome of the deletion (`Err` with a short reason):
/// `200` and a count of the deleted branch, or `400` and a failure count
/// that carries the reason.
pub fn on_deletion(payload: &Payload, outcome: Result<(), String>) -> (r: Reply)
    ensures
        ({
            let repo = payload.pull_request.head.repo.full_name@;
            let branch = payload.pull_request.head.branch@;
            match outcome {
                Ok(_) => r.status == 200 && counts(r.metric, trim_metric(), trim_tags(repo, branch)),
                Err(reason) => r.status == 400 && counts(
                    r.metric,
                    fail_metric(),
                    trim_fail_tags(reason@, repo, branch),
                ),
            }
        }),
{
    let repo = payload.pull_request.head.repo.full_name.as_str();
    let branch = payload.pull_request.head.branch.as_str();
    match outcome {
        Ok(_) => Reply { status: 200, metric: incr_trim(repo, branch) },
        Err(reason) => Reply { status: 400, metric: incr_trim_fail(reason.as_str(), repo, branch) },
    }
}

} // verus!
