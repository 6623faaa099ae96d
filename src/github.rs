use vstd::prelude::*;
use crate::text::{push_upper_hex_digit, upper_hex_digit};
use vstd::utf8::encode_utf8;

verus! {

/// A pull-request event as the hosting platform delivers it.
pub struct Payload {
    pub action: String,
    pub number: usize,
    pub pull_request: PullRequest,
}

/// The part of a pull request that the branch cleanup reads.
pub struct PullRequest {
    pub head: Ref,
    pub merged: bool,
}

/// The head of a pull request: a branch of a repository.
pub struct Ref {
    pub branch: String,
    pub repo: Repository,
}

/// A repository, by its API url and its `owner/repo` name.
pub struct Repository {
    /// API url of the repository.
    pub url: String,
    /// `{owner}/{repo}`
    pub full_name: String,
}

/// Whether an event asks for its head branch to be removed: it does exactly
/// when the pull request was closed. Whether it was merged plays no part, so
/// unmerged pull requests that were closed lose their branch as well.
pub open spec fn deletable_action(action: Seq<char>) -> bool {
    action == "closed"@
}

/// Characters that stand in a url path as they are: the unreserved ones, the
/// sub-delimiters, `:` and `@`, and `/`, which keeps the levels of a
/// hierarchical branch name such as `feature/x` apart.
pub open spec fn is_path_char(c: char) -> bool {
    ('a' <= c && c <= 'z') || ('A' <= c && c <= 'Z') || ('0' <= c && c <= '9') || c == '-'
        || c == '.' || c == '_' || c == '~' || c == '!' || c == '$' || c == '&' || c == '\''
        || c == '(' || c == ')' || c == '*' || c == '+' || c == ',' || c == ';' || c == '='
        || c == ':' || c == '@' || c == '/'
}

/// `%XX` for each byte, in upper-case hexadecimal.
pub open spec fn percent_bytes(b: Seq<u8>) -> Seq<char>
    decreases b.len(),
{
    if b.len() == 0 {
        seq![]
    } else {
        percent_bytes(b.drop_last()) + seq![
            '%',
            upper_hex_digit(b.last() as int / 16),
            upper_hex_digit(b.last() as int % 16),
        ]
    }
}

/// A character of a branch name as it stands in a url path.
pub open spec fn encode_path_char(c: char) -> Seq<char> {
    if is_path_char(c) {
        seq![c]
    } else {
        percent_bytes(encode_utf8(seq![c]))
    }
}

/// A branch name as it stands in a url path.
pub open spec fn encode_path(s: Seq<char>) -> Seq<char>
    decreases s.len(),
{
    if s.len() == 0 {
        seq![]
    } else {
        encode_path(s.drop_last()) + encode_path_char(s.last())
    }
}

/// The url of the git reference of `branch` in the repository at `repo_url`.
pub open spec fn ref_url_of(repo_url: Seq<char>, branch: Seq<char>) -> Seq<char> {
    repo_url + "/git/refs/heads/"@ + encode_path(branch)
}

fn is_path_char_exec(c: char) -> (r: bool)
    ensures
        r == is_path_char(c),
{
    ('a' <= c && c <= 'z') || ('A' <= c && c <= 'Z') || ('0' <= c && c <= '9') || c == '-'
        || c == '.' || c == '_' || c == '~' || c == '!' || c == '$' || c == '&' || c == '\''
        || c == '(' || c == ')' || c == '*' || c == '+' || c == ',' || c == ';' || c == '='
        || c == ':' || c == '@' || c == '/'
}

fn push_percent_bytes(out: &mut String, b: &[u8])
    ensures
        final(out)@ == old(out)@ + percent_bytes(b@),
{
    let mut i: usize = 0;
    while i < b.len()
        invariant
            i <= b@.len(),
            out@ == old(out)@ + percent_bytes(b@.subrange(0, i as int)),
        decreases b@.len() - i,
    {
        let x = b[i];
        out.append("%");
        push_upper_hex_digit(out, x / 16);
        push_upper_hex_digit(out, x % 16);
        proof {
            reveal_strlit("%");
            let t = b@.subrange(0, i + 1);
            assert(t.drop_last() =~= b@.subrange(0, i as int));
            assert(out@ =~= old(out)@ + percent_bytes(t));
        }
        i = i + 1;
    }
    assert(b@.subrange(0, b@.len() as int) =~= b@);
}

/// Appends `s` in the form it takes in a url path.
pub fn push_encoded_path(out: &mut String, s: &str)
    ensures
        final(out)@ == old(out)@ + encode_path(s@),
{
    let n = s.unicode_len();
    let mut i: usize = 0;
    while i < n
        invariant
            i <= n,
            n == s@.len(),
            out@ == old(out)@ + encode_path(s@.subrange(0, i as int)),
        decreases n - i,
    {
        let c = s.get_char(i);
        let piece = s.substring_char(i, i + 1);
        assert(piece@ =~= seq![c]);
        if is_path_char_exec(c) {
            out.append(piece);
        } else {
            push_percent_bytes(out, piece.as_bytes());
        }
        proof {
            let t = s@.subrange(0, i + 1);
            assert(t.drop_last() =~= s@.subrange(0, i as int));
            assert(t.last() == c);
            assert(out@ =~= old(out)@ + encode_path(t));
        }
        i = i + 1;
    }
    assert(s@.subrange(0, n as int) =~= s@);
}

impl Payload {
    /// Return `true` if pull request was closed,
    /// regardless of pull request merge status
    pub fn deletable(&self) -> (r: bool)
        ensures
            r == deletable_action(self.action@),
    {
        let closed = String::from_str("closed");
        proof {
            reveal_strlit("closed");
        }
        closed == self.action
    }

    /// Return full url of the git reference of the pull request's head branch
    pub fn ref_url(&self) -> (r: String)
        ensures
            r@ == ref_url_of(self.pull_request.head.repo.url@, self.pull_request.head.branch@),
    {
        let mut url = self.pull_request.head.repo.url.clone();
        url.append("/git/refs/heads/");
        push_encoded_path(&mut url, self.pull_request.head.branch.as_str());
        proof {
            reveal_strlit("/git/refs/heads/");
        }
        url
    }
}

proof fn lemma_encode_path_concat(a: Seq<char>, b: Seq<char>)
    ensures
        encode_path(a + b) == encode_path(a) + encode_path(b),
    decreases b.len(),
{
    if b.len() == 0 {
        assert(a + b =~= a);
        assert(encode_path(a) + encode_path(b) =~= encode_path(a));
    } else {
        lemma_encode_path_concat(a, b.drop_last());
        assert((a + b).drop_last() =~= a + b.drop_last());
        assert((a + b).last() == b.last());
        assert(encode_path(a + b) =~= encode_path(a) + encode_path(b));
    }
}

/// A closed pull request has its head branch deleted and an opened one does
/// not; the decision reads the action alone, so a merged and an unmerged
/// pull request are treated alike.
pub proof fn lemma_closed_deletable_whatever_merged()
    ensures
        deletable_action("closed"@),
        !deletable_action("opened"@),
{
    reveal_strlit("closed");
    reveal_strlit("opened");
    assert("opened"@[0] != "closed"@[0]);
}

/// The target url is a function of the repository url and the branch alone:
/// two payloads that agree on those two have the same target, whatever else
/// they hold.
pub proof fn lemma_ref_url_determined(a: Payload, b: Payload)
    requires
        a.pull_request.head.repo.url@ == b.pull_request.head.repo.url@,
        a.pull_request.head.branch@ == b.pull_request.head.branch@,
    ensures
        ref_url_of(a.pull_request.head.repo.url@, a.pull_request.head.branch@) == ref_url_of(
            b.pull_request.head.repo.url@,
            b.pull_request.head.branch@,
        ),
{
}

/// A `/` in a branch name stays a path separator in the target url: the
/// levels on either side of it are encoded apart and joined by `/`.
pub proof fn lemma_slash_kept(upper: Seq<char>, lower: Seq<char>)
    ensures
        encode_path(upper + "/"@ + lower) == encode_path(upper) + "/"@ + encode_path(lower),
{
    reveal_strlit("/");
    lemma_encode_path_concat(upper + "/"@, lower);
    lemma_encode_path_concat(upper, "/"@);
    let slash = "/"@;
    assert(slash.len() == 1 && slash[0] == '/');
    assert(slash.drop_last() =~= Seq::<char>::empty());
    assert(encode_path(slash.drop_last()) =~= Seq::<char>::empty());
    assert(is_path_char(slash.last()));
    assert(encode_path(slash) =~= slash);
}

} // verus!
