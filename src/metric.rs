use vstd::prelude::*;
use crate::text::{decimal, push_decimal};

verus! {

/// Tags joined by `,`, in the order given.
pub open spec fn join_tags(tags: Seq<Seq<char>>) -> Seq<char>
    decreases tags.len(),
{
    if tags.len() == 0 {
        seq![]
    } else if tags.len() == 1 {
        tags[0]
    } else {
        join_tags(tags.drop_last()) + ","@ + tags.last()
    }
}

/// The text of each tag.
pub open spec fn tag_texts(tags: Seq<String>) -> Seq<Seq<char>> {
    tags.map_values(|t: String| t@)
}

/// A counter line that adds one to `name` at `seconds` since the epoch:
/// `MONITORING|<seconds>|1|count|<name>|#<tags>`.
pub open spec fn metric_line(name: Seq<char>, tags: Seq<Seq<char>>, seconds: nat) -> Seq<char> {
    "MONITORING|"@ + decimal(seconds) + "|1|count|"@ + name + "|#"@ + join_tags(tags)
}

#[verifier::external_type_specification]
#[verifier::external_body]
pub struct ExSystemTime(std::time::SystemTime);

/// Relies on std's `SystemTime::now`: the current time of the system clock.
#[verifier::external_body]
fn now() -> (r: std::time::SystemTime) {
    std::time::SystemTime::now()
}

/// Relies on std's `SystemTime::duration_since`, from `UNIX_EPOCH`: the whole
/// seconds from the epoch to `t`, or `None` where `t` lies before it.
#[verifier::external_body]
fn seconds_since_epoch(t: &std::time::SystemTime) -> (r: Option<u64>) {
    t.duration_since(std::time::UNIX_EPOCH).ok().map(|d| d.as_secs())
}

/// The counter line for `metric_name` with `tags` at `seconds` since the epoch.
pub fn render(metric_name: &str, tags: &Vec<String>, seconds: u64) -> (r: String)
    ensures
        r@ == metric_line(metric_name@, tag_texts(tags@), seconds as nat),
{
    let mut line = String::from_str("MONITORING|");
    push_decimal(&mut line, seconds);
    line.append("|1|count|");
    line.append(metric_name);
    line.append("|#");
    let ghost head = line@;
    let mut i: usize = 0;
    while i < tags.len()
        invariant
            i <= tags@.len(),
            line@ == head + join_tags(tag_texts(tags@).subrange(0, i as int)),
        decreases tags@.len() - i,
    {
        if i > 0 {
            line.append(",");
        }
        line.append(tags[i].as_str());
        proof {
            reveal_strlit(",");
            let t = tag_texts(tags@).subrange(0, i + 1);
            assert(t.drop_last() =~= tag_texts(tags@).subrange(0, i as int));
            if i == 0 {
                assert(tag_texts(tags@).subrange(0, 0) =~= Seq::<Seq<char>>::empty());
            }
            assert(line@ =~= head + join_tags(t));
        }
        i = i + 1;
    }
    proof {
        reveal_strlit("MONITORING|");
        reveal_strlit("|1|count|");
        reveal_strlit("|#");
        assert(tag_texts(tags@).subrange(0, tags@.len() as int) =~= tag_texts(tags@));
        assert(line@ =~= metric_line(metric_name@, tag_texts(tags@), seconds as nat));
    }
    line
}

/// Return a counter metric line for the monitoring platform, stamped with the
/// current time; `None` where the clock gives no time since the epoch.
pub fn incr(metric_name: &str, tags: Vec<String>) -> (r: Option<String>)
    ensures
        r matches Some(line) ==> exists|t: u64|
            line@ == #[trigger] metric_line(metric_name@, tag_texts(tags@), t as nat),
{
    match seconds_since_epoch(&now()) {
        Some(seconds) => {
            let line = render(metric_name, &tags, seconds);
            assert(line@ == metric_line(metric_name@, tag_texts(tags@), seconds as nat));
            Some(line)
        },
        None => None,
    }
}

} // verus!
