use vstd::prelude::*;

use crate::event::LogEntry;

verus! {

/// A log group or log stream as a describe call of the log service lists it.
/// Groups carry no sequence token.
#[derive(Clone, Debug, PartialEq)]
pub struct LogResource {
    pub name: Option<String>,
    pub sequence_token: Option<String>,
}

/// One event of a batch write: what the log service keeps of an entry.
#[derive(Clone, Debug, PartialEq)]
pub struct OutputEvent {
    pub timestamp: i64,
    pub message: String,
}

/// `p` occurs in `s` as a contiguous run.
pub open spec fn contains_seq(s: Seq<char>, p: Seq<char>) -> bool {
    exists|i: int| 0 <= i && i + p.len() <= s.len() && #[trigger] s.subrange(i, i + p.len()) == p
}

/// A message that is not forwarded: an empty one, or the startup marker a
/// function prints when it starts listening.
pub open spec fn is_noise(message: Seq<char>) -> bool {
    message.len() == 0 || contains_seq(message, "Listening on port"@)
}

/// The events that delivering `entries` writes: the entries whose message is
/// not noise, in their order, each with its timestamp and message.
pub open spec fn forwarded(entries: Seq<LogEntry>) -> Seq<OutputEvent> {
    entries.filter_map(
        |e: LogEntry|
            if is_noise(e.message@) {
                None
            } else {
                Some(OutputEvent { timestamp: e.timestamp, message: e.message })
            },
    )
}

/// `r` is listed under exactly the name `name`.
pub open spec fn is_named(r: LogResource, name: Seq<char>) -> bool {
    r.name matches Some(n) && n@ == name
}

/// The first resource of `listing` named exactly `name`.
pub open spec fn find_named(listing: Seq<LogResource>, name: Seq<char>) -> Option<LogResource>
    decreases listing.len(),
{
    if listing.len() == 0 {
        None
    } else if is_named(listing[0], name) {
        Some(listing[0])
    } else {
        find_named(listing.drop_first(), name)
    }
}

/// Relies on `str::contains`: whether `pattern` matches a sub-slice of `s`.
#[verifier::external_body]
fn str_contains(s: &str, pattern: &str) -> (r: bool)
    ensures
        r == contains_seq(s@, pattern@),
{
    s.contains(pattern)
}

/// Whether a message is noise that is not forwarded.
pub fn is_noise_message(message: &str) -> (r: bool)
    ensures
        r == is_noise(message@),
{
    message.is_empty() || str_contains(message, "Listening on port")
}

/// The events to write for `entries`: noise dropped, order kept.
pub fn events_to_send(entries: &Vec<LogEntry>) -> (r: Vec<OutputEvent>)
    ensures
        r@ == forwarded(entries@),
{
    let mut out: Vec<OutputEvent> = Vec::new();
    let mut i: usize = 0;
    while i < entries.len()
        invariant
            i <= entries@.len(),
            out@ == forwarded(entries@.subrange(0, i as int)),
        decreases entries@.len() - i,
    {
        let entry = &entries[i];
        proof {
            let prefix = entries@.subrange(0, i as int + 1);
            assert(prefix.drop_last() == entries@.subrange(0, i as int));
            assert(prefix.last() == *entry);
        }
        if !is_noise_message(entry.message.as_str()) {
            out.push(OutputEvent { timestamp: entry.timestamp, message: entry.message.clone() });
        }
        i = i + 1;
    }
    assert(entries@.subrange(0, entries@.len() as int) == entries@);
    out
}

/// Finds the resource named exactly `name` in a listing obtained by a
/// prefix search: the index of the first one, or `None`.
pub fn find_exact(listing: &Vec<LogResource>, name: &String) -> (r: Option<usize>)
    ensures
        r is None <==> find_named(listing@, name@) is None,
        r matches Some(i) ==> i < listing@.len() && find_named(listing@, name@) == Some(listing@[i as int]),
{
    let mut i: usize = 0;
    assert(listing@.subrange(0, listing@.len() as int) == listing@);
    while i < listing.len()
        invariant
            i <= listing@.len(),
            find_named(listing@, name@) == find_named(
                listing@.subrange(i as int, listing@.len() as int),
                name@,
            ),
        decreases listing@.len() - i,
    {
        let rest = Ghost(listing@.subrange(i as int, listing@.len() as int));
        assert(rest@.drop_first() == listing@.subrange(i as int + 1, listing@.len() as int));
        let found = match &listing[i].name {
            Some(n) => *n == *name,
            None => false,
        };
        if found {
            return Some(i);
        }
        i = i + 1;
    }
    None
}

} // verus!
