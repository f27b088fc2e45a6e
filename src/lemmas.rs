use vstd::prelude::*;

use crate::cloudwatch_logs::{find_named, forwarded, is_named, is_noise, LogResource, OutputEvent};
use crate::error::RuntimeError;
use crate::event::LogEntry;
use crate::function_info::{names_missing_field, string_attr, AttributeValue};
use crate::pipeline::{Pipeline, Request, Response, Stage};

verus! {

/// `resp` answers a describe call for `name` without listing it.
pub open spec fn lacks(resp: Response, name: Seq<char>) -> bool {
    resp is NotFound || (resp matches Response::Listing(l) && find_named(l@, name) is None)
}

/// `listing` holds exactly one resource named `name`, and its token is `token`.
pub open spec fn lists_once(listing: Seq<LogResource>, name: Seq<char>, token: Option<String>) -> bool {
    &&& exists|i: int| 0 <= i < listing.len() && is_named(#[trigger] listing[i], name)
        && listing[i].sequence_token == token
    &&& forall|i: int, j: int|
        0 <= i < listing.len() && 0 <= j < listing.len() && is_named(#[trigger] listing[i], name)
            && is_named(#[trigger] listing[j], name) ==> i == j
}

/// In a listing where one resource only is named `name`, the search finds it.
pub proof fn lemma_find_named_unique(listing: Seq<LogResource>, name: Seq<char>, i: int)
    requires
        0 <= i < listing.len(),
        is_named(listing[i], name),
        forall|j: int| 0 <= j < listing.len() && is_named(#[trigger] listing[j], name) ==> j == i,
    ensures
        find_named(listing, name) == Some(listing[i]),
    decreases listing.len(),
{
    if i > 0 {
        let rest = listing.drop_first();
        assert(!is_named(listing[0], name));
        assert forall|j: int| 0 <= j < rest.len() && is_named(#[trigger] rest[j], name) implies j
            == i - 1 by {
            assert(rest[j] == listing[j + 1]);
        }
        lemma_find_named_unique(rest, name, i - 1);
    }
}

/// The forwarded events are the entries whose message is not noise, in the order
/// of the batch, each keeping its timestamp and message.
pub proof fn lemma_forwarded_keeps_order(entries: Seq<LogEntry>)
    ensures
        forwarded(entries) == entries.filter(|e: LogEntry| !is_noise(e.message@)).map_values(
            |e: LogEntry| OutputEvent { timestamp: e.timestamp, message: e.message },
        ),
    decreases entries.len(),
{
    reveal(Seq::filter);
    if entries.len() > 0 {
        lemma_forwarded_keeps_order(entries.drop_last());
    }
}

/// A function that the lookup table does not know ends the run with
/// `MissingFunction` for its id, and nothing more is asked.
pub proof fn lemma_unknown_function_ends_run(p: Pipeline, next: Pipeline, req: Request)
    requires
        p.stage == Stage::ResolvingFunction,
        p.steps_to(Response::Item(None), next, req),
    ensures
        req == Request::Finished(Err(RuntimeError::MissingFunction(p.function_id))),
        next.stage == Stage::Done,
        forall|resp: Response| !next.expects(resp),
{
}

/// An item that lacks exactly one of `id`, `name` and
/// `cloudwatch_logs_assume_role_arn` ends the run with `MissingField`
/// naming that field.
pub proof fn lemma_missing_field_ends_run(
    p: Pipeline,
    item: Vec<(String, AttributeValue)>,
    field: Seq<char>,
    next: Pipeline,
    req: Request,
)
    requires
        p.stage == Stage::ResolvingFunction,
        p.steps_to(Response::Item(Some(item)), next, req),
        field == "id"@ || field == "name"@ || field == "cloudwatch_logs_assume_role_arn"@,
        string_attr(item@, field) is None,
        field == "id"@ || string_attr(item@, "id"@) is Some,
        field == "name"@ || string_attr(item@, "name"@) is Some,
        field == "cloudwatch_logs_assume_role_arn"@ || string_attr(
            item@,
            "cloudwatch_logs_assume_role_arn"@,
        ) is Some,
    ensures
        req matches Request::Finished(Err(e)) && names_missing_field(e, field),
        next.stage == Stage::Done,
{
    reveal_strlit("id");
    reveal_strlit("name");
    reveal_strlit("cloudwatch_logs_assume_role_arn");
}

/// Against a destination without the group and without the stream, delivery
/// creates the group, then looks for the stream, creates it, and writes the
/// forwarded events with no sequence token (or ends where none is left).
pub proof fn lemma_fresh_destination(
    p0: Pipeline,
    groups: Response,
    p1: Pipeline,
    q1: Request,
    p2: Pipeline,
    q2: Request,
    streams: Response,
    p3: Pipeline,
    q3: Request,
    p4: Pipeline,
    q4: Request,
)
    requires
        p0.stage == Stage::FindingGroup,
        lacks(groups, p0.log_group@),
        p0.steps_to(groups, p1, q1),
        p1.steps_to(Response::Done, p2, q2),
        lacks(streams, p0.log_stream@),
        p2.steps_to(streams, p3, q3),
        p3.steps_to(Response::Done, p4, q4),
    ensures
        q1 == (Request::CreateLogGroup { log_group: p0.log_group }),
        q2 == (Request::DescribeLogStreams { log_group: p0.log_group, prefix: p0.log_stream }),
        q3 == (Request::CreateLogStream { log_group: p0.log_group, log_stream: p0.log_stream }),
        forwarded(p0.events@).len() == 0 ==> q4 == Request::Finished(Ok(())),
        forwarded(p0.events@).len() > 0 ==> (q4 matches Request::PutLogEvents {
            log_group,
            log_stream,
            sequence_token,
            events,
        } && log_group == p0.log_group && log_stream == p0.log_stream && sequence_token is None
            && events@ == forwarded(p0.events@)),
{
}

/// Where the stream exists with the sequence token `token`, the batch write
/// carries exactly `token`; it is made whenever an event is left to forward.
pub proof fn lemma_existing_stream_token(
    p: Pipeline,
    listing: Vec<LogResource>,
    token: Option<String>,
    next: Pipeline,
    req: Request,
)
    requires
        p.stage == Stage::FindingStream,
        lists_once(listing@, p.log_stream@, token),
        p.steps_to(Response::Listing(listing), next, req),
    ensures
        req is PutLogEvents <==> forwarded(p.events@).len() > 0,
        req matches Request::PutLogEvents { sequence_token, .. } ==> sequence_token == token,
{
    let i = choose|i: int|
        0 <= i < listing@.len() && is_named(#[trigger] listing@[i], p.log_stream@)
            && listing@[i].sequence_token == token;
    lemma_find_named_unique(listing@, p.log_stream@, i);
}

/// Against a destination whose group and stream exist, ensuring them asks
/// for no creation: the group listing leads to the stream listing, and that
/// leads to the write or the end of the run.
pub proof fn lemma_existing_destination_creates_nothing(
    p0: Pipeline,
    groups: Vec<LogResource>,
    group_token: Option<String>,
    p1: Pipeline,
    q1: Request,
    streams: Vec<LogResource>,
    token: Option<String>,
    p2: Pipeline,
    q2: Request,
)
    requires
        p0.stage == Stage::FindingGroup,
        lists_once(groups@, p0.log_group@, group_token),
        p0.steps_to(Response::Listing(groups), p1, q1),
        lists_once(streams@, p0.log_stream@, token),
        p1.steps_to(Response::Listing(streams), p2, q2),
    ensures
        q1 == (Request::DescribeLogStreams { log_group: p0.log_group, prefix: p0.log_stream }),
        q2 is PutLogEvents || q2 == Request::Finished(Ok(())),
{
    let i = choose|i: int|
        0 <= i < groups@.len() && is_named(#[trigger] groups@[i], p0.log_group@)
            && groups@[i].sequence_token == group_token;
    lemma_find_named_unique(groups@, p0.log_group@, i);
    let j = choose|j: int|
        0 <= j < streams@.len() && is_named(#[trigger] streams@[j], p0.log_stream@)
            && streams@[j].sequence_token == token;
    lemma_find_named_unique(streams@, p0.log_stream@, j);
}

} // verus!
