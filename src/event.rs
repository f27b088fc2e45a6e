use vstd::prelude::*;

use crate::codec::{base64_decode, base64_decoded, gunzip, gunzipped};
use crate::error::PayloadError;

verus! {

/// The raw event sent by the log subscription.
#[derive(Clone, Debug, Default, PartialEq)]
pub struct LogsEvent {
    /// The batch, decoded from its base64 gzipped form.
    pub aws_logs: AwsLogs,
}

/// A log subscription batch once it is base64 decoded and decompressed.
#[derive(Clone, Debug, Default, PartialEq)]
pub struct AwsLogs {
    /// The log data after it is decompressed.
    pub data: LogData,
}

/// The log group event information of one batch.
#[derive(Clone, Debug, Default, PartialEq)]
pub struct LogData {
    /// Owner of the log event.
    pub owner: String,
    /// Log group where the event was published.
    pub log_group: String,
    /// Log stream where the event was published.
    pub log_stream: String,
    /// Filters applied to the event.
    pub subscription_filters: Vec<String>,
    /// Type of event.
    pub message_type: String,
    /// Entries in the log batch, in the order in which they were published.
    pub log_events: Vec<LogEntry>,
}

/// One entry of a log batch.
#[derive(Clone, Debug, Default, PartialEq)]
pub struct LogEntry {
    /// Unique id for the entry.
    pub id: String,
    /// Time when the event was published, in milliseconds since the epoch.
    pub timestamp: i64,
    /// Message published in the application log.
    pub message: String,
}

/// The JSON text of a batch, from the base64 text of its gzipped form.
pub open spec fn decoded_payload(encoded: Seq<char>) -> Result<Seq<u8>, ()> {
    match base64_decoded(encoded) {
        None => Err(()),
        Some(compressed) => match gunzipped(compressed) {
            None => Err(()),
            Some(json) => Ok(json),
        },
    }
}

/// Position just after the last `/` of `s`, or 0 where `s` holds none.
pub open spec fn segment_start(s: Seq<char>) -> nat
    decreases s.len(),
{
    if s.len() == 0 {
        0
    } else if s.last() == '/' {
        s.len()
    } else {
        segment_start(s.drop_last())
    }
}

/// The last `/`-separated segment of `s`: all of `s` where it holds no `/`.
pub open spec fn last_segment(s: Seq<char>) -> Seq<char> {
    s.subrange(segment_start(s) as int, s.len() as int)
}

proof fn lemma_segment_start_bound(s: Seq<char>)
    ensures
        segment_start(s) <= s.len(),
    decreases s.len(),
{
    if s.len() > 0 {
        lemma_segment_start_bound(s.drop_last());
    }
}

impl AwsLogs {
    /// Turns the `data` field of an inbound event (base64 text of a gzip
    /// stream) into the JSON text of the batch.
    ///
    /// Fails with `Base64` where the text is not base64, and with `Gzip`
    /// where the decoded bytes are not a gzip stream.
    pub fn decode_data(encoded: &str) -> (r: Result<Vec<u8>, PayloadError>)
        ensures
            decoded_payload(encoded@) is Err <==> r is Err,
            r matches Ok(json) ==> decoded_payload(encoded@) == Ok::<Seq<u8>, ()>(json@),
            r matches Err(e) ==> (e is Base64 <==> base64_decoded(encoded@) is None),
    {
        match base64_decode(encoded) {
            Err(e) => Err(PayloadError::Base64(e.to_string())),
            Ok(compressed) => match gunzip(compressed.as_slice()) {
                None => Err(PayloadError::Gzip),
                Some(json) => Ok(json),
            },
        }
    }
}

impl LogData {
    /// The id of the function that published the batch: the last segment of
    /// its log group (`/aws/lambda/<id>`).
    pub fn function_id(&self) -> (r: String)
        ensures
            r@ == last_segment(self.log_group@),
    {
        let group = self.log_group.as_str();
        let n = group.unicode_len();
        let mut start: usize = 0;
        let mut i: usize = 0;
        while i < n
            invariant
                n == group@.len(),
                group@ == self.log_group@,
                i <= n,
                start == segment_start(group@.subrange(0, i as int)),
            decreases n - i,
        {
            let c = group.get_char(i);
            proof {
                let prefix = group@.subrange(0, i as int + 1);
                assert(prefix.drop_last() == group@.subrange(0, i as int));
                assert(prefix.last() == c);
            }
            if c == '/' {
                start = i + 1;
            }
            i = i + 1;
        }
        proof {
            assert(group@.subrange(0, n as int) == group@);
            lemma_segment_start_bound(group@);
        }
        group.substring_char(start, n).to_owned()
    }
}

} // verus!
