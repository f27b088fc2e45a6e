//! Forwards a batch of log events, as delivered by a log subscription, to the
//! account of the tenant that produced them.
//!
//! The crate holds the logic of that forwarding: decoding the compressed batch,
//! reading the tenant's record, checking the temporary credentials, and the
//! protocol that finds or creates the destination log group and stream and
//! writes the filtered batch. The remote calls themselves are made by the
//! caller, which drives [`Pipeline`] one response at a time.

mod cloudwatch_logs;
mod codec;
mod error;
mod event;
mod function_info;
mod lemmas;
mod pipeline;
mod sts;

pub use error::{PayloadError, RuntimeError};
pub use event::{AwsLogs, LogData, LogEntry, LogsEvent};
pub use cloudwatch_logs::{events_to_send, find_exact, is_noise_message, LogResource, OutputEvent};
pub use function_info::{get_s, AttributeValue, FunctionInfo};
pub use pipeline::{handle_logs, Pipeline, Request, Response, Stage};
pub use sts::{RoleCredentials, TemporaryCredentials};
pub use lemmas::{
    lemma_existing_destination_creates_nothing, lemma_existing_stream_token,
    lemma_find_named_unique, lemma_forwarded_keeps_order, lemma_fresh_destination,
    lemma_missing_field_ends_run, lemma_unknown_function_ends_run,
};
