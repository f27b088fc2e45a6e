use vstd::prelude::*;

use crate::cloudwatch_logs::{
    events_to_send, find_exact, find_named, forwarded, LogResource, OutputEvent,
};
use crate::error::RuntimeError;
use crate::event::{last_segment, LogData, LogEntry};
use crate::function_info::{item_read_as, string_attr, AttributeValue, FunctionInfo};
use crate::sts::{usable_credentials, RoleCredentials, TemporaryCredentials};

verus! {

/// Where a forwarding run stands: which answer it waits for.
#[derive(Clone, Copy, Debug, PartialEq, Eq)]
pub enum Stage {
    /// Waits for the function's item in the lookup table.
    ResolvingFunction,
    /// Waits for the role assumption.
    AssumingRole,
    /// Waits for the destination client built from the credentials.
    OpeningDestination,
    /// Waits for the listing of log groups under the destination group's name.
    FindingGroup,
    /// Waits for the creation of the destination group.
    CreatingGroup,
    /// Waits for the listing of log streams under the stream's name.
    FindingStream,
    /// Waits for the creation of the destination stream.
    CreatingStream,
    /// Waits for the batch write.
    Sending,
    /// The run is over; nothing more is asked.
    Done,
}

/// The remote call that a run asks its driver to make next, or its outcome.
#[derive(Debug, PartialEq)]
pub enum Request {
    /// Read the item with primary key `id` from the lookup table.
    GetFunctionInfo { id: String },
    /// Assume `role_arn` under the session name `session_name`.
    AssumeRole { role_arn: String, session_name: String },
    /// Build the destination client from these credentials, for the rest of
    /// this run only.
    OpenDestination { credentials: TemporaryCredentials },
    /// List the log groups whose name starts with `prefix`.
    DescribeLogGroups { prefix: String },
    /// Create the log group `log_group`.
    CreateLogGroup { log_group: String },
    /// List the streams of `log_group` whose name starts with `prefix`.
    DescribeLogStreams { log_group: String, prefix: String },
    /// Create the stream `log_stream` in `log_group`.
    CreateLogStream { log_group: String, log_stream: String },
    /// Write `events`, in order, to the stream, with its sequence token.
    PutLogEvents {
        log_group: String,
        log_stream: String,
        sequence_token: Option<String>,
        events: Vec<OutputEvent>,
    },
    /// The run is over, with this outcome.
    Finished(Result<(), RuntimeError>),
}

/// The answer to the last request, as the driver observed it.
#[derive(Debug, PartialEq)]
pub enum Response {
    /// The lookup table answered, with the item or without one.
    Item(Option<Vec<(String, AttributeValue)>>),
    /// The role assumption succeeded, with these credentials (if any).
    Credentials(Option<RoleCredentials>),
    /// The destination client is built.
    Opened,
    /// A describe call listed these groups or streams.
    Listing(Vec<LogResource>),
    /// A create call or the batch write succeeded.
    Done,
    /// The log service answered that a resource does not exist; its message.
    NotFound(String),
    /// The call failed; the service's message.
    Failed(String),
}

/// One forwarding run of a batch: the state between two remote calls.
#[derive(Debug)]
pub struct Pipeline {
    pub stage: Stage,
    /// The id of the function whose logs are forwarded.
    pub function_id: String,
    /// The session name for the role assumption: the inbound request's id.
    pub session_id: String,
    /// The prefix of destination group names.
    pub prefix: String,
    /// The stream of the batch, which is also the destination stream.
    pub log_stream: String,
    /// The entries of the batch, in order.
    pub events: Vec<LogEntry>,
    /// The destination group, once the function is resolved.
    pub log_group: String,
}

impl Pipeline {
    /// The answers that the run accepts in its current stage.
    pub open spec fn expects(self, resp: Response) -> bool {
        match self.stage {
            Stage::ResolvingFunction => resp is Item || resp is Failed,
            Stage::AssumingRole => resp is Credentials || resp is Failed,
            Stage::OpeningDestination => resp is Opened,
            Stage::FindingGroup | Stage::FindingStream => resp is Listing || resp is NotFound
                || resp is Failed,
            Stage::CreatingGroup | Stage::CreatingStream | Stage::Sending => resp is Done
                || resp is NotFound || resp is Failed,
            Stage::Done => false,
        }
    }

    /// `next` is this run in `stage`, all else unchanged.
    pub open spec fn moves_to(self, stage: Stage, next: Pipeline) -> bool {
        next == Pipeline { stage, ..self }
    }

    /// The run ends with the error `e`.
    pub open spec fn fails_with(self, e: RuntimeError, next: Pipeline, req: Request) -> bool {
        self.moves_to(Stage::Done, next) && req == Request::Finished(Err(e))
    }

    /// With the destination stream ready and its token `token`: the batch
    /// write of the forwarded events, or the end of the run where none is left.
    pub open spec fn sends(self, token: Option<String>, next: Pipeline, req: Request) -> bool {
        if forwarded(self.events@).len() == 0 {
            self.moves_to(Stage::Done, next) && req == Request::Finished(Ok(()))
        } else {
            &&& self.moves_to(Stage::Sending, next)
            &&& req matches Request::PutLogEvents { log_group, log_stream, sequence_token, events }
            &&& log_group == self.log_group
            &&& log_stream == self.log_stream
            &&& sequence_token == token
            &&& events@ == forwarded(self.events@)
        }
    }

    /// The stream is found missing: create it.
    pub open spec fn creates_stream(self, next: Pipeline, req: Request) -> bool {
        self.moves_to(Stage::CreatingStream, next) && req == Request::CreateLogStream {
            log_group: self.log_group,
            log_stream: self.log_stream,
        }
    }

    /// The group is ready: look for the stream.
    pub open spec fn finds_stream(self, next: Pipeline, req: Request) -> bool {
        self.moves_to(Stage::FindingStream, next) && req == Request::DescribeLogStreams {
            log_group: self.log_group,
            prefix: self.log_stream,
        }
    }

    /// The group is found missing: create it.
    pub open spec fn creates_group(self, next: Pipeline, req: Request) -> bool {
        self.moves_to(Stage::CreatingGroup, next) && req == Request::CreateLogGroup {
            log_group: self.log_group,
        }
    }

    /// Answering `resp` moves the run to `next`, which asks `req`.
    pub open spec fn steps_to(self, resp: Response, next: Pipeline, req: Request) -> bool {
        match (self.stage, resp) {
            (Stage::ResolvingFunction, Response::Item(None)) => self.fails_with(
                RuntimeError::MissingFunction(self.function_id),
                next,
                req,
            ),
            (Stage::ResolvingFunction, Response::Item(Some(item))) => match (
                string_attr(item@, "id"@),
                string_attr(item@, "name"@),
                string_attr(item@, "cloudwatch_logs_assume_role_arn"@),
            ) {
                (Some(_), Some(name), Some(arn)) => {
                    &&& next == Pipeline { stage: Stage::AssumingRole, log_group: next.log_group, ..self }
                    &&& next.log_group@ == self.prefix@ + name@
                    &&& req == Request::AssumeRole { role_arn: arn, session_name: self.session_id }
                },
                _ => {
                    &&& self.moves_to(Stage::Done, next)
                    &&& req matches Request::Finished(Err(e))
                    &&& item_read_as(item@, Err(e))
                },
            },
            (Stage::ResolvingFunction, Response::Failed(m)) => self.fails_with(
                RuntimeError::DynamoDB(m),
                next,
                req,
            ),
            (Stage::AssumingRole, Response::Credentials(c)) => match usable_credentials(c) {
                Some(credentials) => self.moves_to(Stage::OpeningDestination, next) && req
                    == Request::OpenDestination { credentials },
                None => self.fails_with(RuntimeError::MissingCredentials, next, req),
            },
            (Stage::AssumingRole, Response::Failed(m)) => self.fails_with(
                RuntimeError::AssumeRoleFailure(m),
                next,
                req,
            ),
            (Stage::OpeningDestination, Response::Opened) => self.moves_to(
                Stage::FindingGroup,
                next,
            ) && req == Request::DescribeLogGroups { prefix: self.log_group },
            (Stage::FindingGroup, Response::Listing(listing)) => if find_named(
                listing@,
                self.log_group@,
            ) is Some {
                self.finds_stream(next, req)
            } else {
                self.creates_group(next, req)
            },
            (Stage::FindingGroup, Response::NotFound(_)) => self.creates_group(next, req),
            (Stage::CreatingGroup, Response::Done) => self.finds_stream(next, req),
            (Stage::FindingStream, Response::Listing(listing)) => match find_named(
                listing@,
                self.log_stream@,
            ) {
                Some(stream) => self.sends(stream.sequence_token, next, req),
                None => self.creates_stream(next, req),
            },
            (Stage::FindingStream, Response::NotFound(_)) => self.creates_stream(next, req),
            (Stage::CreatingStream, Response::Done) => self.sends(None, next, req),
            (Stage::Sending, Response::Done) => self.moves_to(Stage::Done, next) && req
                == Request::Finished(Ok(())),
            (_, Response::NotFound(m)) => self.fails_with(RuntimeError::CloudWatchLogs(m), next, req),
            (_, Response::Failed(m)) => self.fails_with(RuntimeError::CloudWatchLogs(m), next, req),
            _ => false,
        }
    }

    /// Whether the run accepts `resp` in its current stage.
    pub fn accepts(&self, resp: &Response) -> (r: bool)
        ensures
            r == self.expects(*resp),
    {
        match self.stage {
            Stage::ResolvingFunction => matches!(resp, Response::Item(_) | Response::Failed(_)),
            Stage::AssumingRole => matches!(resp, Response::Credentials(_) | Response::Failed(_)),
            Stage::OpeningDestination => matches!(resp, Response::Opened),
            Stage::FindingGroup | Stage::FindingStream => matches!(
                resp,
                Response::Listing(_) | Response::NotFound(_) | Response::Failed(_)
            ),
            Stage::CreatingGroup | Stage::CreatingStream | Stage::Sending => matches!(
                resp,
                Response::Done | Response::NotFound(_) | Response::Failed(_)
            ),
            Stage::Done => false,
        }
    }

    fn finish(&mut self, e: RuntimeError) -> (req: Request)
        ensures
            old(self).fails_with(e, *final(self), req),
    {
        self.stage = Stage::Done;
        Request::Finished(Err(e))
    }

    fn create_group(&mut self) -> (req: Request)
        ensures
            old(self).creates_group(*final(self), req),
    {
        self.stage = Stage::CreatingGroup;
        Request::CreateLogGroup { log_group: self.log_group.clone() }
    }

    fn find_stream(&mut self) -> (req: Request)
        ensures
            old(self).finds_stream(*final(self), req),
    {
        self.stage = Stage::FindingStream;
        Request::DescribeLogStreams {
            log_group: self.log_group.clone(),
            prefix: self.log_stream.clone(),
        }
    }

    fn create_stream(&mut self) -> (req: Request)
        ensures
            old(self).creates_stream(*final(self), req),
    {
        self.stage = Stage::CreatingStream;
        Request::CreateLogStream {
            log_group: self.log_group.clone(),
            log_stream: self.log_stream.clone(),
        }
    }

    fn send(&mut self, token: Option<String>) -> (req: Request)
        ensures
            old(self).sends(token, *final(self), req),
    {
        let events = events_to_send(&self.events);
        if events.len() == 0 {
            self.stage = Stage::Done;
            Request::Finished(Ok(()))
        } else {
            self.stage = Stage::Sending;
            Request::PutLogEvents {
                log_group: self.log_group.clone(),
                log_stream: self.log_stream.clone(),
                sequence_token: token,
                events,
            }
        }
    }

    fn resolve_function(&mut self, item: Vec<(String, AttributeValue)>) -> (req: Request)
        requires
            old(self).stage == Stage::ResolvingFunction,
        ensures
            old(self).steps_to(Response::Item(Some(item)), *final(self), req),
    {
        match FunctionInfo::from_item(&item) {
            Err(e) => self.finish(e),
            Ok(info) => {
                let mut log_group = self.prefix.clone();
                log_group.append(info.name.as_str());
                self.log_group = log_group;
                self.stage = Stage::AssumingRole;
                Request::AssumeRole {
                    role_arn: info.cloudwatch_logs_assume_role_arn,
                    session_name: self.session_id.clone(),
                }
            },
        }
    }

    fn use_credentials(&mut self, creds: Option<RoleCredentials>) -> (req: Request)
        requires
            old(self).stage == Stage::AssumingRole,
        ensures
            old(self).steps_to(Response::Credentials(creds), *final(self), req),
    {
        match TemporaryCredentials::from_assumed_role(creds) {
            Ok(credentials) => {
                self.stage = Stage::OpeningDestination;
                Request::OpenDestination { credentials }
            },
            Err(e) => self.finish(e),
        }
    }

    /// Takes the answer to the last request and returns the next request.
    pub fn step(&mut self, resp: Response) -> (req: Request)
        requires
            old(self).expects(resp),
        ensures
            old(self).steps_to(resp, *final(self), req),
    {
        match (self.stage, resp) {
            (Stage::ResolvingFunction, Response::Item(None)) => {
                let id = self.function_id.clone();
                self.finish(RuntimeError::MissingFunction(id))
            },
            (Stage::ResolvingFunction, Response::Item(Some(item))) => self.resolve_function(item),
            (Stage::ResolvingFunction, Response::Failed(m)) => self.finish(
                RuntimeError::DynamoDB(m),
            ),
            (Stage::AssumingRole, Response::Credentials(c)) => self.use_credentials(c),
            (Stage::AssumingRole, Response::Failed(m)) => self.finish(
                RuntimeError::AssumeRoleFailure(m),
            ),
            (Stage::OpeningDestination, _) => {
                self.stage = Stage::FindingGroup;
                Request::DescribeLogGroups { prefix: self.log_group.clone() }
            },
            (Stage::FindingGroup, Response::Listing(listing)) => {
                if find_exact(&listing, &self.log_group).is_some() {
                    self.find_stream()
                } else {
                    self.create_group()
                }
            },
            (Stage::FindingGroup, Response::NotFound(_)) => self.create_group(),
            (Stage::CreatingGroup, Response::Done) => self.find_stream(),
            (Stage::FindingStream, Response::Listing(listing)) => {
                match find_exact(&listing, &self.log_stream) {
                    Some(i) => {
                        let token = listing[i].sequence_token.clone();
                        self.send(token)
                    },
                    None => self.create_stream(),
                }
            },
            (Stage::FindingStream, Response::NotFound(_)) => self.create_stream(),
            (Stage::CreatingStream, Response::Done) => self.send(None),
            (Stage::Sending, Response::Done) => {
                self.stage = Stage::Done;
                Request::Finished(Ok(()))
            },
            (_, Response::NotFound(m)) => self.finish(RuntimeError::CloudWatchLogs(m)),
            (_, Response::Failed(m)) => self.finish(RuntimeError::CloudWatchLogs(m)),
            (_, _) => Request::Finished(Ok(())),
        }
    }
}

/// Starts forwarding the batch `data`, received with the request id
/// `session_id`, to a destination group named `prefix` followed by the
/// owning function's name. Returns the run and its first request: the
/// lookup of the function, whose id is the last segment of the batch's log
/// group.
pub fn handle_logs(data: LogData, session_id: String, prefix: String) -> (r: (Pipeline, Request))
    ensures
        r.0.stage == Stage::ResolvingFunction,
        r.0.function_id@ == last_segment(data.log_group@),
        r.0.session_id == session_id,
        r.0.prefix == prefix,
        r.0.log_stream == data.log_stream,
        r.0.events == data.log_events,
        r.0.log_group@ == Seq::<char>::empty(),
        r.1 == (Request::GetFunctionInfo { id: r.0.function_id }),
{
    let function_id = data.function_id();
    let id = function_id.clone();
    let pipeline = Pipeline {
        stage: Stage::ResolvingFunction,
        function_id,
        session_id,
        prefix,
        log_stream: data.log_stream,
        events: data.log_events,
        log_group: String::new(),
    };
    (pipeline, Request::GetFunctionInfo { id })
}

} // verus!
