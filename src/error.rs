use vstd::prelude::*;

verus! {

/// The ways in which forwarding one batch of log events can fail.
///
/// Errors of the remote services carry the service's own message, so that
/// the cause is kept for diagnostics.
#[derive(Clone, Debug, PartialEq, Eq)]
pub enum RuntimeError {
    /// The lookup table holds no record for the function (tenant) id.
    MissingFunction(String),
    /// The role assumption call failed.
    AssumeRoleFailure(String),
    /// The role assumption succeeded but returned no usable key pair.
    MissingCredentials,
    /// A call to the destination log service failed.
    CloudWatchLogs(String),
    /// The tenant's record lacks the named field, or holds it as a non-string.
    MissingField(String),
    /// The call to the lookup table failed.
    DynamoDB(String),
}

/// Why an inbound payload could not be decoded.
#[derive(Clone, Debug, PartialEq, Eq)]
pub enum PayloadError {
    /// The payload is not valid base64; the decoder's message.
    Base64(String),
    /// The decoded bytes are not a valid gzip stream.
    Gzip,
}

} // verus!
