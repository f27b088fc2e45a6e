use vstd::prelude::*;

use crate::error::RuntimeError;

verus! {

/// The credentials part of a role assumption's answer, each key as the
/// service returned it (possibly absent).
#[derive(Clone, Debug, PartialEq)]
pub struct RoleCredentials {
    pub access_key_id: Option<String>,
    pub secret_access_key: Option<String>,
    pub session_token: Option<String>,
}

/// Temporary credentials scoped to one forwarding run: a key pair, with the
/// session token that goes with it.
#[derive(Clone, Debug, PartialEq)]
pub struct TemporaryCredentials {
    pub access_key_id: String,
    pub secret_access_key: String,
    pub session_token: Option<String>,
}

/// The credentials in a role assumption's answer: present where the answer
/// holds both keys of the pair.
pub open spec fn usable_credentials(creds: Option<RoleCredentials>) -> Option<TemporaryCredentials> {
    match creds {
        Some(RoleCredentials { access_key_id: Some(id), secret_access_key: Some(key), session_token }) =>
            Some(TemporaryCredentials { access_key_id: id, secret_access_key: key, session_token }),
        _ => None,
    }
}

impl TemporaryCredentials {
    /// Checks the credentials returned by a successful role assumption: an
    /// answer without both keys is `MissingCredentials`.
    pub fn from_assumed_role(creds: Option<RoleCredentials>) -> (r: Result<TemporaryCredentials, RuntimeError>)
        ensures
            r == (match usable_credentials(creds) {
                Some(t) => Ok::<TemporaryCredentials, RuntimeError>(t),
                None => Err(RuntimeError::MissingCredentials),
            }),
    {
        match creds {
            Some(RoleCredentials { access_key_id: Some(id), secret_access_key: Some(key), session_token }) =>
                Ok(TemporaryCredentials { access_key_id: id, secret_access_key: key, session_token }),
            _ => Err(RuntimeError::MissingCredentials),
        }
    }
}

} // verus!
