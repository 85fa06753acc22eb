//! The download backend, as far as its answers are judged: what one call to
//! add a torrent came to, and where the backend is reached.
use crate::config::Config;
use crate::text::same_text;
use vstd::prelude::*;

verus! {

/// The `result` text with which the backend reports success.
pub const RPC_SUCCESS: &'static str = "success";

/// Where the backend is reached and how to log in.
#[derive(Clone, Debug, PartialEq)]
pub struct BackendAccess {
    pub url: String,
    pub basic_auth: BasicAuth,
}

/// The credentials with which the backend is logged in to.
#[derive(Clone, Debug, PartialEq)]
pub struct BasicAuth {
    pub user: String,
    pub password: String,
}

/// The arguments of the backend's answer to a call that adds a torrent.
#[derive(Clone, Debug, PartialEq)]
pub enum AddedOrDuplicate {
    /// The backend knew the torrent already.
    TorrentDuplicate { hash_string: Option<String> },
    /// The backend took the torrent.
    TorrentAdded { hash_string: Option<String> },
    /// The answer names no torrent.
    Error,
}

/// The backend's answer to a call that adds a torrent.
#[derive(Clone, Debug, PartialEq)]
pub struct RpcReply {
    pub result: String,
    pub arguments: AddedOrDuplicate,
}

/// Why a call to the backend came to nothing.
#[derive(Clone, Debug, PartialEq)]
pub enum RpcError {
    /// The call did not get through, or its answer could not be read. Another
    /// attempt may succeed.
    Transport(String),
    /// The backend answered and refused. Another attempt would be refused
    /// too.
    Rejected(String),
}

/// What became of the submission of one item.
#[derive(Clone, Debug, PartialEq)]
pub enum SubmissionOutcome {
    /// The backend took the resource; its fingerprint is given.
    Added(String),
    /// The backend knew the resource already; its fingerprint is given.
    Duplicate(String),
    /// The resource was not submitted, for the reason given.
    Failed(String),
}

/// What one call that adds a torrent came to, `reply` being the backend's
/// answer, or the text of the error with which the call failed.
pub open spec fn judged(reply: Result<RpcReply, String>) -> Result<SubmissionOutcome, RpcError> {
    match reply {
        Err(text) => Err(RpcError::Transport(text)),
        Ok(reply) => if reply.result@ != RPC_SUCCESS@ {
            Err(RpcError::Rejected(reply.result))
        } else {
            match reply.arguments {
                AddedOrDuplicate::TorrentAdded { hash_string: Some(hash) } => Ok(
                    SubmissionOutcome::Added(hash),
                ),
                AddedOrDuplicate::TorrentDuplicate { hash_string: Some(hash) } => Ok(
                    SubmissionOutcome::Duplicate(hash),
                ),
                _ => Err(RpcError::Rejected(reply.result)),
            }
        },
    }
}

/// Judges one call that adds a torrent. A call that failed is a transport
/// error. An answer whose result is not `success`, or that names no torrent
/// by its hash, is a rejection, with the result text as the reason. Else the
/// torrent was added, or was known already, under the hash that is named.
pub fn submission(reply: Result<RpcReply, String>) -> (r: Result<SubmissionOutcome, RpcError>)
    ensures
        r == judged(reply),
{
    match reply {
        Err(text) => Err(RpcError::Transport(text)),
        Ok(reply) => {
            if !same_text(reply.result.as_str(), RPC_SUCCESS) {
                Err(RpcError::Rejected(reply.result))
            } else {
                match reply.arguments {
                    AddedOrDuplicate::TorrentAdded { hash_string: Some(hash) } => Ok(
                        SubmissionOutcome::Added(hash),
                    ),
                    AddedOrDuplicate::TorrentDuplicate { hash_string: Some(hash) } => Ok(
                        SubmissionOutcome::Duplicate(hash),
                    ),
                    _ => Err(RpcError::Rejected(reply.result)),
                }
            }
        },
    }
}

/// Where the backend of `cfg` is reached, with the credentials to log in.
pub fn get_client(cfg: &Config) -> (access: BackendAccess)
    ensures
        access.url == cfg.transmission.url,
        access.basic_auth.user == cfg.transmission.username,
        access.basic_auth.password == cfg.transmission.password,
{
    let basic_auth = BasicAuth {
        user: cfg.transmission.username.clone(),
        password: cfg.transmission.password.clone(),
    };
    BackendAccess { url: cfg.transmission.url.clone(), basic_auth }
}

} // verus!
