//! Fetching over HTTP with bounded retry. The request itself is made by the
//! caller; what to do with the outcome of each attempt is decided here.
use crate::retry::{lemma_retry_bound, Retry, RetryStep, RETRY_DELAY_SECS};
use vstd::prelude::*;

verus! {

/// How often the fetch of a feed document is retried.
pub const FEED_RETRIES: u32 = 3;

/// How often the fetch of an item's resource is retried.
pub const RESOURCE_RETRIES: u32 = 1;

/// The HTTP status of an answer that carries what was asked for.
pub const HTTP_OK: u16 = 200;

/// The first HTTP status that reports an error of the client.
pub const HTTP_CLIENT_ERROR: u16 = 400;

/// The last HTTP status that reports an error of the server.
pub const HTTP_LAST_ERROR: u16 = 599;

/// The length that an encoder of base64 may not reach.
pub const BASE64_LIMIT: usize = 0x7fff_ffff;

/// An answer of a server, read to its end.
#[derive(Clone, Debug, PartialEq)]
pub struct HttpResponse {
    pub status: u16,
    pub body: Vec<u8>,
}

/// Every attempt to fetch `url` failed.
#[derive(Clone, Debug, PartialEq)]
pub struct FetchError {
    pub url: String,
}

/// What follows an attempt to fetch.
#[derive(Clone, Debug, PartialEq)]
pub enum FetchStep {
    /// The attempt brought an answer: the fetch is over.
    Deliver(HttpResponse),
    /// The attempt failed: wait `secs` seconds, then make another.
    Wait { secs: u64 },
    /// The attempt failed and none is left: the fetch has failed.
    Fail(FetchError),
}

/// Whether `step`, with the account `later`, is what follows an attempt to
/// fetch `url` under the account `retry`, where `attempt` is the answer that
/// the attempt brought, if it brought one.
pub open spec fn follows_attempt(
    url: Seq<char>,
    retry: Retry,
    attempt: Option<HttpResponse>,
    later: Retry,
    step: FetchStep,
) -> bool {
    match attempt {
        Some(response) => later == retry && step == FetchStep::Deliver(response),
        None => later == retry.after_failure().0 && match retry.after_failure().1 {
            RetryStep::Wait { secs } => step == (FetchStep::Wait { secs }),
            RetryStep::GiveUp => step matches FetchStep::Fail(e) && e.url@ == url,
        },
    }
}

/// Decides what follows one attempt to fetch `url`. An attempt that brought
/// an answer ends the fetch, whatever the status of the answer. A failed
/// attempt is recorded in `retry` and answered with a wait, or, once the
/// retries are used up, with the failure of the fetch.
pub fn get_with_retry(url: &str, retry: &mut Retry, attempt: Option<HttpResponse>) -> (step:
    FetchStep)
    ensures
        follows_attempt(url@, *old(retry), attempt, *final(retry), step),
{
    match attempt {
        Some(response) => FetchStep::Deliver(response),
        None => match retry.failed() {
            RetryStep::Wait { secs } => FetchStep::Wait { secs },
            RetryStep::GiveUp => FetchStep::Fail(FetchError { url: url.to_owned() }),
        },
    }
}

/// The length of the base64 text of `n` bytes: four characters for every
/// three bytes, the last group padded.
pub open spec fn base64_len(n: nat) -> nat {
    (n / 3) * 4 + if n % 3 != 0 {
        4nat
    } else {
        0nat
    }
}

/// The base64 text of `bytes`, as `openssl::base64::encode_block` gives it.
pub uninterp spec fn base64_text(bytes: Seq<u8>) -> Seq<char>;

/// `openssl::base64::encode_block`: the base64 text of `bytes`, which
/// depends on the bytes alone and has four characters for every three bytes,
/// the last group padded. The function panics when the length of the text,
/// with one more byte for a terminator, does not fit a C `int`; such input
/// is left out.
#[verifier::external_body]
fn encode_block(bytes: &[u8]) -> (text: String)
    requires
        base64_len(bytes@.len()) < BASE64_LIMIT,
    ensures
        text@ == base64_text(bytes@),
        text@.len() == base64_len(bytes@.len()),
{
    openssl::base64::encode_block(bytes)
}

/// Why the content of a torrent file could not be had as text.
#[derive(Clone, Debug, PartialEq)]
pub enum MetainfoError {
    /// The server at `url` answered with an error status.
    Status { url: String, status: u16 },
    /// The file is too large to be encoded.
    TooLarge { url: String },
}

/// Whether `status` reports an error of the client or of the server.
pub open spec fn is_error_status(status: u16) -> bool {
    HTTP_CLIENT_ERROR <= status <= HTTP_LAST_ERROR
}

/// The content of the torrent file that was fetched from `url`, as base64
/// text, for a backend that cannot fetch the file itself. An answer with an
/// error status has no content to encode.
pub fn get_metainfo(url: &str, response: &HttpResponse) -> (r: Result<String, MetainfoError>)
    ensures
        match r {
            Ok(text) => !is_error_status(response.status) && base64_len(response.body@.len())
                < BASE64_LIMIT && text@ == base64_text(response.body@) && text@.len()
                == base64_len(response.body@.len()),
            Err(MetainfoError::Status { url: at, status }) => is_error_status(response.status)
                && at@ == url@ && status == response.status,
            Err(MetainfoError::TooLarge { url: at }) => !is_error_status(response.status)
                && base64_len(response.body@.len()) >= BASE64_LIMIT && at@ == url@,
        },
{
    if HTTP_CLIENT_ERROR <= response.status && response.status <= HTTP_LAST_ERROR {
        return Err(MetainfoError::Status { url: url.to_owned(), status: response.status });
    }
    let n = response.body.len();
    if n >= BASE64_LIMIT {
        return Err(MetainfoError::TooLarge { url: url.to_owned() });
    }
    let padding: usize = if n % 3 != 0 {
        4
    } else {
        0
    };
    if (n / 3) * 4 + padding >= BASE64_LIMIT {
        return Err(MetainfoError::TooLarge { url: url.to_owned() });
    }
    Ok(encode_block(response.body.as_slice()))
}

/// A fetch of which every attempt fails makes exactly `retries + 1` attempts:
/// each of the first `retries` failures is answered with a wait of the fixed
/// delay, and the next with the failure of the fetch.
pub proof fn lemma_fetch_gives_up(url: Seq<char>, retries: u32, k: nat, later: Retry, step: FetchStep)
    requires
        follows_attempt(url, (Retry { retries, failures: 0 }).after_failures(k), None, later, step),
    ensures
        later == (Retry { retries, failures: 0 }).after_failures(k + 1),
        k < retries ==> step == (FetchStep::Wait { secs: RETRY_DELAY_SECS }),
        k >= retries ==> (step matches FetchStep::Fail(e) && e.url@ == url),
{
    lemma_retry_bound(retries, k + 1);
}

} // verus!
