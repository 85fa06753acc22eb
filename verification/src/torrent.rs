//! Resolved items: what a fetched torrent file says of the resource it
//! describes.
use crate::bencode::{nesting, nesting_of, MAX_NESTING};
use crate::fetch::{FetchError, HttpResponse, HTTP_OK};
use vstd::prelude::*;

verus! {

/// What a torrent file says of its torrent.
#[derive(Debug, PartialEq)]
pub struct Decoded {
    /// The info hash of the torrent, in hexadecimal.
    pub info_hash: String,
    /// The magnet link of the torrent, or the text of the error where none
    /// can be built for it.
    pub magnet_link: Result<String, String>,
}

/// What a torrent file says of its torrent, as plain text.
pub struct DecodedView {
    pub info_hash: Seq<char>,
    pub magnet_link: Result<Seq<char>, Seq<char>>,
}

impl View for Decoded {
    type V = DecodedView;

    open spec fn view(&self) -> DecodedView {
        DecodedView {
            info_hash: self.info_hash@,
            magnet_link: match self.magnet_link {
                Ok(link) => Ok(link@),
                Err(text) => Err(text@),
            },
        }
    }
}

/// What `lava_torrent` makes of the bytes of a torrent file: the info hash of
/// the torrent and its magnet link, or the text of the error where the bytes
/// are no torrent that it accepts.
pub uninterp spec fn decoded_torrent(bytes: Seq<u8>) -> Result<DecodedView, Seq<char>>;

/// `Torrent::read_from_bytes` of `lava_torrent` on `bytes`, then
/// `Torrent::info_hash` and `Torrent::magnet_link` of what was read. The
/// result depends on the bytes alone. Each error is handed on as its
/// `Display` text, that of the reading in place of the whole result, that of
/// the magnet link in its place. The reader calls itself for every list and
/// dictionary inside another and would run out of stack on data that is
/// nested without end: such data is left out.
#[verifier::external_body]
fn decode_torrent(bytes: &[u8]) -> (r: Result<Decoded, String>)
    requires
        nesting(bytes@) <= MAX_NESTING,
    ensures
        match r {
            Ok(decoded) => decoded_torrent(bytes@) == Ok::<DecodedView, Seq<char>>(decoded@),
            Err(message) => decoded_torrent(bytes@) == Err::<DecodedView, Seq<char>>(message@),
        },
{
    let torrent = lava_torrent::torrent::v1::Torrent::read_from_bytes(bytes).map_err(
        |e| e.to_string(),
    )?;
    let magnet_link = torrent.magnet_link().map_err(|e| e.to_string());
    Ok(Decoded { info_hash: torrent.info_hash(), magnet_link })
}

/// Why an item of a feed could not be resolved. It concerns that item alone.
#[derive(Clone, Debug, PartialEq)]
pub enum ResolveError {
    /// The torrent file could not be fetched.
    Fetch { url: String },
    /// The server answered with a status other than 200.
    Status { url: String, status: u16 },
    /// What the server sent is nested deeper than any torrent file.
    TooDeep { url: String },
    /// What the server sent is no torrent file.
    Malformed { reason: String },
    /// The torrent file was read, and no magnet link can be built for its
    /// torrent, so that there is nothing to submit.
    NoMagnetLink { reason: String },
}

impl ResolveError {
    /// A copy of this error.
    pub fn copy(&self) -> (error: ResolveError)
        ensures
            error == *self,
    {
        match self {
            ResolveError::Fetch { url } => ResolveError::Fetch { url: url.clone() },
            ResolveError::Status { url, status } => ResolveError::Status {
                url: url.clone(),
                status: *status,
            },
            ResolveError::TooDeep { url } => ResolveError::TooDeep { url: url.clone() },
            ResolveError::Malformed { reason } => ResolveError::Malformed {
                reason: reason.clone(),
            },
            ResolveError::NoMagnetLink { reason } => ResolveError::NoMagnetLink {
                reason: reason.clone(),
            },
        }
    }
}

/// An item of a feed whose torrent file was fetched and read.
#[derive(Clone, Debug, PartialEq)]
pub struct TorrentItem {
    pub title: String,
    /// The fingerprint by which the resource is known: the info hash of the
    /// torrent, in hexadecimal.
    pub info_hash: String,
    /// The reference under which the resource is submitted to the backend.
    pub magnet_link: String,
}

/// A resolved item as plain text.
pub struct TorrentView {
    pub title: Seq<char>,
    pub info_hash: Seq<char>,
    pub magnet_link: Seq<char>,
}

impl View for TorrentItem {
    type V = TorrentView;

    open spec fn view(&self) -> TorrentView {
        TorrentView {
            title: self.title@,
            info_hash: self.info_hash@,
            magnet_link: self.magnet_link@,
        }
    }
}

/// What the fetch of the torrent file at `url` makes of the item titled
/// `title`, `decoded` being what the body of the answer decodes to.
pub open spec fn resolved(
    url: String,
    title: String,
    fetched: Result<HttpResponse, FetchError>,
    decoded: Result<DecodedView, Seq<char>>,
    r: Result<TorrentItem, ResolveError>,
) -> bool {
    match fetched {
        Err(_) => r == Err::<TorrentItem, ResolveError>(ResolveError::Fetch { url }),
        Ok(response) => if response.status != HTTP_OK {
            r == Err::<TorrentItem, ResolveError>(
                ResolveError::Status { url, status: response.status },
            )
        } else if nesting(response.body@) > MAX_NESTING {
            r == Err::<TorrentItem, ResolveError>(ResolveError::TooDeep { url })
        } else {
            match decoded {
                Ok(torrent) => match torrent.magnet_link {
                    Ok(magnet_link) => r matches Ok(item) && item.title == title
                        && item.info_hash@ == torrent.info_hash && item.magnet_link@
                        == magnet_link,
                    Err(text) => r matches Err(ResolveError::NoMagnetLink { reason }) && reason@
                        == text,
                },
                Err(message) => r matches Err(ResolveError::Malformed { reason }) && reason@
                    == message,
            }
        },
    }
}

/// The fingerprint goes by the content: where the same answer was fetched
/// under two links for items of two titles, both items resolve or neither
/// does, and two that resolve have the same fingerprint and the same magnet
/// link.
pub proof fn lemma_fingerprint_goes_by_the_content(
    url: String,
    title: String,
    other_url: String,
    other_title: String,
    fetched: Result<HttpResponse, FetchError>,
    decoded: Result<DecodedView, Seq<char>>,
    r: Result<TorrentItem, ResolveError>,
    other: Result<TorrentItem, ResolveError>,
)
    requires
        resolved(url, title, fetched, decoded, r),
        resolved(other_url, other_title, fetched, decoded, other),
    ensures
        r is Ok <==> other is Ok,
        r matches Ok(item) ==> (other matches Ok(same) && same.info_hash@ == item.info_hash@
            && same.magnet_link@ == item.magnet_link@),
{
}

/// The plain text of each item of `items`.
pub open spec fn views(items: Seq<TorrentItem>) -> Seq<TorrentView> {
    items.map_values(|item: TorrentItem| item@)
}

impl TorrentItem {
    /// A copy of this item.
    pub fn copy(&self) -> (item: TorrentItem)
        ensures
            item == *self,
    {
        TorrentItem {
            title: self.title.clone(),
            info_hash: self.info_hash.clone(),
            magnet_link: self.magnet_link.clone(),
        }
    }

    /// The item titled `title` whose torrent file was asked for at `url`,
    /// with `fetched` as the outcome. The item is resolved when the file was
    /// fetched with status 200, is nested no deeper than `MAX_NESTING` and
    /// decodes to a torrent for which a magnet link can be built; its
    /// fingerprint and its magnet link are then those of the torrent. Every
    /// other outcome is an error of this item.
    pub fn new(url: String, title: String, fetched: &Result<HttpResponse, FetchError>) -> (r: Result<
        TorrentItem,
        ResolveError,
    >)
        ensures
            match *fetched {
                Ok(response) => resolved(url, title, *fetched, decoded_torrent(response.body@), r),
                Err(_) => r == Err::<TorrentItem, ResolveError>(ResolveError::Fetch { url }),
            },
    {
        let decoded = match fetched {
            Ok(response) if response.status == HTTP_OK && nesting_of(response.body.as_slice())
                <= MAX_NESTING => Some(decode_torrent(response.body.as_slice())),
            _ => None,
        };
        Self::from_decoded(url, title, fetched, decoded)
    }

    /// As [`TorrentItem::new`], with `decoded` as what the body of the
    /// answer decodes to: what the torrent file says, or the text of the
    /// error. It is looked at only where the answer has status 200 and is
    /// not nested too deep, and is then taken for an undecodable body where
    /// it is missing.
    pub fn from_decoded(
        url: String,
        title: String,
        fetched: &Result<HttpResponse, FetchError>,
        decoded: Option<Result<Decoded, String>>,
    ) -> (r: Result<TorrentItem, ResolveError>)
        ensures
            resolved(
                url,
                title,
                *fetched,
                match decoded {
                    Some(Ok(torrent)) => Ok(torrent@),
                    Some(Err(message)) => Err(message@),
                    None => Err(Seq::empty()),
                },
                r,
            ),
    {
        match fetched {
            Err(_) => Err(ResolveError::Fetch { url }),
            Ok(response) => {
                if response.status != HTTP_OK {
                    Err(ResolveError::Status { url, status: response.status })
                } else if nesting_of(response.body.as_slice()) > MAX_NESTING {
                    Err(ResolveError::TooDeep { url })
                } else {
                    match decoded {
                        Some(Ok(torrent)) => match torrent.magnet_link {
                            Ok(magnet_link) => Ok(
                                TorrentItem { title, info_hash: torrent.info_hash, magnet_link },
                            ),
                            Err(reason) => Err(ResolveError::NoMagnetLink { reason }),
                        },
                        Some(Err(reason)) => Err(ResolveError::Malformed { reason }),
                        None => Err(ResolveError::Malformed { reason: String::new() }),
                    }
                }
            },
        }
    }
}

} // verus!
