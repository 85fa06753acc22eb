//! Feed documents: the items of a parsed feed and the link under which an
//! item's resource is fetched.
use crate::markup::{nesting, nesting_of, MAX_NESTING};
use crate::text::same_text;
use vstd::prelude::*;

verus! {

/// The MIME type that marks an enclosure as a torrent file.
pub const TORRENT_MIME: &'static str = "application/x-bittorrent";

/// The enclosure of a feed item: a resource attached to it.
#[derive(Clone, Debug, PartialEq)]
pub struct Enclosure {
    pub url: String,
    pub mime_type: String,
}

/// One item of a feed document, as parsed.
#[derive(Clone, Debug, PartialEq)]
pub struct FeedItem {
    pub title: Option<String>,
    pub link: Option<String>,
    pub enclosure: Option<Enclosure>,
}

/// What `rss::Channel::read_from` makes of a document: the items of its
/// channel in document order, each reduced to title, link and enclosure, or
/// the text of the parse error.
pub uninterp spec fn parsed_feed(bytes: Seq<u8>) -> Result<Seq<FeedItem>, Seq<char>>;

/// `rss::Channel::read_from` on `bytes`. The items come in the order of the
/// channel's `items`; `title`, `link` and `enclosure` are copied from
/// `Item::title`, `Item::link` and `Item::enclosure` (`Enclosure::url`,
/// `Enclosure::mime_type`). An error is handed on as its `Display` text. The
/// reader calls itself for every element inside an extension element and
/// would run out of stack on a document that is nested without end: such a
/// document is left out.
#[verifier::external_body]
fn read_channel(bytes: &[u8]) -> (r: Result<Vec<FeedItem>, String>)
    requires
        nesting(bytes@) <= MAX_NESTING,
    ensures
        match r {
            Ok(items) => parsed_feed(bytes@) == Ok::<Seq<FeedItem>, Seq<char>>(items@),
            Err(message) => parsed_feed(bytes@) == Err::<Seq<FeedItem>, Seq<char>>(message@),
        },
{
    let channel = rss::Channel::read_from(bytes).map_err(|e| e.to_string())?;
    let attached = |e: &rss::Enclosure| {
        Enclosure { url: e.url().to_string(), mime_type: e.mime_type().to_string() }
    };
    let reduced = |it: &rss::Item| {
        FeedItem {
            title: it.title().map(String::from),
            link: it.link().map(String::from),
            enclosure: it.enclosure().map(attached),
        }
    };
    Ok(channel.items.iter().map(reduced).collect())
}

/// Why a document is no feed.
#[derive(Clone, Debug, PartialEq)]
pub enum ParseError {
    /// The document is nested deeper than any feed.
    TooDeep,
    /// The document does not parse as a feed; the text says why.
    Malformed { message: String },
}

/// Whether `r` is what parsing the document `bytes` gives: its items in
/// document order, or why it is no feed. A document that is nested deeper
/// than `MAX_NESTING` is not read.
pub open spec fn feed_of(bytes: Seq<u8>, r: Result<Vec<FeedItem>, ParseError>) -> bool {
    if nesting(bytes) > MAX_NESTING {
        r == Err::<Vec<FeedItem>, ParseError>(ParseError::TooDeep)
    } else {
        match r {
            Ok(items) => parsed_feed(bytes) == Ok::<Seq<FeedItem>, Seq<char>>(items@),
            Err(ParseError::Malformed { message }) => parsed_feed(bytes) == Err::<
                Seq<FeedItem>,
                Seq<char>,
            >(message@),
            Err(ParseError::TooDeep) => false,
        }
    }
}

/// The items of the feed document `bytes`, in document order.
pub fn parse_feed(bytes: &[u8]) -> (r: Result<Vec<FeedItem>, ParseError>)
    ensures
        feed_of(bytes@, r),
{
    if nesting_of(bytes) > MAX_NESTING {
        return Err(ParseError::TooDeep);
    }
    match read_channel(bytes) {
        Ok(items) => Ok(items),
        Err(message) => Err(ParseError::Malformed { message }),
    }
}

/// Whether `enclosure` is declared to be a torrent file.
pub open spec fn is_torrent(enclosure: Enclosure) -> bool {
    enclosure.mime_type@ == TORRENT_MIME@
}

/// The link under which the resource of `item` is fetched: the URL of its
/// enclosure where that is declared a torrent file, else the item's plain
/// link, and the empty text where it has neither.
pub open spec fn resolved_link(item: FeedItem) -> Seq<char> {
    match item.enclosure {
        Some(enclosure) if is_torrent(enclosure) => enclosure.url@,
        _ => match item.link {
            Some(link) => link@,
            None => Seq::empty(),
        },
    }
}

/// The link under which the resource of `item` is fetched. A torrent
/// enclosure goes before the plain link; an item with neither has the empty
/// link.
pub fn get_link(item: &FeedItem) -> (link: &str)
    ensures
        link@ == resolved_link(*item),
        item.enclosure matches Some(enclosure) ==> (is_torrent(enclosure) ==> link@
            == enclosure.url@),
{
    match &item.enclosure {
        Some(enclosure) if same_text(enclosure.mime_type.as_str(), TORRENT_MIME) => {
            enclosure.url.as_str()
        },
        _ => match &item.link {
            Some(link) => link.as_str(),
            None => {
                proof {
                    reveal_strlit("");
                }
                assert(""@ =~= Seq::<char>::empty());
                ""
            },
        },
    }
}

} // verus!
