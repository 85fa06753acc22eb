//! The run coordinator, as far as it decides: whether the seen-set is seeded
//! from the backend before the feeds are polled, the seeding itself, and what
//! is said of a feed whose pass failed.
use crate::feed::ParseError;
use crate::rss::FeedError;
use crate::select::{holds, lemma_seen_is_not_selected, seen_at, selection};
use crate::store::{insert_agrees, key_of, SeenStore, StoreError};
use crate::torrent::TorrentView;
use vstd::prelude::*;
use vstd::string::StringExecFns;

verus! {

/// What is done before the feeds are polled.
#[derive(Clone, Copy, Debug, PartialEq, Eq, Structural)]
pub enum Startup {
    /// The seen-set is new: list the transfers that the backend has, and
    /// seed the set with them through [`init_db`].
    ListCurrent,
    /// The seen-set was recovered from an earlier run: poll the feeds.
    Poll,
}

/// Why the seen-set could not be seeded.
#[derive(Clone, Debug, PartialEq)]
pub enum InitError {
    /// The backend could not list its transfers; the text says why.
    Backend(String),
    /// The seen-set could not be written.
    Store(StoreError),
}

/// The keys of a seen-set that had `keys` after the first `n` of `hashes`
/// were inserted.
pub open spec fn reconciled(keys: Set<Seq<u8>>, hashes: Seq<String>, n: int) -> Set<Seq<u8>>
    decreases n,
{
    if n <= 0 {
        keys
    } else {
        reconciled(keys, hashes, n - 1).insert(key_of(hashes[n - 1]@))
    }
}

/// How many of the first `n` of `hashes` are new to a seen-set with `keys`,
/// one that occurs more than once counted once.
pub open spec fn fresh_count(keys: Set<Seq<u8>>, hashes: Seq<String>, n: int) -> nat
    decreases n,
{
    if n <= 0 {
        0
    } else if reconciled(keys, hashes, n - 1).contains(key_of(hashes[n - 1]@)) {
        fresh_count(keys, hashes, n - 1)
    } else {
        fresh_count(keys, hashes, n - 1) + 1
    }
}

/// What the count of the new hashes comes to when one more insertion gave
/// `inserted`: a hash that is new is counted, one that was there is not, and
/// an insertion that failed ends the seeding with its error.
pub open spec fn tally(count: usize, inserted: Result<bool, StoreError>) -> Result<usize, InitError> {
    match inserted {
        Ok(fresh) => Ok(
            if fresh {
                (count + 1) as usize
            } else {
                count
            },
        ),
        Err(e) => Err(InitError::Store(e)),
    }
}

/// Whether the seeding of a seen-set that had `keys` with `hashes` stopped at
/// the hash at `n` with the result `r` and `later` as the keys after it:
/// the hashes before it are inserted, the insertion of that one failed with
/// `inserted`, and `r` is its error.
pub open spec fn stops_at(
    keys: Set<Seq<u8>>,
    hashes: Seq<String>,
    n: int,
    inserted: Result<bool, StoreError>,
    r: Result<usize, InitError>,
    later: Set<Seq<u8>>,
) -> bool {
    &&& 0 <= n < hashes.len()
    &&& inserted is Err
    &&& insert_agrees(reconciled(keys, hashes, n), hashes[n]@, inserted, later)
    &&& r == tally(fresh_count(keys, hashes, n) as usize, inserted)
}

/// Whether the seeding of a seen-set that had `keys` with `hashes` stopped at
/// one of them, with the result `r` and `later` as the keys after it.
pub open spec fn stops(
    keys: Set<Seq<u8>>,
    hashes: Seq<String>,
    r: Result<usize, InitError>,
    later: Set<Seq<u8>>,
) -> bool {
    exists|n: int, inserted: Result<bool, StoreError>| #[trigger]
        stops_at(keys, hashes, n, inserted, r, later)
}

/// Whether `r`, with `later` as the keys of the seen-set after it, is what
/// seeding a seen-set that has `keys` with `listing` comes to. Without a
/// listing nothing is written. With one, every hash is inserted and the new
/// ones are counted, unless an insertion fails: the seeding then stops at
/// that hash, with the error of that insertion.
pub open spec fn seeded(
    keys: Set<Seq<u8>>,
    listing: Result<Vec<String>, String>,
    r: Result<usize, InitError>,
    later: Set<Seq<u8>>,
) -> bool {
    match listing {
        Err(text) => r == Err::<usize, InitError>(InitError::Backend(text)) && later == keys,
        Ok(hashes) => match r {
            Ok(count) => {
                &&& later == reconciled(keys, hashes@, hashes@.len() as int)
                &&& count == fresh_count(keys, hashes@, hashes@.len() as int)
            },
            Err(_) => stops(keys, hashes@, r, later),
        },
    }
}

/// Whether `key` is the key of one of the first `n` of `hashes`.
pub open spec fn listed(hashes: Seq<String>, n: int, key: Seq<u8>) -> bool {
    exists|i: int| 0 <= i < n && key_of(#[trigger] hashes[i]@) == key
}

/// A seeded seen-set holds the keys that it held before and the key of each
/// hash that it was seeded with, and no other.
pub proof fn lemma_reconciled_holds(keys: Set<Seq<u8>>, hashes: Seq<String>, n: int, key: Seq<u8>)
    requires
        n <= hashes.len(),
    ensures
        reconciled(keys, hashes, n).contains(key) <==> keys.contains(key) || listed(hashes, n, key),
    decreases n,
{
    if n > 0 {
        lemma_reconciled_holds(keys, hashes, n - 1, key);
        if listed(hashes, n, key) {
            let i = choose|i: int| 0 <= i < n && key_of(#[trigger] hashes[i]@) == key;
            if i < n - 1 {
                assert(listed(hashes, n - 1, key));
            }
        }
        if listed(hashes, n - 1, key) {
            let i = choose|i: int| 0 <= i < n - 1 && key_of(#[trigger] hashes[i]@) == key;
            assert(listed(hashes, n, key));
        }
        if key == key_of(hashes[n - 1]@) {
            assert(listed(hashes, n, key));
        }
    }
}

/// No more hashes are new to a seen-set than it is seeded with.
pub proof fn lemma_fresh_count_bound(keys: Set<Seq<u8>>, hashes: Seq<String>, n: int)
    requires
        0 <= n,
    ensures
        fresh_count(keys, hashes, n) <= n,
    decreases n,
{
    if n > 0 {
        lemma_fresh_count_bound(keys, hashes, n - 1);
    }
}

/// A transfer that the seen-set was seeded with is not submitted again: when
/// a later pass finds items with its hash, and their lookups succeed, none of
/// them is selected.
pub proof fn lemma_reconciled_is_not_resubmitted(
    keys: Set<Seq<u8>>,
    hashes: Seq<String>,
    i: int,
    seen: Seq<bool>,
    filters: Seq<String>,
    items: Seq<TorrentView>,
)
    requires
        0 <= i < hashes.len(),
        seen.len() == items.len(),
        forall|j: int|
            0 <= j < items.len() ==> #[trigger] seen[j] == reconciled(
                keys,
                hashes,
                hashes.len() as int,
            ).contains(key_of(items[j].info_hash)),
    ensures
        reconciled(keys, hashes, hashes.len() as int).contains(key_of(hashes[i]@)),
        !holds(selection(seen, filters, items, items.len() as int), hashes[i]@),
{
    let key = key_of(hashes[i]@);
    lemma_reconciled_holds(keys, hashes, hashes.len() as int, key);
    assert(listed(hashes, hashes.len() as int, key));
    assert forall|j: int|
        0 <= j < items.len() && (#[trigger] items[j]).info_hash == hashes[i]@ implies seen_at(
        seen,
        j,
    ) by {
        assert(seen[j]);
    }
    lemma_seen_is_not_selected(seen, filters, items, hashes[i]@);
}

/// Decides what is done before the feeds are polled: a seen-set that was
/// freshly created is seeded from the backend, one that was recovered from
/// an earlier run is trusted as it is.
pub fn startup(store: &SeenStore) -> (step: Startup)
    ensures
        step == if store.recovered() {
            Startup::Poll
        } else {
            Startup::ListCurrent
        },
{
    if store.was_recovered() {
        Startup::Poll
    } else {
        Startup::ListCurrent
    }
}

/// Takes one insertion into the count of the new hashes, `inserted` being
/// what came of it: a hash that is new is counted, one that was there is
/// not, and an insertion that failed ends the seeding with its error.
pub fn tallied(count: usize, inserted: Result<bool, StoreError>) -> (r: Result<usize, InitError>)
    requires
        count < usize::MAX,
    ensures
        r == tally(count, inserted),
{
    match inserted {
        Ok(fresh) => Ok(
            if fresh {
                count + 1
            } else {
                count
            },
        ),
        Err(e) => Err(InitError::Store(e)),
    }
}

/// Seeds the seen-set with the transfers that the backend has: `listing` is
/// the hash of each of them, or the text of the error where the backend
/// could not be asked. Every hash is inserted, so that none of these
/// transfers is submitted again. The result is the number of hashes that were
/// new to the set. Where the set cannot be written, the seeding stops, with
/// the hashes before the failing one inserted.
pub fn init_db(store: &mut SeenStore, listing: Result<Vec<String>, String>) -> (r: Result<
    usize,
    InitError,
>)
    ensures
        final(store).recovered() == old(store).recovered(),
        seeded(old(store)@, listing, r, final(store)@),
        listing matches Ok(hashes) ==> (r is Ok ==> forall|i: int|
            0 <= i < hashes@.len() ==> final(store).has(#[trigger] hashes@[i]@)),
{
    match listing {
        Err(text) => Err(InitError::Backend(text)),
        Ok(hashes) => {
            let mut count: usize = 0;
            let mut i: usize = 0;
            while i < hashes.len()
                invariant
                    listing == Ok::<Vec<String>, String>(hashes),
                    i <= hashes.len(),
                    store@ == reconciled(old(store)@, hashes@, i as int),
                    count == fresh_count(old(store)@, hashes@, i as int),
                    count <= i,
                    store.recovered() == old(store).recovered(),
                decreases hashes.len() - i,
            {
                let inserted = store.insert(hashes[i].as_str());
                match tallied(count, inserted) {
                    Ok(counted) => {
                        count = counted;
                    },
                    Err(e) => {
                        let r = Err(e);
                        assert(stops_at(old(store)@, hashes@, i as int, inserted, r, store@));
                        assert(stops(old(store)@, hashes@, r, store@));
                        assert(seeded(old(store)@, listing, r, store@));
                        return r;
                    },
                }
                i = i + 1;
            }
            proof {
                assert forall|i: int| 0 <= i < hashes@.len() implies store.has(
                    #[trigger] hashes@[i]@,
                ) by {
                    let key = key_of(hashes@[i]@);
                    lemma_reconciled_holds(old(store)@, hashes@, hashes@.len() as int, key);
                    assert(listed(hashes@, hashes@.len() as int, key));
                }
            }
            Ok(count)
        },
    }
}

/// What a failed pass is called in messages to the operator.
pub open spec fn failure_text(error: FeedError) -> Seq<char> {
    match error {
        FeedError::Fetch(e) => "Failed to fetch "@ + e.url@,
        FeedError::Parse(ParseError::Malformed { message }) => "Failed to parse the feed: "@
            + message@,
        FeedError::Parse(ParseError::TooDeep) => "Failed to parse the feed: nested too deep"@,
        FeedError::Store(e) => "Failed to write the seen-set: "@ + e.message@,
        FeedError::OutOfTurn => "Event out of turn"@,
    }
}

/// What is said of the feed titled `title` when its pass failed with
/// `error`.
pub open spec fn failure_message(title: Seq<char>, error: FeedError) -> Seq<char> {
    "Failed to process "@ + title + " feed: "@ + failure_text(error)
}

/// The text of `error`, for the operator.
pub fn describe(error: &FeedError) -> (text: String)
    ensures
        text@ == failure_text(*error),
{
    match error {
        FeedError::Fetch(e) => "Failed to fetch ".to_owned().concat(e.url.as_str()),
        FeedError::Parse(ParseError::Malformed { message }) => {
            "Failed to parse the feed: ".to_owned().concat(message.as_str())
        },
        FeedError::Parse(ParseError::TooDeep) => {
            "Failed to parse the feed: nested too deep".to_owned()
        },
        FeedError::Store(e) => "Failed to write the seen-set: ".to_owned().concat(
            e.message.as_str(),
        ),
        FeedError::OutOfTurn => "Event out of turn".to_owned(),
    }
}

/// What a failed seeding is called in messages to the operator.
pub open spec fn seeding_failure_text(error: InitError) -> Seq<char> {
    match error {
        InitError::Backend(text) => "Failed to fetch torrents: "@ + text@
            + ", please check transmission server."@,
        InitError::Store(e) => "Failed to write the seen-set: "@ + e.message@,
    }
}

/// The text of `error`, for the operator.
pub fn describe_seeding(error: &InitError) -> (text: String)
    ensures
        text@ == seeding_failure_text(*error),
{
    match error {
        InitError::Backend(text) => "Failed to fetch torrents: ".to_owned().concat(
            text.as_str(),
        ).concat(", please check transmission server."),
        InitError::Store(e) => "Failed to write the seen-set: ".to_owned().concat(
            e.message.as_str(),
        ),
    }
}

/// The message that reports that the pass over the feed titled `title`
/// failed with `error`. The failure concerns this feed alone: the passes
/// over the other feeds go on.
pub fn report_failure(title: &str, error: &FeedError) -> (message: String)
    ensures
        message@ == failure_message(title@, *error),
{
    let text = describe(error);
    "Failed to process ".to_owned().concat(title).concat(" feed: ").concat(text.as_str())
}

} // verus!
