//! The feed synchronizer: one pass over one feed, as a state machine. The
//! caller does what an action asks for (a fetch, a call to the backend, a
//! sleep, a notification, the flush of the seen-set) and hands back what came
//! of it as an event; every decision in between is taken here.
//!
//! A pass goes through `Fetching`, `Resolving`, then once per selected item
//! through `Submitting` (with `Waiting` before a retry and `Notifying` after
//! an addition), then through `Flushing`, and ends in `Done`.
use crate::backend::{judged, submission, RpcError, RpcReply, SubmissionOutcome};
use crate::config::RssList;
use crate::feed::{get_link, parse_feed, parsed_feed, resolved_link, FeedItem, ParseError};
use crate::fetch::{FetchError, HttpResponse, FEED_RETRIES, HTTP_OK, RESOURCE_RETRIES};
use crate::retry::{lemma_retry_bound, Retry, RetryStep, RETRY_DELAY_SECS};
use crate::note::Note;
use crate::select::{lookups_agree, seen_of, select, selection, selects, skipped, unchecked, Selection};
use crate::store::{insert_agrees, SeenStore, StoreError};
use crate::torrent::{decoded_torrent, resolved, views, ResolveError, TorrentItem};
use vstd::prelude::*;
use vstd::string::StringExecFns;

verus! {

/// How often the submission of one item is retried.
pub const SUBMIT_RETRIES: u32 = 3;

/// What a notification of an added item starts with.
pub const DOWNLOADING: &'static str = "Downloading: ";

/// An item of the feed whose torrent file is yet to be fetched.
#[derive(Clone, Debug, PartialEq)]
pub struct Pending {
    pub title: String,
    pub link: String,
}

/// A pending item as plain text.
pub struct PendingView {
    pub title: Seq<char>,
    pub link: Seq<char>,
}

impl View for Pending {
    type V = PendingView;

    open spec fn view(&self) -> PendingView {
        PendingView { title: self.title@, link: self.link@ }
    }
}

/// The items selected for submission, and how far the submission has come.
#[derive(Clone, Debug, PartialEq)]
pub struct Batch {
    /// The selected items, in the order of the feed.
    pub queue: Vec<TorrentItem>,
    /// The index in `queue` of the item that is being submitted.
    pub next: usize,
    /// The retry account of that item's submission.
    pub retry: Retry,
    /// How many items the backend has added in this pass.
    pub added: usize,
}

/// The state of the pass over one feed.
#[derive(Clone, Debug, PartialEq)]
pub enum FeedSync {
    /// The feed document was asked for.
    Fetching,
    /// The torrent files of `pending` were asked for.
    Resolving { pending: Vec<Pending> },
    /// The backend was asked to add the item at `next`.
    Submitting(Batch),
    /// A wait before the next attempt to submit the item at `next`.
    Waiting(Batch),
    /// The operators are being told that the item at `next` was added.
    Notifying(Batch),
    /// Every selected item is done with, `added` of them were added, and the
    /// seen-set is being flushed.
    Flushing { added: usize },
    /// The pass is over.
    Done,
}

/// What came of the action that the machine asked for.
#[derive(Debug, PartialEq)]
pub enum FeedEvent {
    /// The feed document, or the failure to fetch it.
    Fetched(Result<HttpResponse, FetchError>),
    /// The outcome of the fetch of each link, in the order of the links.
    Resolved(Vec<Result<HttpResponse, FetchError>>),
    /// The backend's answer to the submission, or the text of the error with
    /// which the call failed.
    Submitted(Result<RpcReply, String>),
    /// The wait is over.
    Woke,
    /// The notification was handed to the channels.
    Notified,
    /// What came of flushing the seen-set.
    Flushed(Result<(), StoreError>),
}

/// Why the pass over a feed failed.
#[derive(Clone, Debug, PartialEq)]
pub enum FeedError {
    /// The feed document could not be fetched.
    Fetch(FetchError),
    /// What was fetched is no feed document.
    Parse(ParseError),
    /// The seen-set could not be written.
    Store(StoreError),
    /// An event came that the state of the pass does not wait for.
    OutOfTurn,
}

/// What the caller is to do next.
#[derive(Debug, PartialEq)]
pub enum FeedAction {
    /// Fetch the feed document at `url`, with up to `retries` retries, and
    /// answer with `Fetched`.
    Fetch { url: String, retries: u32 },
    /// Fetch each of `links`, each with up to `retries` retries and in any
    /// order or at once, and answer with `Resolved`.
    Resolve { links: Vec<String>, retries: u32 },
    /// Ask the backend once to add `resource` for download into
    /// `download_dir`, and answer with `Submitted`.
    Submit { resource: String, download_dir: String },
    /// Wait `secs` seconds and answer with `Woke`.
    Sleep { secs: u64 },
    /// Send `message` to every channel and answer with `Notified`, whatever
    /// came of the sending.
    Notify { message: String },
    /// Flush the seen-set, once, and answer with `Flushed`.
    Flush,
    /// Nothing more: the pass ended with the number of items added, or failed.
    Done(Result<usize, FeedError>),
}

/// What the machine answers to an event.
#[derive(Debug, PartialEq)]
pub struct Step {
    /// The state of the pass after the event.
    pub sync: FeedSync,
    /// What the caller is to do next.
    pub action: FeedAction,
    /// What there is to tell of single items, for the operator.
    pub notes: Vec<Note>,
}

/// The title under which an item of the feed is handled: its own, or the
/// empty text where it has none.
pub open spec fn title_of(item: FeedItem) -> Seq<char> {
    match item.title {
        Some(title) => title@,
        None => Seq::empty(),
    }
}

/// The items among the first `n` of `items` that can be resolved, each with
/// its title and link. An item without a link is left out.
pub open spec fn pending_of(items: Seq<FeedItem>, n: int) -> Seq<PendingView>
    decreases n,
{
    if n <= 0 {
        Seq::empty()
    } else if resolved_link(items[n - 1]).len() == 0 {
        pending_of(items, n - 1)
    } else {
        pending_of(items, n - 1).push(
            PendingView { title: title_of(items[n - 1]), link: resolved_link(items[n - 1]) },
        )
    }
}

/// The notes on those of the first `n` of `items` that cannot be resolved
/// for want of a link, in order.
pub open spec fn unlinked(items: Seq<FeedItem>, n: int) -> Seq<Note>
    decreases n,
{
    if n <= 0 {
        Seq::empty()
    } else if resolved_link(items[n - 1]).len() == 0 {
        unlinked(items, n - 1).push(Note::Unresolvable { title: items[n - 1].title })
    } else {
        unlinked(items, n - 1)
    }
}

/// The plain text of each of `pending`.
pub open spec fn pending_views(pending: Seq<Pending>) -> Seq<PendingView> {
    pending.map_values(|p: Pending| p@)
}

/// The link of each of `pending`.
pub open spec fn links_of(pending: Seq<Pending>) -> Seq<String> {
    pending.map_values(|p: Pending| p.link)
}

/// Whether `resolution` is what the fetch of a pending item's torrent file
/// makes of the item, `fetched` being the outcome of the fetch: the resolved
/// item where the file came with status 200, is nested no deeper than
/// `MAX_NESTING` and decodes to a torrent, and else the error of the item.
pub open spec fn resolves(
    pending: Pending,
    fetched: Result<HttpResponse, FetchError>,
    resolution: Result<TorrentItem, ResolveError>,
) -> bool {
    match fetched {
        Ok(response) => resolved(
            pending.link,
            pending.title,
            fetched,
            decoded_torrent(response.body@),
            resolution,
        ),
        Err(_) => resolution == Err::<TorrentItem, ResolveError>(
            ResolveError::Fetch { url: pending.link },
        ),
    }
}

/// Whether `resolutions` holds what the fetch of each of `pending` makes of
/// it, `results` holding the outcome of each fetch.
pub open spec fn all_resolve(
    pending: Seq<Pending>,
    results: Seq<Result<HttpResponse, FetchError>>,
    resolutions: Seq<Result<TorrentItem, ResolveError>>,
) -> bool {
    &&& resolutions.len() == pending.len()
    &&& forall|i: int|
        0 <= i < pending.len() ==> resolves(pending[i], results[i], #[trigger] resolutions[i])
}

/// The items among the first `n` of `resolutions` that resolved, in order.
pub open spec fn kept(resolutions: Seq<Result<TorrentItem, ResolveError>>, n: int) -> Seq<TorrentItem>
    decreases n,
{
    if n <= 0 {
        Seq::empty()
    } else {
        match resolutions[n - 1] {
            Ok(item) => kept(resolutions, n - 1).push(item),
            Err(_) => kept(resolutions, n - 1),
        }
    }
}

/// The notes on those of the first `n` of `pending` that did not resolve, in
/// order.
pub open spec fn unresolved(
    pending: Seq<Pending>,
    resolutions: Seq<Result<TorrentItem, ResolveError>>,
    n: int,
) -> Seq<Note>
    decreases n,
{
    if n <= 0 {
        Seq::empty()
    } else {
        match resolutions[n - 1] {
            Ok(_) => unresolved(pending, resolutions, n - 1),
            Err(error) => unresolved(pending, resolutions, n - 1).push(
                Note::Unresolved { title: pending[n - 1].title, error },
            ),
        }
    }
}

/// The text of the notification that the item titled `title` was added.
pub open spec fn downloading(title: Seq<char>) -> Seq<char> {
    DOWNLOADING@ + title
}

impl Batch {
    /// Whether an item is being submitted, and the count of the added items
    /// is one that submitting the items before it can have given.
    pub open spec fn ready(self) -> bool {
        self.next < self.queue.len() && self.added <= self.next
    }

    /// Whether the addition of an item is being announced, and the count of
    /// the added items is one that the items up to it can have given.
    pub open spec fn announcing(self) -> bool {
        self.next < self.queue.len() && self.added <= self.next + 1
    }

    /// The batch when the item at `next` is done with.
    pub open spec fn advanced(self) -> Batch {
        Batch {
            queue: self.queue,
            next: (self.next + 1) as usize,
            retry: Retry { retries: SUBMIT_RETRIES, failures: 0 },
            added: self.added,
        }
    }

    /// The batch when the backend has added the item at `next`.
    pub open spec fn counted(self) -> Batch {
        Batch {
            queue: self.queue,
            next: self.next,
            retry: self.retry,
            added: (self.added + 1) as usize,
        }
    }
}

/// The machine refuses an event: the pass ends with `OutOfTurn`.
pub open spec fn refuses(sync2: FeedSync, action: FeedAction) -> bool {
    sync2 == FeedSync::Done && action == FeedAction::Done(
        Err::<usize, FeedError>(FeedError::OutOfTurn),
    )
}

/// The machine asks for the flush of the seen-set, at the end of a pass in
/// which `added` items were added.
pub open spec fn flushes(added: usize, sync2: FeedSync, action: FeedAction) -> bool {
    sync2 == (FeedSync::Flushing { added }) && action == FeedAction::Flush
}

/// The result of a pass in which `added` items were added, `flushed` being
/// what came of flushing the seen-set: `added` where the flush succeeded, and
/// the error of the flush where not.
pub open spec fn result_of(added: usize, flushed: Result<(), StoreError>) -> Result<
    usize,
    FeedError,
> {
    match flushed {
        Ok(_) => Ok(added),
        Err(e) => Err(FeedError::Store(e)),
    }
}

/// The step on `Flushed`: the pass ends, with the result that the flush
/// gives it.
pub open spec fn flushed_step(
    added: usize,
    flushed: Result<(), StoreError>,
    sync2: FeedSync,
    action: FeedAction,
) -> bool {
    sync2 == FeedSync::Done && action == FeedAction::Done(result_of(added, flushed))
}

/// The machine asks the backend to add the item at `next` of `batch`.
pub open spec fn submits(feed: RssList, batch: Batch, sync2: FeedSync, action: FeedAction) -> bool {
    &&& sync2 == FeedSync::Submitting(batch)
    &&& action == (FeedAction::Submit {
        resource: batch.queue@[batch.next as int].magnet_link,
        download_dir: feed.download_dir,
    })
}

/// The machine goes on with `batch`: it submits the item at `next` where
/// there is one, and asks for the flush where the queue is used up.
pub open spec fn proceeds(feed: RssList, batch: Batch, sync2: FeedSync, action: FeedAction) -> bool {
    if batch.next < batch.queue.len() {
        submits(feed, batch, sync2, action)
    } else {
        flushes(batch.added, sync2, action)
    }
}

/// The step on `Fetched`. A failed fetch ends the pass with that failure, and
/// so does a document that is nested too deep or does not parse. Else the
/// machine asks for the torrent file of every item that has a link, and
/// tells of every item that has none.
pub open spec fn fetched_step(
    fetched: Result<HttpResponse, FetchError>,
    sync2: FeedSync,
    action: FeedAction,
    notes: Seq<Note>,
) -> bool {
    match fetched {
        Err(e) => sync2 == FeedSync::Done && action == FeedAction::Done(
            Err::<usize, FeedError>(FeedError::Fetch(e)),
        ) && notes.len() == 0,
        Ok(response) => if crate::markup::nesting(response.body@) > crate::markup::MAX_NESTING {
            sync2 == FeedSync::Done && action == FeedAction::Done(
                Err::<usize, FeedError>(FeedError::Parse(ParseError::TooDeep)),
            ) && notes.len() == 0
        } else {
            match parsed_feed(response.body@) {
                Err(message) => {
                    &&& sync2 == FeedSync::Done
                    &&& action matches FeedAction::Done(
                        Err(FeedError::Parse(ParseError::Malformed { message: text })),
                    )
                    &&& text@ == message
                    &&& notes.len() == 0
                },
                Ok(items) => {
                    &&& sync2 matches FeedSync::Resolving { pending }
                    &&& pending_views(pending@) == pending_of(items, items.len() as int)
                    &&& action matches FeedAction::Resolve { links, retries }
                    &&& links@ == links_of(pending@)
                    &&& retries == RESOURCE_RETRIES
                    &&& notes == unlinked(items, items.len() as int)
                },
            }
        },
    }
}

/// The step on `Resolved`, `resolutions` holding what became of each pending
/// item and `found` the outcome of the lookup of each item that resolved. The
/// items that resolved are selected from, and the machine goes on with a
/// fresh batch of the selected ones. The notes tell of the items that did not
/// resolve, then of the lookups that failed, then of the items that are left
/// out for their title.
pub open spec fn resolved_step(
    feed: RssList,
    pending: Seq<Pending>,
    results: Seq<Result<HttpResponse, FetchError>>,
    keys: Set<Seq<u8>>,
    resolutions: Seq<Result<TorrentItem, ResolveError>>,
    found: Seq<Result<bool, StoreError>>,
    sync2: FeedSync,
    action: FeedAction,
    notes: Seq<Note>,
) -> bool {
    let candidates = kept(resolutions, resolutions.len() as int);
    let chosen = selection(
        seen_of(found),
        feed.filters@,
        views(candidates),
        candidates.len() as int,
    );
    &&& all_resolve(pending, results, resolutions)
    &&& lookups_agree(found, keys, views(candidates))
    &&& notes == unresolved(pending, resolutions, resolutions.len() as int) + unchecked(
        found,
        candidates,
        candidates.len() as int,
    ) + skipped(seen_of(found), feed.filters@, candidates, candidates.len() as int)
    &&& if chosen.len() == 0 {
        flushes(0, sync2, action)
    } else {
        &&& sync2 matches FeedSync::Submitting(batch)
        &&& views(batch.queue@) == chosen
        &&& batch.next == 0
        &&& batch.retry == (Retry { retries: SUBMIT_RETRIES, failures: 0 })
        &&& batch.added == 0
        &&& submits(feed, batch, sync2, action)
    }
}

/// What the retried submission of an item has come to after one more answer
/// of the backend.
#[derive(Clone, Debug, PartialEq)]
pub enum SubmitStep {
    /// The submission is over, with this outcome.
    Settled(SubmissionOutcome),
    /// The call did not get through: wait `secs` seconds, then call again.
    Wait { secs: u64 },
}

/// What the submission of an item comes to under the account `retry` when
/// one more call gave `attempt`, together with the account after it. An answer
/// of the backend settles it: an addition, a duplicate, or a rejection, which
/// is a failure and not retried. A call that did not get through is retried
/// while the account allows it, and is a failure after that.
pub open spec fn settled(retry: Retry, attempt: Result<SubmissionOutcome, RpcError>) -> (
    Retry,
    SubmitStep,
) {
    match attempt {
        Ok(outcome) => (retry, SubmitStep::Settled(outcome)),
        Err(RpcError::Rejected(reason)) => (
            retry,
            SubmitStep::Settled(SubmissionOutcome::Failed(reason)),
        ),
        Err(RpcError::Transport(reason)) => match retry.after_failure().1 {
            RetryStep::Wait { secs } => (retry.after_failure().0, SubmitStep::Wait { secs }),
            RetryStep::GiveUp => (
                retry.after_failure().0,
                SubmitStep::Settled(SubmissionOutcome::Failed(reason)),
            ),
        },
    }
}

/// Decides what the submission of an item has come to after one more call,
/// and records a call that did not get through in `retry`.
pub fn submit_with_retry(retry: &mut Retry, attempt: Result<SubmissionOutcome, RpcError>) -> (step:
    SubmitStep)
    ensures
        (*final(retry), step) == settled(*old(retry), attempt),
{
    match attempt {
        Ok(outcome) => SubmitStep::Settled(outcome),
        Err(RpcError::Rejected(reason)) => SubmitStep::Settled(SubmissionOutcome::Failed(reason)),
        Err(RpcError::Transport(reason)) => match retry.failed() {
            RetryStep::Wait { secs } => SubmitStep::Wait { secs },
            RetryStep::GiveUp => SubmitStep::Settled(SubmissionOutcome::Failed(reason)),
        },
    }
}

/// The step that records the outcome of the submission of the item at `next`
/// of `batch`, `inserted` being what came of putting the fingerprint into the
/// seen-set, where the outcome has one put there. An added item is counted,
/// recorded and announced; a duplicate is recorded; a failed item is passed
/// over. A seen-set that cannot be written ends the pass.
pub open spec fn recorded_step(
    feed: RssList,
    batch: Batch,
    outcome: SubmissionOutcome,
    inserted: Result<bool, StoreError>,
    sync2: FeedSync,
    action: FeedAction,
) -> bool {
    match outcome {
        SubmissionOutcome::Failed(_) => proceeds(feed, batch.advanced(), sync2, action),
        SubmissionOutcome::Duplicate(_) => match inserted {
            Ok(_) => proceeds(feed, batch.advanced(), sync2, action),
            Err(e) => sync2 == FeedSync::Done && action == FeedAction::Done(
                Err::<usize, FeedError>(FeedError::Store(e)),
            ),
        },
        SubmissionOutcome::Added(_) => match inserted {
            Ok(_) => {
                &&& sync2 == FeedSync::Notifying(batch.counted())
                &&& action matches FeedAction::Notify { message }
                &&& message@ == downloading(batch.queue@[batch.next as int].title@)
            },
            Err(e) => sync2 == FeedSync::Done && action == FeedAction::Done(
                Err::<usize, FeedError>(FeedError::Store(e)),
            ),
        },
    }
}

/// How the keys of the seen-set change when the outcome of a submission is
/// recorded: the fingerprint of an added or duplicate item is inserted, with
/// `inserted` as what came of it, and a failed item leaves the set alone.
pub open spec fn records(
    keys: Set<Seq<u8>>,
    outcome: SubmissionOutcome,
    inserted: Result<bool, StoreError>,
    keys2: Set<Seq<u8>>,
) -> bool {
    match outcome {
        SubmissionOutcome::Added(info_hash) => insert_agrees(keys, info_hash@, inserted, keys2),
        SubmissionOutcome::Duplicate(info_hash) => insert_agrees(
            keys,
            info_hash@,
            inserted,
            keys2,
        ),
        SubmissionOutcome::Failed(_) => keys2 == keys,
    }
}

/// What there is to tell of the outcome of the submission of the item at
/// `next` of `batch`: of a failure with its reason, of a duplicate with its
/// fingerprint, and nothing of an addition, which is announced.
pub open spec fn outcome_notes(batch: Batch, outcome: SubmissionOutcome) -> Seq<Note> {
    match outcome {
        SubmissionOutcome::Added(_) => Seq::empty(),
        SubmissionOutcome::Duplicate(info_hash) => seq![Note::AlreadyKnown { info_hash }],
        SubmissionOutcome::Failed(reason) => seq![
            Note::NotSubmitted { title: batch.queue@[batch.next as int].title, reason },
        ],
    }
}

/// The step on `Submitted`.
pub open spec fn submitted_step(
    feed: RssList,
    batch: Batch,
    reply: Result<RpcReply, String>,
    keys: Set<Seq<u8>>,
    inserted: Result<bool, StoreError>,
    sync2: FeedSync,
    keys2: Set<Seq<u8>>,
    action: FeedAction,
    notes: Seq<Note>,
) -> bool {
    match settled(batch.retry, judged(reply)).1 {
        SubmitStep::Wait { secs } => {
            &&& notes.len() == 0
            &&& keys2 == keys
            &&& sync2 == FeedSync::Waiting(
                Batch {
                    queue: batch.queue,
                    next: batch.next,
                    retry: settled(batch.retry, judged(reply)).0,
                    added: batch.added,
                },
            )
            &&& action == (FeedAction::Sleep { secs })
        },
        SubmitStep::Settled(outcome) => {
            &&& notes == outcome_notes(batch, outcome)
            &&& records(keys, outcome, inserted, keys2)
            &&& recorded_step(feed, batch, outcome, inserted, sync2, action)
        },
    }
}

/// Whether the machine, in the state `sync` of the pass over `feed` and with
/// a seen-set of the keys `keys`, may answer `event` by going to `sync2` with
/// the action `action` and the notes `notes`, leaving the seen-set with the
/// keys `keys2`. What is open in it is what the seen-set does: whether a
/// lookup or an insertion succeeds.
pub open spec fn steps(
    feed: RssList,
    sync: FeedSync,
    keys: Set<Seq<u8>>,
    event: FeedEvent,
    sync2: FeedSync,
    keys2: Set<Seq<u8>>,
    action: FeedAction,
    notes: Seq<Note>,
) -> bool {
    match (sync, event) {
        (FeedSync::Fetching, FeedEvent::Fetched(fetched)) => keys2 == keys && fetched_step(
            fetched,
            sync2,
            action,
            notes,
        ),
        (FeedSync::Resolving { pending }, FeedEvent::Resolved(results)) => keys2 == keys && if pending@.len()
            == results@.len() {
            exists|
                resolutions: Seq<Result<TorrentItem, ResolveError>>,
                found: Seq<Result<bool, StoreError>>,
            | #[trigger]
                resolved_step(
                    feed,
                    pending@,
                    results@,
                    keys,
                    resolutions,
                    found,
                    sync2,
                    action,
                    notes,
                )
        } else {
            refuses(sync2, action) && notes.len() == 0
        },
        (FeedSync::Submitting(batch), FeedEvent::Submitted(reply)) => if batch.ready() {
            exists|inserted: Result<bool, StoreError>| #[trigger]
                submitted_step(feed, batch, reply, keys, inserted, sync2, keys2, action, notes)
        } else {
            keys2 == keys && refuses(sync2, action) && notes.len() == 0
        },
        (FeedSync::Waiting(batch), FeedEvent::Woke) => keys2 == keys && notes.len() == 0
            && if batch.ready() {
            submits(feed, batch, sync2, action)
        } else {
            refuses(sync2, action)
        },
        (FeedSync::Notifying(batch), FeedEvent::Notified) => keys2 == keys && notes.len() == 0
            && if batch.announcing() {
            proceeds(feed, batch.advanced(), sync2, action)
        } else {
            refuses(sync2, action)
        },
        (FeedSync::Flushing { added }, FeedEvent::Flushed(flushed)) => keys2 == keys
            && notes.len() == 0 && flushed_step(added, flushed, sync2, action),
        _ => keys2 == keys && refuses(sync2, action) && notes.len() == 0,
    }
}

impl FeedSync {
    /// Whether the state is one that a pass can be in: the batch of a
    /// submitting or waiting state has an item in turn, and its count of
    /// added items fits the items before it; in a notifying state the item in
    /// turn is counted too.
    pub open spec fn well_formed(self) -> bool {
        match self {
            FeedSync::Submitting(batch) => batch.ready(),
            FeedSync::Waiting(batch) => batch.ready(),
            FeedSync::Notifying(batch) => batch.announcing(),
            _ => true,
        }
    }

    /// Whether `event` is the answer to the action with which the pass went
    /// into this state.
    pub open spec fn awaits(self, event: FeedEvent) -> bool {
        match (self, event) {
            (FeedSync::Fetching, FeedEvent::Fetched(_)) => true,
            (FeedSync::Resolving { pending }, FeedEvent::Resolved(results)) => pending@.len()
                == results@.len(),
            (FeedSync::Submitting(_), FeedEvent::Submitted(_)) => true,
            (FeedSync::Waiting(_), FeedEvent::Woke) => true,
            (FeedSync::Notifying(_), FeedEvent::Notified) => true,
            (FeedSync::Flushing { .. }, FeedEvent::Flushed(_)) => true,
            _ => false,
        }
    }

    /// Whether `action` is the action with which a pass goes into this
    /// state.
    pub open spec fn entered_with(self, action: FeedAction) -> bool {
        match self {
            FeedSync::Fetching => action is Fetch,
            FeedSync::Resolving { pending } => action matches FeedAction::Resolve { links, .. }
                && links@.len() == pending@.len(),
            FeedSync::Submitting(_) => action is Submit,
            FeedSync::Waiting(_) => action is Sleep,
            FeedSync::Notifying(_) => action is Notify,
            FeedSync::Flushing { .. } => action is Flush,
            FeedSync::Done => action is Done,
        }
    }
}

/// A pass that is answered as it asks never refuses: from a state that a pass
/// can be in, the event that answers the last action leads to a state that a
/// pass can be in, together with the action that belongs to it, and the pass
/// does not end with `OutOfTurn`.
pub proof fn lemma_pass_goes_on(
    feed: RssList,
    sync: FeedSync,
    keys: Set<Seq<u8>>,
    event: FeedEvent,
    sync2: FeedSync,
    keys2: Set<Seq<u8>>,
    action: FeedAction,
    notes: Seq<Note>,
)
    requires
        sync.well_formed(),
        sync.awaits(event),
        steps(feed, sync, keys, event, sync2, keys2, action, notes),
    ensures
        sync2.well_formed(),
        sync2.entered_with(action),
        action != FeedAction::Done(Err::<usize, FeedError>(FeedError::OutOfTurn)),
{
    match (sync, event) {
        (FeedSync::Resolving { pending }, FeedEvent::Resolved(results)) => {
            let (resolutions, found) = choose|
                resolutions: Seq<Result<TorrentItem, ResolveError>>,
                found: Seq<Result<bool, StoreError>>,
            | #[trigger]
                resolved_step(
                    feed,
                    pending@,
                    results@,
                    keys,
                    resolutions,
                    found,
                    sync2,
                    action,
                    notes,
                );
            let candidates = kept(resolutions, resolutions.len() as int);
            let chosen = selection(
                seen_of(found),
                feed.filters@,
                views(candidates),
                candidates.len() as int,
            );
            if chosen.len() > 0 {
                let batch = sync2->Submitting_0;
                assert(views(batch.queue@).len() == batch.queue@.len());
            }
        },
        (FeedSync::Submitting(batch), FeedEvent::Submitted(reply)) => {
            let inserted = choose|inserted: Result<bool, StoreError>| #[trigger]
                submitted_step(feed, batch, reply, keys, inserted, sync2, keys2, action, notes);
            assert(submitted_step(feed, batch, reply, keys, inserted, sync2, keys2, action, notes));
        },
        (FeedSync::Fetching, FeedEvent::Fetched(fetched)) => {
            match fetched {
                Ok(response) => if crate::markup::nesting(response.body@)
                    <= crate::markup::MAX_NESTING {
                    match parsed_feed(response.body@) {
                        Ok(items) => {
                            let pending = sync2->pending;
                            assert(links_of(pending@).len() == pending@.len());
                        },
                        Err(_) => {},
                    }
                },
                Err(_) => {},
            }
        },
        _ => {},
    }
}

/// The seen-set is flushed once, after the last submission, and the flush
/// decides the result. The flush is asked for exactly on the way into
/// `Flushing`; from there the pass ends at the next step and asks for
/// nothing more; and a pass ends with a count only in answer to a flush that
/// succeeded, while one that failed ends it with its error.
pub proof fn lemma_pass_ends_with_the_flush(
    feed: RssList,
    sync: FeedSync,
    keys: Set<Seq<u8>>,
    event: FeedEvent,
    sync2: FeedSync,
    keys2: Set<Seq<u8>>,
    action: FeedAction,
    notes: Seq<Note>,
)
    requires
        steps(feed, sync, keys, event, sync2, keys2, action, notes),
    ensures
        action is Flush <==> sync2 is Flushing,
        sync is Flushing ==> sync2 == FeedSync::Done && action is Done,
        action matches FeedAction::Done(Ok(count)) ==> sync == (FeedSync::Flushing {
            added: count,
        }) && (event matches FeedEvent::Flushed(flushed) && flushed is Ok),
        (sync matches FeedSync::Flushing { added } && event matches FeedEvent::Flushed(flushed))
            ==> action == FeedAction::Done(result_of(sync->added, event->Flushed_0))
            && keys2 == keys,
{
    match (sync, event) {
        (FeedSync::Resolving { pending }, FeedEvent::Resolved(results)) => {
            if pending@.len() == results@.len() {
                let (resolutions, found) = choose|
                    resolutions: Seq<Result<TorrentItem, ResolveError>>,
                    found: Seq<Result<bool, StoreError>>,
                | #[trigger]
                    resolved_step(
                        feed,
                        pending@,
                        results@,
                        keys,
                        resolutions,
                        found,
                        sync2,
                        action,
                        notes,
                    );
            }
        },
        (FeedSync::Submitting(batch), FeedEvent::Submitted(reply)) => {
            if batch.ready() {
                let inserted = choose|inserted: Result<bool, StoreError>| #[trigger]
                    submitted_step(feed, batch, reply, keys, inserted, sync2, keys2, action, notes);
            }
        },
        _ => {},
    }
}

/// No item of the feed goes unaccounted for: every item is asked for or told
/// of as one that cannot be resolved.
pub proof fn lemma_items_are_pending_or_told_of(items: Seq<FeedItem>, n: int)
    requires
        0 <= n,
    ensures
        pending_of(items, n).len() + unlinked(items, n).len() == n,
    decreases n,
{
    if n > 0 {
        lemma_items_are_pending_or_told_of(items, n - 1);
    }
}

/// No pending item goes unaccounted for: every item resolves or is told of
/// with the error that kept it from resolving.
pub proof fn lemma_pending_resolve_or_are_told_of(
    pending: Seq<Pending>,
    resolutions: Seq<Result<TorrentItem, ResolveError>>,
    n: int,
)
    requires
        0 <= n,
    ensures
        kept(resolutions, n).len() + unresolved(pending, resolutions, n).len() == n,
    decreases n,
{
    if n > 0 {
        lemma_pending_resolve_or_are_told_of(pending, resolutions, n - 1);
    }
}

/// A submission that never gets through is given up after exactly
/// `retries + 1` calls: each of the first `retries` failed calls is answered
/// with a wait of the fixed delay, and the next with the outcome `Failed`,
/// which carries the error of the last call.
pub proof fn lemma_submission_gives_up(retries: u32, k: nat, reason: String)
    ensures
        settled(
            (Retry { retries, failures: 0 }).after_failures(k),
            Err(RpcError::Transport(reason)),
        ).0 == (Retry { retries, failures: 0 }).after_failures(k + 1),
        k < retries ==> settled(
            (Retry { retries, failures: 0 }).after_failures(k),
            Err(RpcError::Transport(reason)),
        ).1 == (SubmitStep::Wait { secs: RETRY_DELAY_SECS }),
        k >= retries ==> settled(
            (Retry { retries, failures: 0 }).after_failures(k),
            Err(RpcError::Transport(reason)),
        ).1 == SubmitStep::Settled(SubmissionOutcome::Failed(reason)),
{
    lemma_retry_bound(retries, k + 1);
}

/// A submission that is given up does not end the pass: the seen-set stays as
/// it is, the machine goes on with the item after it, and the failure is told
/// of with the error of the last call.
pub proof fn lemma_failed_submission_goes_on(
    feed: RssList,
    batch: Batch,
    text: String,
    keys: Set<Seq<u8>>,
    inserted: Result<bool, StoreError>,
    sync2: FeedSync,
    keys2: Set<Seq<u8>>,
    action: FeedAction,
    notes: Seq<Note>,
)
    requires
        batch.retry.failures >= batch.retry.retries,
        submitted_step(
            feed,
            batch,
            Err::<RpcReply, String>(text),
            keys,
            inserted,
            sync2,
            keys2,
            action,
            notes,
        ),
    ensures
        keys2 == keys,
        proceeds(feed, batch.advanced(), sync2, action),
        notes == seq![
            Note::NotSubmitted { title: batch.queue@[batch.next as int].title, reason: text },
        ],
{
}

/// An item that the backend adds is recorded, counted and announced: where
/// its fingerprint could be put into the seen-set, it is there, the count is
/// one more, and the notification of the addition is asked for; where it
/// could not, the pass ends with the error of the seen-set.
pub proof fn lemma_addition_is_recorded_and_announced(
    feed: RssList,
    batch: Batch,
    reply: Result<RpcReply, String>,
    info_hash: String,
    keys: Set<Seq<u8>>,
    inserted: Result<bool, StoreError>,
    sync2: FeedSync,
    keys2: Set<Seq<u8>>,
    action: FeedAction,
    notes: Seq<Note>,
)
    requires
        judged(reply) == Ok::<SubmissionOutcome, RpcError>(SubmissionOutcome::Added(info_hash)),
        submitted_step(feed, batch, reply, keys, inserted, sync2, keys2, action, notes),
    ensures
        notes.len() == 0,
        match inserted {
            Ok(_) => {
                &&& keys2 == keys.insert(crate::store::key_of(info_hash@))
                &&& sync2 == FeedSync::Notifying(batch.counted())
                &&& action matches FeedAction::Notify { message }
                &&& message@ == downloading(batch.queue@[batch.next as int].title@)
            },
            Err(e) => sync2 == FeedSync::Done && action == FeedAction::Done(
                Err::<usize, FeedError>(FeedError::Store(e)),
            ),
        },
{
}

/// An item that the backend knows already is recorded in silence: where
/// its fingerprint could be put into the seen-set, it is there, nothing is
/// counted or announced, and the pass goes on with the item after it or with
/// the flush; where it could not, the pass ends with the error of the
/// seen-set. Either way the note tells of the known item.
pub proof fn lemma_known_item_is_recorded_in_silence(
    feed: RssList,
    batch: Batch,
    reply: Result<RpcReply, String>,
    info_hash: String,
    keys: Set<Seq<u8>>,
    inserted: Result<bool, StoreError>,
    sync2: FeedSync,
    keys2: Set<Seq<u8>>,
    action: FeedAction,
    notes: Seq<Note>,
)
    requires
        judged(reply) == Ok::<SubmissionOutcome, RpcError>(
            SubmissionOutcome::Duplicate(info_hash),
        ),
        submitted_step(feed, batch, reply, keys, inserted, sync2, keys2, action, notes),
    ensures
        notes == seq![Note::AlreadyKnown { info_hash }],
        !(action is Notify),
        match inserted {
            Ok(_) => {
                &&& keys2 == keys.insert(crate::store::key_of(info_hash@))
                &&& proceeds(feed, batch.advanced(), sync2, action)
                &&& batch.advanced().added == batch.added
            },
            Err(e) => sync2 == FeedSync::Done && action == FeedAction::Done(
                Err::<usize, FeedError>(FeedError::Store(e)),
            ),
        },
{
}

/// To submit again what the backend has added before changes nothing: the
/// backend answers with a duplicate, recording it leaves the seen-set as the
/// addition left it, with one entry for the fingerprint, and no notification
/// is sent for it.
pub proof fn lemma_resubmission_changes_nothing(
    feed: RssList,
    batch: Batch,
    info_hash: String,
    keys: Set<Seq<u8>>,
    first: Result<bool, StoreError>,
    keys1: Set<Seq<u8>>,
    second: Result<bool, StoreError>,
    keys2: Set<Seq<u8>>,
    sync2: FeedSync,
    action: FeedAction,
)
    requires
        first is Ok,
        records(keys, SubmissionOutcome::Added(info_hash), first, keys1),
        records(keys1, SubmissionOutcome::Duplicate(info_hash), second, keys2),
        recorded_step(feed, batch, SubmissionOutcome::Duplicate(info_hash), second, sync2, action),
    ensures
        keys1.contains(crate::store::key_of(info_hash@)),
        keys2 == keys1,
        second is Ok ==> second == Ok::<bool, StoreError>(false),
        !(action is Notify),
{
    assert(keys1.insert(crate::store::key_of(info_hash@)) =~= keys1);
}

/// A feed whose fetch fails ends its own pass with that failure and touches
/// nothing else: the seen-set stays as it was, so that the pass over any
/// other feed takes the same steps as if the failed one had not been tried.
pub proof fn lemma_failed_fetch_is_contained(
    feed: RssList,
    keys: Set<Seq<u8>>,
    e: FetchError,
    sync2: FeedSync,
    keys2: Set<Seq<u8>>,
    action: FeedAction,
    other: RssList,
    other_sync: FeedSync,
    other_event: FeedEvent,
    other_sync2: FeedSync,
    other_keys2: Set<Seq<u8>>,
    other_action: FeedAction,
    notes: Seq<Note>,
    other_notes: Seq<Note>,
)
    requires
        steps(
            feed,
            FeedSync::Fetching,
            keys,
            FeedEvent::Fetched(Err::<HttpResponse, FetchError>(e)),
            sync2,
            keys2,
            action,
            notes,
        ),
    ensures
        sync2 == FeedSync::Done,
        action == FeedAction::Done(Err::<usize, FeedError>(FeedError::Fetch(e))),
        keys2 == keys,
        steps(
            other,
            other_sync,
            keys2,
            other_event,
            other_sync2,
            other_keys2,
            other_action,
            other_notes,
        ) == steps(
            other,
            other_sync,
            keys,
            other_event,
            other_sync2,
            other_keys2,
            other_action,
            other_notes,
        ),
{
}

impl FeedSync {
    /// The start of the pass over `feed`: the feed document is asked for.
    pub fn start(feed: &RssList) -> (step: Step)
        ensures
            step.sync == FeedSync::Fetching,
            step.action == (FeedAction::Fetch { url: feed.url, retries: FEED_RETRIES }),
            step.notes@.len() == 0,
    {
        Step {
            sync: FeedSync::Fetching,
            action: FeedAction::Fetch { url: feed.url.clone(), retries: FEED_RETRIES },
            notes: Vec::new(),
        }
    }
}

impl Batch {
    /// A batch that has `queue` to submit and has not begun.
    pub fn new(queue: Vec<TorrentItem>) -> (batch: Batch)
        ensures
            batch == (Batch {
                queue,
                next: 0,
                retry: Retry { retries: SUBMIT_RETRIES, failures: 0 },
                added: 0,
            }),
    {
        Batch { queue, next: 0, retry: Retry::new(SUBMIT_RETRIES), added: 0 }
    }

    /// Whether an item is being submitted and the count fits.
    pub fn is_ready(&self) -> (r: bool)
        ensures
            r == self.ready(),
    {
        self.next < self.queue.len() && self.added <= self.next
    }

    /// Whether an addition is being announced and the count fits.
    pub fn is_announcing(&self) -> (r: bool)
        ensures
            r == self.announcing(),
    {
        self.next < self.queue.len() && self.added <= self.next + 1
    }
}

fn refuse() -> (r: (FeedSync, FeedAction))
    ensures
        refuses(r.0, r.1),
{
    (FeedSync::Done, FeedAction::Done(Err(FeedError::OutOfTurn)))
}

fn refused() -> (step: Step)
    ensures
        refuses(step.sync, step.action),
        step.notes@.len() == 0,
{
    Step {
        sync: FeedSync::Done,
        action: FeedAction::Done(Err(FeedError::OutOfTurn)),
        notes: Vec::new(),
    }
}

fn fail(e: StoreError) -> (r: (FeedSync, FeedAction))
    ensures
        r.0 == FeedSync::Done,
        r.1 == FeedAction::Done(Err::<usize, FeedError>(FeedError::Store(e))),
{
    (FeedSync::Done, FeedAction::Done(Err(FeedError::Store(e))))
}

/// The end of a pass in which `added` items were added, `flushed` being what
/// came of flushing the seen-set: the pass has `added` as its result where
/// the flush succeeded, and fails with the error of the flush where not.
pub fn finish(added: usize, flushed: Result<(), StoreError>) -> (r: (FeedSync, FeedAction))
    ensures
        flushed_step(added, flushed, r.0, r.1),
{
    match flushed {
        Ok(_) => (FeedSync::Done, FeedAction::Done(Ok(added))),
        Err(e) => fail(e),
    }
}

fn submit(feed: &RssList, batch: Batch) -> (r: (FeedSync, FeedAction))
    requires
        batch.next < batch.queue@.len(),
    ensures
        submits(*feed, batch, r.0, r.1),
{
    let resource = batch.queue[batch.next].magnet_link.clone();
    let download_dir = feed.download_dir.clone();
    (FeedSync::Submitting(batch), FeedAction::Submit { resource, download_dir })
}

fn proceed(feed: &RssList, batch: Batch) -> (r: (FeedSync, FeedAction))
    ensures
        proceeds(*feed, batch, r.0, r.1),
{
    if batch.next < batch.queue.len() {
        submit(feed, batch)
    } else {
        (FeedSync::Flushing { added: batch.added }, FeedAction::Flush)
    }
}

fn pending_items(items: &Vec<FeedItem>) -> (r: (Vec<Pending>, Vec<Note>))
    ensures
        pending_views(r.0@) == pending_of(items@, items.len() as int),
        r.1@ == unlinked(items@, items.len() as int),
{
    let mut pending: Vec<Pending> = Vec::new();
    let mut notes: Vec<Note> = Vec::new();
    let mut i: usize = 0;
    assert(pending_views(pending@) =~= Seq::<PendingView>::empty());
    while i < items.len()
        invariant
            i <= items.len(),
            pending_views(pending@) == pending_of(items@, i as int),
            notes@ == unlinked(items@, i as int),
        decreases items.len() - i,
    {
        let item = &items[i];
        let link = get_link(item);
        if link.unicode_len() != 0 {
            let title = match &item.title {
                Some(title) => title.clone(),
                None => String::new(),
            };
            let ghost before = pending@;
            pending.push(Pending { title, link: link.to_owned() });
            assert(pending_views(pending@) =~= pending_views(before).push(
                PendingView { title: title_of(*item), link: resolved_link(*item) },
            ));
        } else {
            let title = match &item.title {
                Some(title) => Some(title.clone()),
                None => None,
            };
            notes.push(Note::Unresolvable { title });
        }
        i = i + 1;
    }
    (pending, notes)
}

fn links(pending: &Vec<Pending>) -> (links: Vec<String>)
    ensures
        links@ == links_of(pending@),
{
    let mut links: Vec<String> = Vec::new();
    let mut i: usize = 0;
    while i < pending.len()
        invariant
            i <= pending.len(),
            links@ == links_of(pending@).take(i as int),
        decreases pending.len() - i,
    {
        links.push(pending[i].link.clone());
        assert(links@ =~= links_of(pending@).take(i + 1));
        i = i + 1;
    }
    assert(links@ =~= links_of(pending@));
    links
}

fn fetched_feed(fetched: Result<HttpResponse, FetchError>) -> (step: Step)
    ensures
        fetched_step(fetched, step.sync, step.action, step.notes@),
{
    match fetched {
        Err(e) => Step {
            sync: FeedSync::Done,
            action: FeedAction::Done(Err(FeedError::Fetch(e))),
            notes: Vec::new(),
        },
        Ok(response) => match parse_feed(response.body.as_slice()) {
            Err(e) => Step {
                sync: FeedSync::Done,
                action: FeedAction::Done(Err(FeedError::Parse(e))),
                notes: Vec::new(),
            },
            Ok(items) => {
                let (pending, notes) = pending_items(&items);
                let links = links(&pending);
                Step {
                    sync: FeedSync::Resolving { pending },
                    action: FeedAction::Resolve { links, retries: RESOURCE_RETRIES },
                    notes,
                }
            },
        },
    }
}

/// What the fetch of the torrent file of each of `pending` makes of it,
/// `results` holding the outcome of each fetch.
fn resolve_all(pending: &Vec<Pending>, results: &Vec<Result<HttpResponse, FetchError>>) -> (resolutions:
    Vec<Result<TorrentItem, ResolveError>>)
    requires
        pending@.len() == results@.len(),
    ensures
        all_resolve(pending@, results@, resolutions@),
{
    let mut resolutions: Vec<Result<TorrentItem, ResolveError>> = Vec::new();
    let mut i: usize = 0;
    while i < pending.len()
        invariant
            i <= pending.len(),
            pending@.len() == results@.len(),
            resolutions@.len() == i,
            forall|j: int|
                0 <= j < i ==> resolves(pending@[j], results@[j], #[trigger] resolutions@[j]),
        decreases pending.len() - i,
    {
        let resolution = TorrentItem::new(
            pending[i].link.clone(),
            pending[i].title.clone(),
            &results[i],
        );
        resolutions.push(resolution);
        i = i + 1;
    }
    resolutions
}

/// The items that resolved, and the notes on those that did not.
fn sort_out(pending: &Vec<Pending>, resolutions: Vec<Result<TorrentItem, ResolveError>>) -> (r: (
    Vec<TorrentItem>,
    Vec<Note>,
))
    requires
        pending@.len() == resolutions@.len(),
    ensures
        r.0@ == kept(resolutions@, resolutions@.len() as int),
        r.1@ == unresolved(pending@, resolutions@, resolutions@.len() as int),
{
    let mut candidates: Vec<TorrentItem> = Vec::new();
    let mut notes: Vec<Note> = Vec::new();
    let mut i: usize = 0;
    while i < resolutions.len()
        invariant
            i <= resolutions.len(),
            pending@.len() == resolutions@.len(),
            candidates@ == kept(resolutions@, i as int),
            notes@ == unresolved(pending@, resolutions@, i as int),
        decreases resolutions.len() - i,
    {
        match &resolutions[i] {
            Ok(item) => {
                candidates.push(item.copy());
            },
            Err(error) => {
                notes.push(Note::Unresolved { title: pending[i].title.clone(), error: error.copy() });
            },
        }
        i = i + 1;
    }
    (candidates, notes)
}

fn resolved_items(
    store: &SeenStore,
    feed: &RssList,
    pending: Vec<Pending>,
    results: Vec<Result<HttpResponse, FetchError>>,
) -> (step: Step)
    requires
        pending@.len() == results@.len(),
    ensures
        exists|
            resolutions: Seq<Result<TorrentItem, ResolveError>>,
            found: Seq<Result<bool, StoreError>>,
        | #[trigger]
            resolved_step(
                *feed,
                pending@,
                results@,
                store@,
                resolutions,
                found,
                step.sync,
                step.action,
                step.notes@,
            ),
{
    let resolutions = resolve_all(&pending, &results);
    let ghost resolved = resolutions@;
    let (candidates, mut notes) = sort_out(&pending, resolutions);
    let Selection { queue, notes: mut more } = select(store, &feed.filters, &candidates);
    let ghost found = choose|found: Seq<Result<bool, StoreError>>| #[trigger]
        lookups_agree(found, store@, views(candidates@)) && selects(
            found,
            feed.filters@,
            candidates@,
            Selection { queue, notes: more },
        );
    notes.append(&mut more);
    assert(notes@ =~= unresolved(pending@, resolved, resolved.len() as int) + unchecked(
        found,
        candidates@,
        candidates@.len() as int,
    ) + skipped(seen_of(found), feed.filters@, candidates@, candidates@.len() as int));
    assert(views(candidates@).len() == candidates.len());
    assert(views(queue@).len() == queue.len());
    let (sync, action) = proceed(feed, Batch::new(queue));
    let step = Step { sync, action, notes };
    assert(resolved_step(
        *feed,
        pending@,
        results@,
        store@,
        resolved,
        found,
        step.sync,
        step.action,
        step.notes@,
    ));
    step
}

/// What there is to tell of the outcome of the submission of the item at
/// `next` of `batch`.
fn tell(batch: &Batch, outcome: &SubmissionOutcome) -> (notes: Vec<Note>)
    requires
        batch.next < batch.queue@.len(),
    ensures
        notes@ == outcome_notes(*batch, *outcome),
{
    let mut notes: Vec<Note> = Vec::new();
    match outcome {
        SubmissionOutcome::Added(_) => {},
        SubmissionOutcome::Duplicate(info_hash) => {
            notes.push(Note::AlreadyKnown { info_hash: info_hash.clone() });
        },
        SubmissionOutcome::Failed(reason) => {
            notes.push(
                Note::NotSubmitted {
                    title: batch.queue[batch.next].title.clone(),
                    reason: reason.clone(),
                },
            );
        },
    }
    assert(notes@ =~= outcome_notes(*batch, *outcome));
    notes
}

/// Records the outcome of the submission of the item at `next` of `batch`,
/// `inserted` being what came of putting the outcome's fingerprint into the
/// seen-set (it is not looked at where the outcome is a failure). The pass
/// goes on with the next item, with the notification of an addition, or,
/// where the queue is used up, with the flush of the seen-set; it ends where
/// the seen-set could not be written. A batch in which no item is in turn is
/// refused.
pub fn recorded(
    feed: &RssList,
    batch: Batch,
    outcome: SubmissionOutcome,
    inserted: Result<bool, StoreError>,
) -> (r: (FeedSync, FeedAction))
    ensures
        if batch.ready() {
            recorded_step(*feed, batch, outcome, inserted, r.0, r.1)
        } else {
            refuses(r.0, r.1)
        },
{
    if !batch.is_ready() {
        return refuse();
    }
    match outcome {
        SubmissionOutcome::Failed(_) => proceed(feed, advance(batch)),
        SubmissionOutcome::Duplicate(_) => match inserted {
            Ok(_) => proceed(feed, advance(batch)),
            Err(e) => fail(e),
        },
        SubmissionOutcome::Added(_) => match inserted {
            Ok(_) => {
                assert(batch.added < batch.queue.len());
                let mut message = DOWNLOADING.to_owned();
                message.append(batch.queue[batch.next].title.as_str());
                let counted = Batch {
                    queue: batch.queue,
                    next: batch.next,
                    retry: batch.retry,
                    added: batch.added + 1,
                };
                (FeedSync::Notifying(counted), FeedAction::Notify { message })
            },
            Err(e) => fail(e),
        },
    }
}

fn advance(batch: Batch) -> (r: Batch)
    requires
        batch.next < batch.queue@.len(),
    ensures
        r == batch.advanced(),
{
    assert(batch.next < batch.queue.len());
    Batch {
        queue: batch.queue,
        next: batch.next + 1,
        retry: Retry::new(SUBMIT_RETRIES),
        added: batch.added,
    }
}

fn submitted(store: &mut SeenStore, feed: &RssList, batch: Batch, reply: Result<RpcReply, String>) -> (step:
    Step)
    requires
        batch.ready(),
    ensures
        exists|inserted: Result<bool, StoreError>| #[trigger]
            submitted_step(
                *feed,
                batch,
                reply,
                old(store)@,
                inserted,
                step.sync,
                final(store)@,
                step.action,
                step.notes@,
            ),
        final(store).recovered() == old(store).recovered(),
{
    let mut retry = batch.retry;
    match submit_with_retry(&mut retry, submission(reply)) {
        SubmitStep::Wait { secs } => {
            let waiting = Batch {
                queue: batch.queue,
                next: batch.next,
                retry,
                added: batch.added,
            };
            let step = Step {
                sync: FeedSync::Waiting(waiting),
                action: FeedAction::Sleep { secs },
                notes: Vec::new(),
            };
            assert(submitted_step(
                *feed,
                batch,
                reply,
                old(store)@,
                Ok::<bool, StoreError>(true),
                step.sync,
                store@,
                step.action,
                step.notes@,
            ));
            step
        },
        SubmitStep::Settled(outcome) => {
            let inserted = match &outcome {
                SubmissionOutcome::Added(info_hash) => store.insert(info_hash.as_str()),
                SubmissionOutcome::Duplicate(info_hash) => store.insert(info_hash.as_str()),
                SubmissionOutcome::Failed(_) => Ok(false),
            };
            let notes = tell(&batch, &outcome);
            let (sync, action) = recorded(feed, batch, outcome, inserted);
            let step = Step { sync, action, notes };
            assert(submitted_step(
                *feed,
                batch,
                reply,
                old(store)@,
                inserted,
                step.sync,
                store@,
                step.action,
                step.notes@,
            ));
            step
        },
    }
}

/// The steps of the pass that submit the selected items, one at a time, and
/// end it: the answer of the backend to a submission, the end of a wait
/// before a retry, the end of a notification, and what came of the flush of
/// the seen-set. Every other state or event is refused.
pub fn download_torrents(store: &mut SeenStore, feed: &RssList, sync: FeedSync, event: FeedEvent) -> (step:
    Step)
    ensures
        if sync is Submitting || sync is Waiting || sync is Notifying || sync is Flushing {
            steps(
                *feed,
                sync,
                old(store)@,
                event,
                step.sync,
                final(store)@,
                step.action,
                step.notes@,
            )
        } else {
            final(store)@ == old(store)@ && refuses(step.sync, step.action) && step.notes@.len()
                == 0
        },
        final(store).recovered() == old(store).recovered(),
{
    match (sync, event) {
        (FeedSync::Submitting(batch), FeedEvent::Submitted(reply)) => {
            if batch.is_ready() {
                submitted(store, feed, batch, reply)
            } else {
                refused()
            }
        },
        (FeedSync::Waiting(batch), FeedEvent::Woke) => {
            if batch.is_ready() {
                let (sync, action) = submit(feed, batch);
                Step { sync, action, notes: Vec::new() }
            } else {
                refused()
            }
        },
        (FeedSync::Notifying(batch), FeedEvent::Notified) => {
            if batch.is_announcing() {
                let (sync, action) = proceed(feed, advance(batch));
                Step { sync, action, notes: Vec::new() }
            } else {
                refused()
            }
        },
        (FeedSync::Flushing { added }, FeedEvent::Flushed(flushed)) => {
            let (sync, action) = finish(added, flushed);
            Step { sync, action, notes: Vec::new() }
        },
        _ => refused(),
    }
}

/// One step of the pass over `feed`: takes the state of the pass and the
/// event that answers the last action, and gives the next state, the next
/// action and what there is to tell of single items. The seen-set is read
/// when the resolved items are selected from and written when the backend
/// reports an item added or known. Its flush is asked for once, when the
/// last selected item is done with, and the result of the flush is the
/// result of the pass.
pub fn process_feed(store: &mut SeenStore, feed: &RssList, sync: FeedSync, event: FeedEvent) -> (step:
    Step)
    ensures
        steps(
            *feed,
            sync,
            old(store)@,
            event,
            step.sync,
            final(store)@,
            step.action,
            step.notes@,
        ),
        final(store).recovered() == old(store).recovered(),
{
    match (sync, event) {
        (FeedSync::Fetching, FeedEvent::Fetched(fetched)) => fetched_feed(fetched),
        (FeedSync::Resolving { pending }, FeedEvent::Resolved(results)) => {
            if pending.len() == results.len() {
                resolved_items(store, feed, pending, results)
            } else {
                refused()
            }
        },
        (FeedSync::Submitting(batch), event) => download_torrents(
            store,
            feed,
            FeedSync::Submitting(batch),
            event,
        ),
        (FeedSync::Waiting(batch), event) => download_torrents(
            store,
            feed,
            FeedSync::Waiting(batch),
            event,
        ),
        (FeedSync::Notifying(batch), event) => download_torrents(
            store,
            feed,
            FeedSync::Notifying(batch),
            event,
        ),
        (FeedSync::Flushing { added }, event) => download_torrents(
            store,
            feed,
            FeedSync::Flushing { added },
            event,
        ),
        _ => refused(),
    }
}

} // verus!
