//! Which resolved items of a feed are submitted: those that are not in the
//! seen-set, whose title passes the feed's filters, and whose fingerprint no
//! earlier item of the same pass has.
use crate::note::Note;
use crate::store::{key_of, lookup_agrees, SeenStore, StoreError};
use crate::text::{contains, occurs_in, same_text};
use crate::torrent::{views, TorrentItem, TorrentView};
use vstd::prelude::*;

verus! {

/// Whether `title` passes `filters`: every title passes an empty list, and a
/// list of filters lets a title pass that contains at least one of them.
pub open spec fn title_passes(filters: Seq<String>, title: Seq<char>) -> bool {
    filters.len() == 0 || exists|k: int|
        0 <= k < filters.len() && occurs_in(#[trigger] filters[k]@, title)
}

/// Whether the item at `i` was found in the seen-set, `seen` holding the
/// outcome of the lookup of each item.
pub open spec fn seen_at(seen: Seq<bool>, i: int) -> bool {
    0 <= i < seen.len() && seen[i]
}

/// Whether the item at `i` is a candidate for submission by itself: it was
/// not found in the seen-set, and its title passes the filters.
pub open spec fn eligible(
    seen: Seq<bool>,
    filters: Seq<String>,
    items: Seq<TorrentView>,
    i: int,
) -> bool {
    !seen_at(seen, i) && title_passes(filters, items[i].title)
}

/// Whether an item before `n` is eligible and has the fingerprint
/// `info_hash`.
pub open spec fn eligible_before(
    seen: Seq<bool>,
    filters: Seq<String>,
    items: Seq<TorrentView>,
    n: int,
    info_hash: Seq<char>,
) -> bool {
    exists|j: int|
        0 <= j < n && #[trigger] eligible(seen, filters, items, j) && items[j].info_hash
            == info_hash
}

/// Whether the item at `i` is submitted: it is eligible, and the first
/// eligible item with its fingerprint.
pub open spec fn selected(
    seen: Seq<bool>,
    filters: Seq<String>,
    items: Seq<TorrentView>,
    i: int,
) -> bool {
    eligible(seen, filters, items, i) && !eligible_before(
        seen,
        filters,
        items,
        i,
        items[i].info_hash,
    )
}

/// The items among the first `n` of `items` that are submitted, in order.
pub open spec fn selection(
    seen: Seq<bool>,
    filters: Seq<String>,
    items: Seq<TorrentView>,
    n: int,
) -> Seq<TorrentView>
    decreases n,
{
    if n <= 0 {
        Seq::empty()
    } else if selected(seen, filters, items, n - 1) {
        selection(seen, filters, items, n - 1).push(items[n - 1])
    } else {
        selection(seen, filters, items, n - 1)
    }
}

/// Whether `queue` holds an item with the fingerprint `info_hash`.
pub open spec fn holds(queue: Seq<TorrentView>, info_hash: Seq<char>) -> bool {
    exists|k: int| 0 <= k < queue.len() && (#[trigger] queue[k]).info_hash == info_hash
}

/// Whether `found` is what looking each of `items` up in a seen-set with the
/// keys `keys` can give: one outcome for each item, and right where it is no
/// error.
pub open spec fn lookups_agree(
    found: Seq<Result<bool, StoreError>>,
    keys: Set<Seq<u8>>,
    items: Seq<TorrentView>,
) -> bool {
    &&& found.len() == items.len()
    &&& forall|i: int|
        0 <= i < found.len() ==> lookup_agrees(keys, items[i].info_hash, #[trigger] found[i])
}

/// Whether the lookup with the outcome `found` shows the item to be in the
/// seen-set: it does when it succeeded and found it.
pub open spec fn is_seen(found: Result<bool, StoreError>) -> bool {
    found matches Ok(true)
}

/// Of each item whether it counts as found in the seen-set, `found` holding
/// the outcome of its lookup.
pub open spec fn seen_of(found: Seq<Result<bool, StoreError>>) -> Seq<bool> {
    found.map_values(|outcome: Result<bool, StoreError>| is_seen(outcome))
}

/// The notes on the lookups that failed among the first `n` of `items`, in
/// order.
pub open spec fn unchecked(found: Seq<Result<bool, StoreError>>, items: Seq<TorrentItem>, n: int) -> Seq<
    Note,
>
    decreases n,
{
    if n <= 0 {
        Seq::empty()
    } else {
        match found[n - 1] {
            Err(error) => unchecked(found, items, n - 1).push(
                Note::Unchecked { title: items[n - 1].title, error },
            ),
            Ok(_) => unchecked(found, items, n - 1),
        }
    }
}

/// The notes on those of the first `n` of `items` that are left out for
/// their title: they were not found in the seen-set, and their title passes
/// no filter.
pub open spec fn skipped(seen: Seq<bool>, filters: Seq<String>, items: Seq<TorrentItem>, n: int) -> Seq<
    Note,
>
    decreases n,
{
    if n <= 0 {
        Seq::empty()
    } else if !seen_at(seen, n - 1) && !title_passes(filters, items[n - 1].title@) {
        skipped(seen, filters, items, n - 1).push(Note::Filtered { title: items[n - 1].title })
    } else {
        skipped(seen, filters, items, n - 1)
    }
}

/// Whether `title` passes `filters`.
pub fn passes(filters: &Vec<String>, title: &str) -> (r: bool)
    ensures
        r == title_passes(filters@, title@),
{
    if filters.len() == 0 {
        return true;
    }
    let mut k: usize = 0;
    while k < filters.len()
        invariant
            k <= filters.len(),
            forall|j: int| 0 <= j < k ==> !occurs_in(#[trigger] filters@[j]@, title@),
        decreases filters.len() - k,
    {
        if contains(title, filters[k].as_str()) {
            return true;
        }
        k = k + 1;
    }
    false
}

/// Whether `queue` holds an item with the fingerprint `info_hash`.
pub fn queued(queue: &Vec<TorrentItem>, info_hash: &str) -> (r: bool)
    ensures
        r == holds(views(queue@), info_hash@),
{
    let mut k: usize = 0;
    while k < queue.len()
        invariant
            k <= queue.len(),
            forall|j: int| 0 <= j < k ==> (#[trigger] views(queue@)[j]).info_hash != info_hash@,
        decreases queue.len() - k,
    {
        if same_text(queue[k].info_hash.as_str(), info_hash) {
            assert(views(queue@)[k as int].info_hash == info_hash@);
            return true;
        }
        k = k + 1;
    }
    false
}

/// The queue of the items selected so far holds a fingerprint exactly when an
/// eligible item so far has it.
pub proof fn lemma_selection_holds(
    seen: Seq<bool>,
    filters: Seq<String>,
    items: Seq<TorrentView>,
    n: int,
    info_hash: Seq<char>,
)
    ensures
        holds(selection(seen, filters, items, n), info_hash) == eligible_before(
            seen,
            filters,
            items,
            n,
            info_hash,
        ),
    decreases n,
{
    if n <= 0 {
    } else {
        let before = selection(seen, filters, items, n - 1);
        let now = selection(seen, filters, items, n);
        lemma_selection_holds(seen, filters, items, n - 1, info_hash);
        lemma_selection_holds(seen, filters, items, n - 1, items[n - 1].info_hash);
        if eligible_before(seen, filters, items, n, info_hash) {
            let j = choose|j: int|
                0 <= j < n && #[trigger] eligible(seen, filters, items, j) && items[j].info_hash
                    == info_hash;
            if j < n - 1 {
                assert(eligible_before(seen, filters, items, n - 1, info_hash));
            } else if !selected(seen, filters, items, n - 1) {
                assert(eligible_before(seen, filters, items, n - 1, info_hash));
            }
            if holds(before, info_hash) {
                let k = choose|k: int|
                    0 <= k < before.len() && (#[trigger] before[k]).info_hash == info_hash;
                assert(now[k] == before[k]);
            } else {
                assert(now[now.len() - 1].info_hash == info_hash);
            }
        }
        if holds(now, info_hash) {
            let k = choose|k: int|
                0 <= k < now.len() && (#[trigger] now[k]).info_hash == info_hash;
            if k < before.len() {
                assert(before[k] == now[k]);
                assert(holds(before, info_hash));
                let j = choose|j: int|
                    0 <= j < n - 1 && #[trigger] eligible(seen, filters, items, j)
                        && items[j].info_hash == info_hash;
                assert(eligible(seen, filters, items, j));
            } else {
                assert(eligible(seen, filters, items, n - 1));
            }
        }
    }
}

/// No two selected items have the same fingerprint.
pub proof fn lemma_selection_is_distinct(
    seen: Seq<bool>,
    filters: Seq<String>,
    items: Seq<TorrentView>,
    n: int,
    a: int,
    b: int,
)
    requires
        0 <= a < b < selection(seen, filters, items, n).len(),
    ensures
        selection(seen, filters, items, n)[a].info_hash != selection(
            seen,
            filters,
            items,
            n,
        )[b].info_hash,
    decreases n,
{
    if n > 0 {
        let before = selection(seen, filters, items, n - 1);
        if b < before.len() {
            lemma_selection_is_distinct(seen, filters, items, n - 1, a, b);
        } else {
            lemma_selection_holds(seen, filters, items, n - 1, items[n - 1].info_hash);
            assert(before[a].info_hash != items[n - 1].info_hash);
        }
    }
}

/// Dedup goes by the fingerprint: of the items of one pass that have the same
/// fingerprint, whatever their links and titles, exactly one is submitted if
/// any of them is eligible, and none otherwise.
pub proof fn lemma_one_submission_per_fingerprint(
    seen: Seq<bool>,
    filters: Seq<String>,
    items: Seq<TorrentView>,
    info_hash: Seq<char>,
)
    ensures
        holds(selection(seen, filters, items, items.len() as int), info_hash) == eligible_before(
            seen,
            filters,
            items,
            items.len() as int,
            info_hash,
        ),
        forall|a: int, b: int|
            #![trigger
                selection(seen, filters, items, items.len() as int)[a],
                selection(seen, filters, items, items.len() as int)[b],
            ]
            0 <= a < selection(seen, filters, items, items.len() as int).len() && 0 <= b
                < selection(seen, filters, items, items.len() as int).len() && selection(
                seen,
                filters,
                items,
                items.len() as int,
            )[a].info_hash == info_hash && selection(
                seen,
                filters,
                items,
                items.len() as int,
            )[b].info_hash == info_hash ==> a == b,
{
    let n = items.len() as int;
    let chosen = selection(seen, filters, items, n);
    lemma_selection_holds(seen, filters, items, n, info_hash);
    assert forall|a: int, b: int|
        0 <= a < chosen.len() && 0 <= b < chosen.len() && chosen[a].info_hash == info_hash
            && chosen[b].info_hash == info_hash implies a == b by {
        if a < b {
            lemma_selection_is_distinct(seen, filters, items, n, a, b);
        } else if b < a {
            lemma_selection_is_distinct(seen, filters, items, n, b, a);
        }
    }
}

/// What is in the seen-set is not submitted again: where every item with the
/// fingerprint `info_hash` was found in the seen-set, no selected item has
/// that fingerprint.
pub proof fn lemma_seen_is_not_selected(
    seen: Seq<bool>,
    filters: Seq<String>,
    items: Seq<TorrentView>,
    info_hash: Seq<char>,
)
    requires
        forall|j: int|
            0 <= j < items.len() && (#[trigger] items[j]).info_hash == info_hash ==> seen_at(
                seen,
                j,
            ),
    ensures
        !holds(selection(seen, filters, items, items.len() as int), info_hash),
{
    lemma_selection_holds(seen, filters, items, items.len() as int, info_hash);
    if eligible_before(seen, filters, items, items.len() as int, info_hash) {
        let j = choose|j: int|
            0 <= j < items.len() && #[trigger] eligible(seen, filters, items, j)
                && items[j].info_hash == info_hash;
        assert(seen_at(seen, j));
    }
}

/// Selects from `candidates` the items to submit, `seen` telling of each
/// whether it was found in the seen-set (an item without an entry in `seen`
/// counts as not found). An item is selected when it was not found, its title
/// passes `filters`, and no earlier such item has its fingerprint. The
/// selected items keep their order.
pub fn select_with(seen: &Vec<bool>, filters: &Vec<String>, candidates: &Vec<TorrentItem>) -> (queue:
    Vec<TorrentItem>)
    ensures
        views(queue@) == selection(seen@, filters@, views(candidates@), candidates.len() as int),
{
    let mut queue: Vec<TorrentItem> = Vec::new();
    let mut i: usize = 0;
    assert(views(queue@) =~= Seq::<TorrentView>::empty());
    while i < candidates.len()
        invariant
            i <= candidates.len(),
            views(queue@) == selection(seen@, filters@, views(candidates@), i as int),
        decreases candidates.len() - i,
    {
        let item = &candidates[i];
        let found = i < seen.len() && seen[i];
        assert(views(candidates@)[i as int] == item@);
        proof {
            lemma_selection_holds(seen@, filters@, views(candidates@), i as int, item.info_hash@);
        }
        if !found && passes(filters, item.title.as_str()) && !queued(
            &queue,
            item.info_hash.as_str(),
        ) {
            let ghost before = queue@;
            queue.push(item.copy());
            assert(views(queue@) =~= views(before).push(item@));
        }
        i = i + 1;
    }
    queue
}

/// The notes on those of `candidates` that are left out for their title.
pub fn skipped_notes(seen: &Vec<bool>, filters: &Vec<String>, candidates: &Vec<TorrentItem>) -> (notes:
    Vec<Note>)
    ensures
        notes@ == skipped(seen@, filters@, candidates@, candidates.len() as int),
{
    let mut notes: Vec<Note> = Vec::new();
    let mut i: usize = 0;
    while i < candidates.len()
        invariant
            i <= candidates.len(),
            notes@ == skipped(seen@, filters@, candidates@, i as int),
        decreases candidates.len() - i,
    {
        let found = i < seen.len() && seen[i];
        if !found && !passes(filters, candidates[i].title.as_str()) {
            notes.push(Note::Filtered { title: candidates[i].title.clone() });
        }
        i = i + 1;
    }
    notes
}

/// What came of selecting the items to submit.
#[derive(Clone, Debug, PartialEq)]
pub struct Selection {
    /// The items to submit, in the order in which they were found.
    pub queue: Vec<TorrentItem>,
    /// What there is to tell of the items that are not among them.
    pub notes: Vec<Note>,
}

/// Whether `selection` is what selecting from `items` gives under `filters`,
/// `found` holding the outcome of the lookup of each item: the queue holds
/// the selected items, and the notes tell first of the lookups that failed,
/// then of the items that are left out for their title.
pub open spec fn selects(
    found: Seq<Result<bool, StoreError>>,
    filters: Seq<String>,
    items: Seq<TorrentItem>,
    selection: Selection,
) -> bool {
    &&& views(selection.queue@) == self::selection(
        seen_of(found),
        filters,
        views(items),
        items.len() as int,
    )
    &&& selection.notes@ == unchecked(found, items, items.len() as int) + skipped(
        seen_of(found),
        filters,
        items,
        items.len() as int,
    )
}

/// Selects from `candidates` the items to submit, looking each up in `store`
/// (a lookup that fails counts as not found, and is told of in the notes) and
/// going on as [`select_with`].
pub fn select(store: &SeenStore, filters: &Vec<String>, candidates: &Vec<TorrentItem>) -> (r:
    Selection)
    ensures
        exists|found: Seq<Result<bool, StoreError>>| #[trigger]
            lookups_agree(found, store@, views(candidates@)) && selects(
                found,
                filters@,
                candidates@,
                r,
            ),
{
    let mut seen: Vec<bool> = Vec::new();
    let mut notes: Vec<Note> = Vec::new();
    let ghost mut found: Seq<Result<bool, StoreError>> = Seq::empty();
    let mut i: usize = 0;
    assert(seen@ =~= seen_of(found));
    while i < candidates.len()
        invariant
            i <= candidates.len(),
            found.len() == i,
            forall|j: int|
                0 <= j < i ==> lookup_agrees(
                    store@,
                    views(candidates@)[j].info_hash,
                    #[trigger] found[j],
                ),
            seen@ == seen_of(found),
            notes@ == unchecked(found, candidates@, i as int),
        decreases candidates.len() - i,
    {
        let outcome = store.lookup(candidates[i].info_hash.as_str());
        let ghost before = found;
        proof {
            found = found.push(outcome);
            assert(found.drop_last() == before);
            assert(unchecked(found, candidates@, i as int) == unchecked(
                before,
                candidates@,
                i as int,
            )) by {
                lemma_unchecked_prefix(before, found, candidates@, i as int);
            }
        }
        seen.push(crate::store::seen(&outcome));
        assert(seen@ =~= seen_of(found));
        match outcome {
            Ok(_) => {},
            Err(error) => {
                notes.push(Note::Unchecked { title: candidates[i].title.clone(), error });
            },
        }
        i = i + 1;
    }
    assert(lookups_agree(found, store@, views(candidates@)));
    let queue = select_with(&seen, filters, candidates);
    let mut left_out = skipped_notes(&seen, filters, candidates);
    notes.append(&mut left_out);
    Selection { queue, notes }
}

/// Where no lookup failed, an item counts as found in the seen-set exactly
/// when it is there.
pub proof fn lemma_lookups_without_failure_are_exact(
    found: Seq<Result<bool, StoreError>>,
    keys: Set<Seq<u8>>,
    items: Seq<TorrentItem>,
    i: int,
)
    requires
        lookups_agree(found, keys, views(items)),
        unchecked(found, items, items.len() as int).len() == 0,
        0 <= i < items.len(),
    ensures
        seen_of(found)[i] == keys.contains(key_of(items[i].info_hash@)),
{
    lemma_unchecked_counts(found, items, items.len() as int, i);
}

/// Every failed lookup among the first `n` has its note.
proof fn lemma_unchecked_counts(
    found: Seq<Result<bool, StoreError>>,
    items: Seq<TorrentItem>,
    n: int,
    i: int,
)
    requires
        0 <= i < n,
        unchecked(found, items, n).len() == 0,
    ensures
        found[i] is Ok,
    decreases n,
{
    if i < n - 1 {
        lemma_unchecked_counts(found, items, n - 1, i);
    }
}

/// The notes on the first `n` lookups depend on these lookups alone.
proof fn lemma_unchecked_prefix(
    found: Seq<Result<bool, StoreError>>,
    longer: Seq<Result<bool, StoreError>>,
    items: Seq<TorrentItem>,
    n: int,
)
    requires
        n <= found.len() <= longer.len(),
        forall|j: int| 0 <= j < n ==> found[j] == longer[j],
    ensures
        unchecked(found, items, n) == unchecked(longer, items, n),
    decreases n,
{
    if n > 0 {
        lemma_unchecked_prefix(found, longer, items, n - 1);
    }
}

} // verus!
