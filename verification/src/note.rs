//! What a pass over a feed has to tell of single items: what was left out or
//! passed over, and why. None of it ends the pass.
use crate::store::StoreError;
use crate::torrent::ResolveError;
use vstd::prelude::*;

verus! {

/// Something that happened to one item in a pass.
#[derive(Clone, Debug, PartialEq)]
pub enum Note {
    /// The item has neither a torrent enclosure nor a link, and is left out.
    Unresolvable { title: Option<String> },
    /// The torrent file of the item could not be had, and the item is left
    /// out.
    Unresolved { title: String, error: ResolveError },
    /// The item could not be looked up in the seen-set, and is taken for one
    /// that is not in it.
    Unchecked { title: String, error: StoreError },
    /// The title of the item passes no filter, and the item is left out.
    Filtered { title: String },
    /// The item could not be submitted, and is passed over.
    NotSubmitted { title: String, reason: String },
    /// The backend knew the item already.
    AlreadyKnown { info_hash: String },
}

} // verus!
