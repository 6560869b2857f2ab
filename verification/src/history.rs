//! Lists as the outcome of a history of changes.
//!
//! A list changes by requests to add and to remove. This module replays
//! such a history and proves what holds of every list that came about this
//! way: names stay unique, and a list grown from the empty one holds its
//! entries in the order in which they were added.

use vstd::prelude::*;
use crate::config::{
    apply,
    law_removal_keeps_order,
    lemma_without_keeps_names,
    names_nonempty,
    names_unique,
    origin,
    Edit,
};
use crate::website::WebsiteView;

verus! {

/// The list that the changes `edits`, served in order, make of `start`.
pub open spec fn replay_from(start: Seq<WebsiteView>, edits: Seq<Edit>) -> Seq<WebsiteView>
    decreases edits.len(),
{
    if edits.len() == 0 {
        start
    } else {
        apply(replay_from(start, edits.drop_last()), edits.last())
    }
}

/// The list that the changes `edits`, served in order, make of the empty
/// list.
pub open spec fn replay(edits: Seq<Edit>) -> Seq<WebsiteView> {
    replay_from(Seq::empty(), edits)
}

/// The position in `edits` of the change that put the `k`-th entry of
/// `replay(edits)` into the list.
pub open spec fn born(edits: Seq<Edit>, k: int) -> int
    decreases edits.len(),
{
    if edits.len() == 0 {
        0
    } else {
        let earlier = edits.drop_last();
        match edits.last() {
            Edit::Add(_) => if k < replay(earlier).len() {
                born(earlier, k)
            } else {
                edits.len() - 1
            },
            Edit::Remove(name) => born(earlier, origin(replay(earlier), name, k)),
        }
    }
}

/// Insertion order: after any interleaving of additions and removals, every
/// entry of the list is there because of a request to add exactly that
/// website, and an entry that stands later in the list was added later.
pub proof fn law_insertion_order(edits: Seq<Edit>)
    ensures
        forall|k: int|
            0 <= k < replay(edits).len() ==> {
                let b = #[trigger] born(edits, k);
                &&& 0 <= b < edits.len()
                &&& edits[b] == Edit::Add(replay(edits)[k])
            },
        forall|k: int, l: int|
            0 <= k < l < replay(edits).len() ==> #[trigger] born(edits, k) < #[trigger] born(
                edits,
                l,
            ),
    decreases edits.len(),
{
    if edits.len() > 0 {
        let earlier = edits.drop_last();
        let before = replay(earlier);
        law_insertion_order(earlier);
        match edits.last() {
            Edit::Add(website) => {
                assert forall|k: int| 0 <= k < replay(edits).len() implies {
                    let b = #[trigger] born(edits, k);
                    &&& 0 <= b < edits.len()
                    &&& edits[b] == Edit::Add(replay(edits)[k])
                } by {
                    if k < before.len() {
                        let b = born(earlier, k);
                        assert(edits[b] == earlier[b]);
                    }
                }
                assert forall|k: int, l: int|
                    0 <= k < l < replay(edits).len() implies #[trigger] born(edits, k)
                    < #[trigger] born(edits, l) by {
                    if l < before.len() {
                        assert(born(earlier, k) < born(earlier, l));
                    } else {
                        assert(born(earlier, k) < earlier.len());
                    }
                }
            },
            Edit::Remove(name) => {
                law_removal_keeps_order(before, name);
                assert forall|k: int| 0 <= k < replay(edits).len() implies {
                    let b = #[trigger] born(edits, k);
                    &&& 0 <= b < edits.len()
                    &&& edits[b] == Edit::Add(replay(edits)[k])
                } by {
                    let a = origin(before, name, k);
                    let b = born(earlier, a);
                    assert(edits[b] == earlier[b]);
                }
                assert forall|k: int, l: int|
                    0 <= k < l < replay(edits).len() implies #[trigger] born(edits, k)
                    < #[trigger] born(edits, l) by {
                    let a = origin(before, name, k);
                    let c = origin(before, name, l);
                    assert(born(earlier, a) < born(earlier, c));
                }
            },
        }
    }
}

/// Names stay non-empty: where every entry has a name and every website to
/// add has one, every entry still has one after any interleaving of
/// additions and removals.
pub proof fn law_names_stay_nonempty(start: Seq<WebsiteView>, edits: Seq<Edit>)
    requires
        names_nonempty(start),
        forall|i: int|
            0 <= i < edits.len() ==> (#[trigger] edits[i] matches Edit::Add(website)
                ==> website.name.len() > 0),
    ensures
        names_nonempty(replay_from(start, edits)),
    decreases edits.len(),
{
    if edits.len() > 0 {
        let earlier = edits.drop_last();
        let before = replay_from(start, earlier);
        assert forall|i: int| 0 <= i < earlier.len() implies (#[trigger] earlier[i] matches
            Edit::Add(website) ==> website.name.len() > 0) by {
            assert(earlier[i] == edits[i]);
        }
        law_names_stay_nonempty(start, earlier);
        match edits.last() {
            Edit::Add(website) => {
                assert(edits[edits.len() - 1] == Edit::Add(website));
            },
            Edit::Remove(name) => {
                lemma_without_keeps_names(before, name);
            },
        }
    }
}

/// Uniqueness: a list without a repeated name has none after any
/// interleaving of additions and removals.
pub proof fn law_names_stay_unique(start: Seq<WebsiteView>, edits: Seq<Edit>)
    requires
        names_unique(start),
    ensures
        names_unique(replay_from(start, edits)),
    decreases edits.len(),
{
    if edits.len() > 0 {
        let before = replay_from(start, edits.drop_last());
        law_names_stay_unique(start, edits.drop_last());
        match edits.last() {
            Edit::Add(website) => {},
            Edit::Remove(name) => {
                lemma_without_keeps_names(before, name);
            },
        }
    }
}

} // verus!
