//! What holds of every session, whatever it was asked and whatever the
//! outside world answered.

use vstd::prelude::*;
use crate::config::{has_name, lemma_without_absent};
use crate::dispatch::{
    add_effects,
    after_add,
    after_del,
    bootstrap_effects,
    closing_effects,
    del_effects,
    effects_of,
    next_session,
    SessionView,
    Stage,
};
use crate::effects::{stored_after, EffectView, EventView};
use crate::selection::SelectionView;
use crate::website::WebsiteView;

verus! {

/// Carrying out one batch after another is carrying out both in a row.
pub proof fn lemma_stored_after_concat(
    stored: Seq<WebsiteView>,
    first: Seq<EffectView>,
    second: Seq<EffectView>,
)
    ensures
        stored_after(stored, first + second) == stored_after(stored_after(stored, first), second),
    decreases second.len(),
{
    if second.len() == 0 {
        assert(first + second =~= first);
    } else {
        assert((first + second).drop_last() =~= first + second.drop_last());
        assert((first + second).last() == second.last());
        lemma_stored_after_concat(stored, first, second.drop_last());
    }
}

/// Effects that ask for no rewrite leave the store as it was.
pub proof fn lemma_stored_after_no_save(stored: Seq<WebsiteView>, effects: Seq<EffectView>)
    requires
        forall|i: int| 0 <= i < effects.len() ==> !(#[trigger] effects[i] is Save),
    ensures
        stored_after(stored, effects) == stored,
    decreases effects.len(),
{
    if effects.len() > 0 {
        assert(!(effects[effects.len() - 1] is Save));
        lemma_stored_after_no_save(stored, effects.drop_last());
    }
}

/// The store follows the list: once the effects of loading were carried
/// out, the store holds exactly the session's list. Where the loaded list is
/// empty this is so whatever the store held before.
pub proof fn law_store_follows_list(
    session: SessionView,
    loaded: Seq<WebsiteView>,
    stored: Seq<WebsiteView>,
)
    requires
        session.stage == Stage::Loading,
        stored == loaded || loaded.len() == 0,
    ensures
        stored_after(stored, effects_of(session, EventView::Loaded(loaded))) == next_session(
            session,
            EventView::Loaded(loaded),
        ).config,
{
    let args = session.args;
    let added = after_add(loaded, args.add_request());
    let settled = after_del(added, args.del);
    let boot = bootstrap_effects(loaded);
    let adding = add_effects(loaded, args.add_request());
    let removing = del_effects(added, args.del);
    let rest = if args.open {
        seq![EffectView::Select(crate::config::names(settled))]
    } else {
        closing_effects(settled, args.list)
    };
    assert(effects_of(session, EventView::Loaded(loaded)) == boot + adding + removing + rest);
    lemma_stored_after_concat(stored, boot + adding + removing, rest);
    lemma_stored_after_concat(stored, boot + adding, removing);
    lemma_stored_after_concat(stored, boot, adding);
    let s0 = stored_after(stored, boot);
    assert(s0 == loaded) by {
        reveal_with_fuel(stored_after, 3);
    }
    let s1 = stored_after(s0, adding);
    assert(s1 == added) by {
        reveal_with_fuel(stored_after, 4);
        match args.add_request() {
            Some((name, url)) => {
                if !has_name(loaded, name) {
                    assert(adding.drop_last().last() is Save);
                }
            },
            None => {},
        }
    }
    let s2 = stored_after(s1, removing);
    assert(s2 == settled) by {
        reveal_with_fuel(stored_after, 4);
        match args.del {
            Some(name) => {
                lemma_without_absent(added, name);
                if has_name(added, name) {
                    assert(removing.drop_last().last() is Save);
                }
            },
            None => {},
        }
    }
    lemma_stored_after_no_save(s2, rest);
}

/// Round trip: a session that is asked neither to add nor to remove holds,
/// once it has loaded, exactly the stored entries in the stored order, and
/// leaves them in the store.
pub proof fn law_stored_list_loads_unchanged(session: SessionView, stored: Seq<WebsiteView>)
    requires
        session.stage == Stage::Loading,
        session.args.add_request() is None,
        session.args.del is None,
    ensures
        next_session(session, EventView::Loaded(stored)).config == stored,
        stored_after(stored, effects_of(session, EventView::Loaded(stored))) == stored,
{
    law_store_follows_list(session, stored, stored);
}

/// Only loading stores: no answer of the picker or of the launcher changes
/// the list or asks for the store to be rewritten.
pub proof fn law_only_loading_stores(session: SessionView, event: EventView)
    requires
        session.stage != Stage::Loading,
    ensures
        next_session(session, event).config == session.config,
        next_session(session, event).args == session.args,
        forall|i: int|
            0 <= i < effects_of(session, event).len() ==> !(#[trigger] effects_of(session, event)[i]
                is Save),
{
}

/// A refused request stores nothing: adding a taken name, or removing a
/// name that no entry has, leaves the list as it was and asks for no
/// rewrite of the store.
pub proof fn law_refused_requests_store_nothing(
    entries: Seq<WebsiteView>,
    name: Seq<char>,
    url: Seq<char>,
)
    ensures
        has_name(entries, name) ==> {
            &&& after_add(entries, Some((name, url))) == entries
            &&& forall|i: int|
                0 <= i < add_effects(entries, Some((name, url))).len() ==> !(#[trigger] add_effects(
                    entries,
                    Some((name, url)),
                )[i] is Save)
        },
        !has_name(entries, name) ==> {
            &&& after_del(entries, Some(name)) == entries
            &&& forall|i: int|
                0 <= i < del_effects(entries, Some(name)).len() ==> !(#[trigger] del_effects(
                    entries,
                    Some(name),
                )[i] is Save)
        },
{
    lemma_without_absent(entries, name);
}

/// First run: a session that loads an empty list asks first of all for the
/// empty list to be stored.
pub proof fn law_first_run_stores_empty_list(session: SessionView, loaded: Seq<WebsiteView>)
    requires
        session.stage == Stage::Loading,
        loaded.len() == 0,
    ensures
        effects_of(session, EventView::Loaded(loaded)).len() > 0,
        effects_of(session, EventView::Loaded(loaded))[0] == EffectView::Save(
            Seq::<WebsiteView>::empty(),
        ),
{
    assert(loaded =~= Seq::<WebsiteView>::empty());
}

/// The answer that a session in `stage` waits for.
pub open spec fn awaited(stage: Stage, event: EventView) -> bool {
    match (stage, event) {
        (Stage::Loading, EventView::Loaded(_)) => true,
        (Stage::Selecting, EventView::Selected(_)) => true,
        (Stage::Launching, EventView::Launched(_)) => true,
        _ => false,
    }
}

/// Shape of a batch: an answer out of turn calls for nothing and changes
/// nothing. The awaited answer calls for at least one effect; the last one,
/// and no other, waits for an answer or ends the process, and the session
/// waits for just that answer.
pub proof fn law_batch_shape(session: SessionView, event: EventView)
    ensures
        !awaited(session.stage, event) ==> effects_of(session, event).len() == 0 && next_session(
            session,
            event,
        ) == session,
        awaited(session.stage, event) ==> {
            let batch = effects_of(session, event);
            let stage = next_session(session, event).stage;
            &&& batch.len() > 0
            &&& forall|i: int| 0 <= i < batch.len() - 1 ==> !(#[trigger] batch[i]).closes()
            &&& match batch.last() {
                EffectView::Select(_) => stage == Stage::Selecting,
                EffectView::Launch(_) => stage == Stage::Launching,
                EffectView::Exit(_) => stage == Stage::Finished,
                _ => false,
            }
        },
{
}

/// Nothing chosen, nothing opened: when the picker was cancelled or
/// confirmed empty, the session says nothing about a selection, opens no
/// URL and ends normally.
pub proof fn law_no_choice_opens_nothing(session: SessionView, selection: SelectionView)
    requires
        session.stage == Stage::Selecting,
        !(selection is Chosen),
    ensures
        effects_of(session, EventView::Selected(selection)) == closing_effects(
            session.config,
            session.args.list,
        ),
        next_session(session, EventView::Selected(selection)).stage == Stage::Finished,
{
    assert(effects_of(session, EventView::Selected(selection)) =~= closing_effects(
        session.config,
        session.args.list,
    ));
}

} // verus!
