//! One invocation, step by step.
//!
//! A [`Session`] holds the requests of an invocation and the list they work
//! on. [`run`] takes what the outside world answered (the stored list, the
//! picker's answer, the result of opening a URL) and gives back the effects
//! to carry out next, in order. The last effect of a batch says how to go
//! on: prompt for a selection, open a URL, or exit.

use vstd::prelude::*;
use crate::args::{Args, ArgsView};
use crate::config::{
    apply,
    has_name,
    launch_target,
    names,
    AddOutcome,
    Config,
    Edit,
    RemoveOutcome,
};
use crate::effects::{Effect, EffectView, Event, EventView, LaunchOutcome, LaunchOutcomeView};
use crate::message::{
    added,
    added_text,
    deleted,
    deleted_text,
    duplicate,
    duplicate_text,
    launch_failed,
    launch_failed_text,
    not_found,
    not_found_text,
    selected,
    selected_text,
};
use crate::selection::{Selection, SelectionView};
use crate::table::{table, table_text};
use crate::website::WebsiteView;

verus! {

/// What a session is waiting for.
#[derive(Debug, Clone, Copy, PartialEq, Eq, Structural)]
pub enum Stage {
    /// The stored list.
    Loading,
    /// The picker's answer.
    Selecting,
    /// The result of opening a URL.
    Launching,
    /// Nothing: the invocation is over.
    Finished,
}

/// One invocation in progress.
#[derive(Debug)]
pub struct Session {
    args: Args,
    config: Config,
    stage: Stage,
}

/// The mathematical content of a [`Session`].
pub struct SessionView {
    pub args: ArgsView,
    pub config: Seq<WebsiteView>,
    pub stage: Stage,
}

impl View for Session {
    type V = SessionView;

    closed spec fn view(&self) -> SessionView {
        SessionView { args: self.args@, config: self.config@, stage: self.stage }
    }
}

/// A first run stores its empty list, so that the store exists from then on.
pub open spec fn bootstrap_effects(entries: Seq<WebsiteView>) -> Seq<EffectView> {
    if entries.len() == 0 {
        seq![EffectView::Save(entries)]
    } else {
        Seq::empty()
    }
}

/// The list after a request to add: one entry longer unless nothing was
/// asked or the name was taken.
pub open spec fn after_add(
    entries: Seq<WebsiteView>,
    request: Option<(Seq<char>, Seq<char>)>,
) -> Seq<WebsiteView> {
    match request {
        Some((name, url)) => apply(entries, Edit::Add(WebsiteView { name, url })),
        None => entries,
    }
}

/// The effects of a request to add: the new list is stored and confirmed, or
/// the taken name is reported and nothing is stored.
pub open spec fn add_effects(
    entries: Seq<WebsiteView>,
    request: Option<(Seq<char>, Seq<char>)>,
) -> Seq<EffectView> {
    match request {
        Some((name, url)) => if has_name(entries, name) {
            seq![EffectView::Say(duplicate_text(name))]
        } else {
            seq![EffectView::Save(after_add(entries, request)), EffectView::Say(added_text())]
        },
        None => Seq::empty(),
    }
}

/// The list after a request to remove.
pub open spec fn after_del(entries: Seq<WebsiteView>, request: Option<Seq<char>>) -> Seq<
    WebsiteView,
> {
    match request {
        Some(name) => apply(entries, Edit::Remove(name)),
        None => entries,
    }
}

/// The effects of a request to remove: the shorter list is stored and
/// confirmed, or the missing name is reported and nothing is stored.
pub open spec fn del_effects(entries: Seq<WebsiteView>, request: Option<Seq<char>>) -> Seq<
    EffectView,
> {
    match request {
        Some(name) => if has_name(entries, name) {
            seq![EffectView::Save(after_del(entries, request)), EffectView::Say(deleted_text(name))]
        } else {
            seq![EffectView::Say(not_found_text(name))]
        },
        None => Seq::empty(),
    }
}

/// The effects of a request to list: the lines of the table, one after the
/// other; nothing for an empty list.
pub open spec fn list_effects(entries: Seq<WebsiteView>, list: bool) -> Seq<EffectView> {
    if list {
        table_text(entries).map_values(|line: Seq<char>| EffectView::Say(line))
    } else {
        Seq::empty()
    }
}

/// How an invocation ends: the table, where it was asked for, then a normal
/// exit.
pub open spec fn closing_effects(entries: Seq<WebsiteView>, list: bool) -> Seq<EffectView> {
    list_effects(entries, list).push(EffectView::Exit(0))
}

/// The list once the stored entries were loaded and the requests to add and
/// to remove were served, in that order.
pub open spec fn settled(args: ArgsView, loaded: Seq<WebsiteView>) -> Seq<WebsiteView> {
    after_del(after_add(loaded, args.add_request()), args.del)
}

/// The session that follows `session` on `event`.
pub open spec fn next_session(session: SessionView, event: EventView) -> SessionView {
    match (session.stage, event) {
        (Stage::Loading, EventView::Loaded(loaded)) => SessionView {
            args: session.args,
            config: settled(session.args, loaded),
            stage: if session.args.open {
                Stage::Selecting
            } else {
                Stage::Finished
            },
        },
        (Stage::Selecting, EventView::Selected(selection)) => SessionView {
            args: session.args,
            config: session.config,
            stage: if launch_target(session.config, selection) is Some {
                Stage::Launching
            } else {
                Stage::Finished
            },
        },
        (Stage::Launching, EventView::Launched(_)) => SessionView {
            args: session.args,
            config: session.config,
            stage: Stage::Finished,
        },
        _ => session,
    }
}

/// The effects that `event` calls for in `session`, in the order in which
/// they are to be carried out. An event that the session is not waiting for
/// calls for nothing.
pub open spec fn effects_of(session: SessionView, event: EventView) -> Seq<EffectView> {
    match (session.stage, event) {
        (Stage::Loading, EventView::Loaded(loaded)) => {
            let args = session.args;
            let added = after_add(loaded, args.add_request());
            bootstrap_effects(loaded) + add_effects(loaded, args.add_request()) + del_effects(
                added,
                args.del,
            ) + if args.open {
                seq![EffectView::Select(names(settled(args, loaded)))]
            } else {
                closing_effects(settled(args, loaded), args.list)
            }
        },
        (Stage::Selecting, EventView::Selected(selection)) => {
            let note = match selection {
                SelectionView::Chosen(name) => seq![EffectView::Say(selected_text(name))],
                _ => Seq::empty(),
            };
            note + match launch_target(session.config, selection) {
                Some(url) => seq![EffectView::Launch(url)],
                None => closing_effects(session.config, session.args.list),
            }
        },
        (Stage::Launching, EventView::Launched(outcome)) => match outcome {
            LaunchOutcomeView::Opened => closing_effects(session.config, session.args.list),
            LaunchOutcomeView::Failed(reason) => seq![
                EffectView::Warn(launch_failed_text(reason)),
                EffectView::Exit(1),
            ],
        },
        _ => Seq::empty(),
    }
}

/// Appends one effect to a batch.
fn emit(effects: &mut Vec<Effect>, effect: Effect)
    ensures
        final(effects).deep_view() == old(effects).deep_view().push(effect@),
{
    effects.push(effect);
    assert(effects.deep_view() =~= old(effects).deep_view().push(effect@));
}

/// Serves the first run: stores the empty list.
fn bootstrap(config: &Config, effects: &mut Vec<Effect>)
    ensures
        final(effects).deep_view() == old(effects).deep_view() + bootstrap_effects(config@),
{
    if config.is_empty() {
        emit(effects, Effect::Save(config.list()));
        assert(effects.deep_view() =~= old(effects).deep_view() + bootstrap_effects(config@));
    } else {
        assert(effects.deep_view() =~= old(effects).deep_view() + bootstrap_effects(config@));
    }
}

/// Serves a request to add.
fn serve_add(config: &mut Config, request: Option<(String, String)>, effects: &mut Vec<Effect>)
    ensures
        final(config)@ == after_add(old(config)@, request.deep_view()),
        final(effects).deep_view() == old(effects).deep_view() + add_effects(
            old(config)@,
            request.deep_view(),
        ),
{
    let ghost before = effects.deep_view();
    let ghost wanted = add_effects(config@, request.deep_view());
    match request {
        Some((name, url)) => {
            let complaint = duplicate(name.as_str());
            match config.add_website(name, url) {
                AddOutcome::Added => {
                    emit(effects, Effect::Save(config.list()));
                    emit(effects, Effect::Say(added()));
                },
                AddOutcome::Duplicate => {
                    emit(effects, Effect::Say(complaint));
                },
            }
        },
        None => {},
    }
    assert(effects.deep_view() =~= before + wanted);
}

/// Serves a request to remove.
fn serve_del(config: &mut Config, request: Option<String>, effects: &mut Vec<Effect>)
    ensures
        final(config)@ == after_del(old(config)@, request.deep_view()),
        final(effects).deep_view() == old(effects).deep_view() + del_effects(
            old(config)@,
            request.deep_view(),
        ),
{
    let ghost before = effects.deep_view();
    let ghost wanted = del_effects(config@, request.deep_view());
    match request {
        Some(name) => {
            let confirmation = deleted(name.as_str());
            let complaint = not_found(name.as_str());
            match config.remove_website(name) {
                RemoveOutcome::Removed => {
                    emit(effects, Effect::Save(config.list()));
                    emit(effects, Effect::Say(confirmation));
                },
                RemoveOutcome::NotFound => {
                    emit(effects, Effect::Say(complaint));
                },
            }
        },
        None => {},
    }
    assert(effects.deep_view() =~= before + wanted);
}

/// Ends the invocation normally.
fn close(config: &Config, list: bool, effects: &mut Vec<Effect>)
    ensures
        final(effects).deep_view() == old(effects).deep_view() + closing_effects(config@, list),
{
    let ghost before = effects.deep_view();
    if list {
        let lines = table(&config.list());
        let mut i: usize = 0;
        while i < lines.len()
            invariant
                i <= lines.len(),
                lines.deep_view() == table_text(config@),
                effects.deep_view() =~= before + list_effects(config@, true).take(i as int),
            decreases lines.len() - i,
        {
            emit(effects, Effect::Say(lines[i].clone()));
            i += 1;
        }
        assert(list_effects(config@, true).take(i as int) =~= list_effects(config@, true));
    }
    emit(effects, Effect::Exit(0));
    assert(effects.deep_view() =~= before + closing_effects(config@, list));
}

impl Session {
    /// A session for the requests `args`, waiting for the stored list.
    pub fn new(args: Args) -> (session: Session)
        ensures
            session@ == (SessionView {
                args: args@,
                config: Seq::<WebsiteView>::empty(),
                stage: Stage::Loading,
            }),
    {
        Session { args, config: Config::new(), stage: Stage::Loading }
    }

    /// What the session is waiting for.
    pub fn stage(&self) -> (stage: Stage)
        ensures
            stage == self@.stage,
    {
        self.stage
    }

    /// The list as it stands.
    pub fn config(&self) -> (config: &Config)
        ensures
            config@ == self@.config,
    {
        &self.config
    }
}

/// Takes an answer from the outside world and gives the effects to carry out
/// next, in order; see [`next_session`] and [`effects_of`].
pub fn run(session: &mut Session, event: Event) -> (effects: Vec<Effect>)
    ensures
        final(session)@ == next_session(old(session)@, event@),
        effects.deep_view() == effects_of(old(session)@, event@),
{
    let mut effects: Vec<Effect> = Vec::new();
    assert(effects.deep_view() =~= Seq::<EffectView>::empty());
    match (session.stage, event) {
        (Stage::Loading, Event::Loaded(persisted)) => {
            session.config = Config::load(persisted);
            bootstrap(&session.config, &mut effects);
            let request = session.args.add_request();
            serve_add(&mut session.config, request, &mut effects);
            let request = session.args.del.clone();
            serve_del(&mut session.config, request, &mut effects);
            if session.args.open {
                emit(&mut effects, Effect::Select(session.config.candidate_names()));
                session.stage = Stage::Selecting;
            } else {
                close(&session.config, session.args.list, &mut effects);
                session.stage = Stage::Finished;
            }
            assert(effects.deep_view() =~= effects_of(old(session)@, event@));
        },
        (Stage::Selecting, Event::Selected(selection)) => {
            match &selection {
                Selection::Chosen(name) => {
                    emit(&mut effects, Effect::Say(selected(name.as_str())));
                },
                _ => {},
            }
            match session.config.open_website(&selection) {
                Some(url) => {
                    emit(&mut effects, Effect::Launch(url));
                    session.stage = Stage::Launching;
                },
                None => {
                    close(&session.config, session.args.list, &mut effects);
                    session.stage = Stage::Finished;
                },
            }
            assert(effects.deep_view() =~= effects_of(old(session)@, event@));
        },
        (Stage::Launching, Event::Launched(outcome)) => {
            match outcome {
                LaunchOutcome::Opened => {
                    close(&session.config, session.args.list, &mut effects);
                },
                LaunchOutcome::Failed(reason) => {
                    emit(&mut effects, Effect::Warn(launch_failed(reason.as_str())));
                    emit(&mut effects, Effect::Exit(1));
                },
            }
            session.stage = Stage::Finished;
            assert(effects.deep_view() =~= effects_of(old(session)@, event@));
        },
        _ => {},
    }
    effects
}

} // verus!
