//! What passes between a session and the outside world: the answers it
//! takes and the effects it asks for.

use vstd::prelude::*;
use crate::config::Persisted;
use crate::selection::{Selection, SelectionView};
use crate::website::{Website, WebsiteView};

verus! {

/// How an attempt to open a URL ended.
#[derive(Debug, Clone, PartialEq, Eq)]
pub enum LaunchOutcome {
    /// The operating system took the URL.
    Opened,
    /// It did not, and gave this reason.
    Failed(String),
}

/// The mathematical content of a [`LaunchOutcome`].
pub enum LaunchOutcomeView {
    Opened,
    Failed(Seq<char>),
}

impl View for LaunchOutcome {
    type V = LaunchOutcomeView;

    open spec fn view(&self) -> LaunchOutcomeView {
        match self {
            LaunchOutcome::Opened => LaunchOutcomeView::Opened,
            LaunchOutcome::Failed(reason) => LaunchOutcomeView::Failed(reason@),
        }
    }
}

/// An answer from the outside world.
#[derive(Debug, Clone, PartialEq, Eq)]
pub enum Event {
    /// The stored list was looked up.
    Loaded(Persisted),
    /// The picker returned.
    Selected(Selection),
    /// An attempt to open a URL ended.
    Launched(LaunchOutcome),
}

/// The mathematical content of an [`Event`]. A loaded store counts by the
/// entries it gives.
pub enum EventView {
    Loaded(Seq<WebsiteView>),
    Selected(SelectionView),
    Launched(LaunchOutcomeView),
}

impl View for Event {
    type V = EventView;

    open spec fn view(&self) -> EventView {
        match self {
            Event::Loaded(persisted) => EventView::Loaded(persisted.entries()),
            Event::Selected(selection) => EventView::Selected(selection@),
            Event::Launched(outcome) => EventView::Launched(outcome@),
        }
    }
}

/// Something for the caller to carry out.
#[derive(Debug, Clone, PartialEq, Eq)]
pub enum Effect {
    /// Replace the stored list by exactly these entries.
    Save(Vec<Website>),
    /// Print this line on standard output.
    Say(String),
    /// Print this line on the error stream.
    Warn(String),
    /// Prompt the user to pick one of these names, then report the answer
    /// as [`Event::Selected`].
    Select(Vec<String>),
    /// Open this URL, then report the result as [`Event::Launched`].
    Launch(String),
    /// End the process with this status.
    Exit(i32),
}

/// The mathematical content of an [`Effect`].
pub enum EffectView {
    Save(Seq<WebsiteView>),
    Say(Seq<char>),
    Warn(Seq<char>),
    Select(Seq<Seq<char>>),
    Launch(Seq<char>),
    Exit(int),
}

impl View for Effect {
    type V = EffectView;

    open spec fn view(&self) -> EffectView {
        match self {
            Effect::Save(websites) => EffectView::Save(websites.deep_view()),
            Effect::Say(line) => EffectView::Say(line@),
            Effect::Warn(line) => EffectView::Warn(line@),
            Effect::Select(candidates) => EffectView::Select(candidates.deep_view()),
            Effect::Launch(url) => EffectView::Launch(url@),
            Effect::Exit(status) => EffectView::Exit(status as int),
        }
    }
}

impl DeepView for Effect {
    type V = EffectView;

    open spec fn deep_view(&self) -> EffectView {
        self@
    }
}

impl EffectView {
    /// The effect closes a batch: it waits for an answer or ends the
    /// process.
    pub open spec fn closes(&self) -> bool {
        self is Select || self is Launch || self is Exit
    }
}

/// What the store holds once `effects` were carried out in order, if it held
/// `stored` before: the entries of the last request to save, if any.
pub open spec fn stored_after(stored: Seq<WebsiteView>, effects: Seq<EffectView>) -> Seq<
    WebsiteView,
>
    decreases effects.len(),
{
    if effects.len() == 0 {
        stored
    } else {
        match effects.last() {
            EffectView::Save(entries) => entries,
            _ => stored_after(stored, effects.drop_last()),
        }
    }
}

} // verus!
