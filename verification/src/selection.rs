//! What the interactive picker came back with.

use vstd::prelude::*;

verus! {

/// The outcome of one run of the picker.
#[derive(Debug, Clone, PartialEq, Eq)]
pub enum Selection {
    /// The user picked this name.
    Chosen(String),
    /// The user confirmed without picking anything.
    NoSelection,
    /// The user cancelled.
    Aborted,
}

/// The mathematical content of a [`Selection`].
pub enum SelectionView {
    Chosen(Seq<char>),
    NoSelection,
    Aborted,
}

impl View for Selection {
    type V = SelectionView;

    open spec fn view(&self) -> SelectionView {
        match self {
            Selection::Chosen(name) => SelectionView::Chosen(name@),
            Selection::NoSelection => SelectionView::NoSelection,
            Selection::Aborted => SelectionView::Aborted,
        }
    }
}

impl DeepView for Selection {
    type V = SelectionView;

    open spec fn deep_view(&self) -> SelectionView {
        self@
    }
}

/// How a picker's answer is read: a cancelled session is aborted whatever
/// it picked; otherwise the first picked item counts, and none picked is no
/// selection.
pub open spec fn classify(aborted: bool, picked: Seq<Seq<char>>) -> SelectionView {
    if aborted {
        SelectionView::Aborted
    } else if picked.len() > 0 {
        SelectionView::Chosen(picked[0])
    } else {
        SelectionView::NoSelection
    }
}

impl Selection {
    /// Reads a picker's answer: whether the session was cancelled, and the
    /// items it picked, in order.
    pub fn from_picker(aborted: bool, picked: Vec<String>) -> (selection: Selection)
        ensures
            selection@ == classify(aborted, picked.deep_view()),
    {
        if aborted {
            Selection::Aborted
        } else if picked.len() > 0 {
            Selection::Chosen(picked[0].clone())
        } else {
            Selection::NoSelection
        }
    }
}

} // verus!
