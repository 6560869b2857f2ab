//! A single stored website: a name and the URL it stands for.

use vstd::prelude::*;

verus! {

/// The mathematical content of a [`Website`]: its name and its URL as
/// sequences of characters.
pub struct WebsiteView {
    pub name: Seq<char>,
    pub url: Seq<char>,
}

/// One stored record. The name identifies the record within a list; the URL
/// is kept as given and never inspected.
#[derive(Debug, Clone, PartialEq, Eq)]
pub struct Website {
    pub name: String,
    pub url: String,
}

impl View for Website {
    type V = WebsiteView;

    open spec fn view(&self) -> WebsiteView {
        WebsiteView { name: self.name@, url: self.url@ }
    }
}

impl DeepView for Website {
    type V = WebsiteView;

    open spec fn deep_view(&self) -> WebsiteView {
        self@
    }
}

impl Website {
    /// Builds a record from its two parts.
    pub fn new(name: String, url: String) -> (w: Website)
        ensures
            w@ == (WebsiteView { name: name@, url: url@ }),
    {
        Website { name, url }
    }

    /// A fresh record with the same name and URL.
    pub fn duplicate(&self) -> (w: Website)
        ensures
            w@ == self@,
    {
        Website { name: self.name.clone(), url: self.url.clone() }
    }
}

} // verus!
