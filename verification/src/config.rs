//! The ordered list of websites and the operations that keep it.
//!
//! A list is modelled as a sequence of [`WebsiteView`]s in insertion order.
//! The operations are total: they work on any list, and keep names unique
//! wherever they found them unique.

use vstd::prelude::*;
use crate::selection::{Selection, SelectionView};
use crate::website::{Website, WebsiteView};

verus! {

/// Some entry of `entries` carries `name` (exact, case-sensitive match).
pub open spec fn has_name(entries: Seq<WebsiteView>, name: Seq<char>) -> bool {
    exists|i: int| 0 <= i < entries.len() && (#[trigger] entries[i]).name == name
}

/// No two entries of `entries` share a name.
pub open spec fn names_unique(entries: Seq<WebsiteView>) -> bool {
    forall|i: int, j: int|
        0 <= i < j < entries.len() ==> (#[trigger] entries[i]).name != (#[trigger] entries[j]).name
}

/// Every entry of `entries` has a non-empty name.
pub open spec fn names_nonempty(entries: Seq<WebsiteView>) -> bool {
    forall|i: int| 0 <= i < entries.len() ==> (#[trigger] entries[i]).name.len() > 0
}

/// `i` is the position of the first entry of `entries` that carries `name`.
pub open spec fn is_first_named(entries: Seq<WebsiteView>, name: Seq<char>, i: int) -> bool {
    &&& 0 <= i < entries.len()
    &&& entries[i].name == name
    &&& forall|j: int| 0 <= j < i ==> (#[trigger] entries[j]).name != name
}

/// The first entry of `entries` that carries `name`, if there is one.
pub open spec fn lookup(entries: Seq<WebsiteView>, name: Seq<char>) -> Option<WebsiteView> {
    if has_name(entries, name) {
        Some(entries[choose|i: int| is_first_named(entries, name, i)])
    } else {
        None
    }
}

/// `entries` with every entry that carries `name` taken out; the others keep
/// their order.
pub open spec fn without(entries: Seq<WebsiteView>, name: Seq<char>) -> Seq<WebsiteView> {
    entries.filter(|w: WebsiteView| w.name != name)
}

/// The names of `entries`, in the same order.
pub open spec fn names(entries: Seq<WebsiteView>) -> Seq<Seq<char>> {
    entries.map_values(|w: WebsiteView| w.name)
}

/// One change asked of a list.
pub enum Edit {
    /// Add this website, unless its name is taken.
    Add(WebsiteView),
    /// Remove the websites with this name.
    Remove(Seq<char>),
}

/// The list that `edit` makes of `entries`: an added website becomes the
/// last entry, unless its name is taken and nothing changes; a removed name
/// leaves the other entries in their order.
pub open spec fn apply(entries: Seq<WebsiteView>, edit: Edit) -> Seq<WebsiteView> {
    match edit {
        Edit::Add(website) => if has_name(entries, website.name) {
            entries
        } else {
            entries.push(website)
        },
        Edit::Remove(name) => without(entries, name),
    }
}

/// The URL to open for a picker's answer: that of the first entry with the
/// chosen name. No URL where nothing was chosen or no entry has that name.
pub open spec fn launch_target(entries: Seq<WebsiteView>, selection: SelectionView) -> Option<
    Seq<char>,
> {
    match selection {
        SelectionView::Chosen(name) => match lookup(entries, name) {
            Some(website) => Some(website.url),
            None => None,
        },
        _ => None,
    }
}

/// The directory that holds the stored list, below the user's home
/// directory.
pub const STORE_DIR: &'static str = ".config/fzweb";

/// The file that holds the stored list, below the user's home directory.
pub const STORE_FILE: &'static str = ".config/fzweb/config.json";

/// What was found where the list is persisted.
#[derive(Debug, Clone, PartialEq, Eq)]
pub enum Persisted {
    /// Nothing is stored there yet.
    Missing,
    /// Something is stored there, but it is not a list of websites.
    Unreadable,
    /// A list of websites, in stored order.
    Parsed(Vec<Website>),
}

impl Persisted {
    /// The entries a list starts with after loading from `self`: the stored
    /// ones, or none where nothing usable was stored.
    pub open spec fn entries(&self) -> Seq<WebsiteView> {
        match self {
            Persisted::Parsed(websites) => websites.deep_view(),
            _ => Seq::empty(),
        }
    }
}

/// How an attempt to add a website ended.
#[derive(Debug, Clone, Copy, PartialEq, Eq, Structural)]
pub enum AddOutcome {
    /// The website is now the last entry of the list.
    Added,
    /// The name was taken; the list is unchanged.
    Duplicate,
}

/// How an attempt to remove a website ended.
#[derive(Debug, Clone, Copy, PartialEq, Eq, Structural)]
pub enum RemoveOutcome {
    /// The entries with that name are gone.
    Removed,
    /// No entry had that name; the list is unchanged.
    NotFound,
}

/// The list of websites, in insertion order.
#[derive(Debug, Clone, PartialEq, Eq)]
pub struct Config {
    websites: Vec<Website>,
}

impl View for Config {
    type V = Seq<WebsiteView>;

    closed spec fn view(&self) -> Seq<WebsiteView> {
        self.websites.deep_view()
    }
}

impl Config {
    /// The list is well formed: names are non-empty and no name occurs twice.
    pub open spec fn well_formed(&self) -> bool {
        names_unique(self@) && names_nonempty(self@)
    }

    /// An empty list.
    pub fn new() -> (config: Config)
        ensures
            config@ == Seq::<WebsiteView>::empty(),
    {
        let config = Config { websites: Vec::new() };
        assert(config@ =~= Seq::<WebsiteView>::empty());
        config
    }

    /// Starts a list from what was found in storage. A missing or unreadable
    /// store gives the empty list; a parsed one gives its entries unchanged.
    pub fn load(persisted: Persisted) -> (config: Config)
        ensures
            config@ == persisted.entries(),
    {
        match persisted {
            Persisted::Missing => Config::new(),
            Persisted::Unreadable => Config::new(),
            Persisted::Parsed(websites) => Config { websites },
        }
    }

    /// The number of entries.
    pub fn len(&self) -> (n: usize)
        ensures
            n == self@.len(),
    {
        self.websites.len()
    }

    /// Whether the list has no entry.
    pub fn is_empty(&self) -> (empty: bool)
        ensures
            empty == (self@.len() == 0),
    {
        self.websites.len() == 0
    }

    /// The position of the first entry named `name`.
    fn position(&self, name: &str) -> (found: Option<usize>)
        ensures
            match found {
                Some(i) => is_first_named(self@, name@, i as int),
                None => !has_name(self@, name@),
            },
    {
        let wanted = name.to_owned();
        let mut i: usize = 0;
        while i < self.websites.len()
            invariant
                i <= self.websites.len(),
                wanted@ == name@,
                forall|j: int| 0 <= j < i ==> (#[trigger] self@[j]).name != name@,
            decreases self.websites.len() - i,
        {
            if self.websites[i].name == wanted {
                return Some(i);
            }
            i += 1;
        }
        None
    }

    /// Whether some entry is named `name`.
    pub fn contains(&self, name: &str) -> (present: bool)
        ensures
            present == has_name(self@, name@),
    {
        self.position(name).is_some()
    }

    /// The first entry named `name`, or `None` where no entry has that name.
    pub fn find_by_name(&self, name: &str) -> (found: Option<&Website>)
        ensures
            found.deep_view() == lookup(self@, name@),
    {
        match self.position(name) {
            Some(i) => {
                proof {
                    lemma_first_named_is_lookup(self@, name@, i as int);
                }
                Some(&self.websites[i])
            },
            None => None,
        }
    }

    /// The URL to open for a picker's answer, if there is one; see
    /// [`launch_target`].
    pub fn open_website(&self, selection: &Selection) -> (url: Option<String>)
        ensures
            url.deep_view() == launch_target(self@, selection@),
    {
        match selection {
            Selection::Chosen(name) => match self.find_by_name(name.as_str()) {
                Some(website) => Some(website.url.clone()),
                None => None,
            },
            _ => None,
        }
    }

    /// Appends a website named `name` unless that name is already taken.
    ///
    /// A taken name leaves the list exactly as it was and reports
    /// [`AddOutcome::Duplicate`]; otherwise the new entry becomes the last
    /// one and [`AddOutcome::Added`] is reported.
    pub fn add_website(&mut self, name: String, url: String) -> (outcome: AddOutcome)
        ensures
            final(self)@ == apply(old(self)@, Edit::Add(WebsiteView { name: name@, url: url@ })),
            has_name(old(self)@, name@) ==> {
                &&& outcome == AddOutcome::Duplicate
                &&& *final(self) == *old(self)
            },
            !has_name(old(self)@, name@) ==> {
                &&& outcome == AddOutcome::Added
                &&& final(self)@ == old(self)@.push(WebsiteView { name: name@, url: url@ })
            },
            names_unique(old(self)@) ==> names_unique(final(self)@),
            old(self).well_formed() && name@.len() > 0 ==> final(self).well_formed(),
    {
        if self.contains(name.as_str()) {
            return AddOutcome::Duplicate;
        }
        let ghost before = self@;
        let ghost added = WebsiteView { name: name@, url: url@ };
        self.websites.push(Website::new(name, url));
        assert(self@ =~= before.push(added));
        AddOutcome::Added
    }

    /// Takes out every entry named `name`; the others keep their order.
    ///
    /// Where no entry has that name the list stays exactly as it was and
    /// [`RemoveOutcome::NotFound`] is reported.
    pub fn remove_website(&mut self, name: String) -> (outcome: RemoveOutcome)
        ensures
            final(self)@ == apply(old(self)@, Edit::Remove(name@)),
            final(self)@ == without(old(self)@, name@),
            has_name(old(self)@, name@) ==> outcome == RemoveOutcome::Removed,
            !has_name(old(self)@, name@) ==> {
                &&& outcome == RemoveOutcome::NotFound
                &&& *final(self) == *old(self)
            },
            names_unique(old(self)@) ==> names_unique(final(self)@),
            old(self).well_formed() ==> final(self).well_formed(),
    {
        let ghost before = self@;
        let mut kept: Vec<Website> = Vec::new();
        let mut i: usize = 0;
        proof {
            lemma_without_empty(name@);
            assert(before.take(0) =~= Seq::<WebsiteView>::empty());
            assert(kept.deep_view() =~= Seq::<WebsiteView>::empty());
        }
        while i < self.websites.len()
            invariant
                i <= self.websites.len(),
                self@ == before,
                *self == *old(self),
                kept.deep_view() == without(before.take(i as int), name@),
            decreases self.websites.len() - i,
        {
            let ghost kept_before = kept.deep_view();
            proof {
                lemma_without_push(before.take(i as int), before[i as int], name@);
                assert(before.take(i as int + 1) =~= before.take(i as int).push(before[i as int]));
            }
            if self.websites[i].name != name {
                kept.push(self.websites[i].duplicate());
                assert(kept.deep_view() =~= kept_before.push(before[i as int]));
            }
            i += 1;
        }
        proof {
            assert(before.take(i as int) =~= before);
            lemma_without_keeps_names(before, name@);
            lemma_without_absent(before, name@);
        }
        if kept.len() < self.websites.len() {
            self.websites = kept;
            RemoveOutcome::Removed
        } else {
            RemoveOutcome::NotFound
        }
    }

    /// The names of all entries, in insertion order.
    pub fn candidate_names(&self) -> (candidates: Vec<String>)
        ensures
            candidates.deep_view() == names(self@),
    {
        let mut candidates: Vec<String> = Vec::new();
        let mut i: usize = 0;
        while i < self.websites.len()
            invariant
                i <= self.websites.len(),
                candidates.deep_view() =~= names(self@.take(i as int)),
            decreases self.websites.len() - i,
        {
            let ghost so_far = candidates.deep_view();
            candidates.push(self.websites[i].name.clone());
            assert(candidates.deep_view() =~= so_far.push(self@[i as int].name));
            i += 1;
        }
        assert(self@.take(i as int) =~= self@);
        candidates
    }

    /// All entries, in insertion order.
    pub fn list(&self) -> (listed: Vec<Website>)
        ensures
            listed.deep_view() == self@,
    {
        let mut listed: Vec<Website> = Vec::new();
        let mut i: usize = 0;
        while i < self.websites.len()
            invariant
                i <= self.websites.len(),
                listed.deep_view() =~= self@.take(i as int),
            decreases self.websites.len() - i,
        {
            let ghost so_far = listed.deep_view();
            listed.push(self.websites[i].duplicate());
            assert(listed.deep_view() =~= so_far.push(self@[i as int]));
            i += 1;
        }
        assert(self@.take(i as int) =~= self@);
        listed
    }
}

/// Nothing is left to take out of the empty list.
pub proof fn lemma_without_empty(name: Seq<char>)
    ensures
        without(Seq::<WebsiteView>::empty(), name) == Seq::<WebsiteView>::empty(),
{
    reveal(Seq::filter);
}

/// Taking a name out of a list that was extended by one entry: the entry
/// stays at the end unless it carries the name.
pub proof fn lemma_without_push(entries: Seq<WebsiteView>, last: WebsiteView, name: Seq<char>)
    ensures
        without(entries.push(last), name) == if last.name != name {
            without(entries, name).push(last)
        } else {
            without(entries, name)
        },
{
    reveal(Seq::filter);
    assert(entries.push(last).drop_last() =~= entries);
}

/// The position in `entries` from which the `k`-th entry of
/// `without(entries, name)` was taken.
pub open spec fn origin(entries: Seq<WebsiteView>, name: Seq<char>, k: int) -> int
    decreases entries.len(),
{
    if entries.len() == 0 {
        0
    } else if k < without(entries.drop_last(), name).len() {
        origin(entries.drop_last(), name, k)
    } else {
        entries.len() - 1
    }
}

/// Removal keeps order: what is left after taking a name out are entries of
/// the list that do not carry the name, each from a position of its own, and
/// an entry that stands later in the result stood later in the list.
pub proof fn law_removal_keeps_order(entries: Seq<WebsiteView>, name: Seq<char>)
    ensures
        forall|k: int|
            0 <= k < without(entries, name).len() ==> {
                let a = #[trigger] origin(entries, name, k);
                &&& 0 <= a < entries.len()
                &&& entries[a] == without(entries, name)[k]
                &&& entries[a].name != name
            },
        forall|k: int, l: int|
            0 <= k < l < without(entries, name).len() ==> #[trigger] origin(entries, name, k)
                < #[trigger] origin(entries, name, l),
    decreases entries.len(),
{
    if entries.len() == 0 {
        lemma_without_empty(name);
        assert(entries =~= Seq::<WebsiteView>::empty());
    } else {
        let rest = entries.drop_last();
        law_removal_keeps_order(rest, name);
        lemma_without_push(rest, entries.last(), name);
        assert(rest.push(entries.last()) =~= entries);
        assert forall|k: int| 0 <= k < without(entries, name).len() implies {
            let a = #[trigger] origin(entries, name, k);
            &&& 0 <= a < entries.len()
            &&& entries[a] == without(entries, name)[k]
            &&& entries[a].name != name
        } by {
            if k < without(rest, name).len() {
                let a = origin(rest, name, k);
                assert(rest[a] == entries[a]);
            }
        }
        assert forall|k: int, l: int|
            0 <= k < l < without(entries, name).len() implies #[trigger] origin(entries, name, k)
            < #[trigger] origin(entries, name, l) by {
            if l < without(rest, name).len() {
                assert(origin(rest, name, k) < origin(rest, name, l));
            } else {
                assert(origin(rest, name, k) < rest.len());
            }
        }
    }
}

/// Taking out a name that no entry carries changes nothing; taking out one
/// that some entry carries makes the list shorter.
pub proof fn lemma_without_absent(entries: Seq<WebsiteView>, name: Seq<char>)
    ensures
        !has_name(entries, name) ==> without(entries, name) == entries,
        has_name(entries, name) ==> without(entries, name).len() < entries.len(),
        without(entries, name).len() <= entries.len(),
    decreases entries.len(),
{
    if entries.len() == 0 {
        lemma_without_empty(name);
        assert(entries =~= Seq::<WebsiteView>::empty());
    } else {
        let rest = entries.drop_last();
        let last = entries.last();
        lemma_without_absent(rest, name);
        lemma_without_push(rest, last, name);
        assert(rest.push(last) =~= entries);
        if has_name(entries, name) {
            let i = choose|i: int| 0 <= i < entries.len() && (#[trigger] entries[i]).name == name;
            if i < rest.len() {
                assert(rest[i].name == name);
            }
        } else {
            assert(entries[entries.len() - 1].name != name);
            if has_name(rest, name) {
                let i = choose|i: int| 0 <= i < rest.len() && (#[trigger] rest[i]).name == name;
                assert(entries[i].name == name);
            }
        }
    }
}

/// Taking a name out keeps names unique and non-empty where they were.
pub proof fn lemma_without_keeps_names(entries: Seq<WebsiteView>, name: Seq<char>)
    ensures
        names_unique(entries) ==> names_unique(without(entries, name)),
        names_nonempty(entries) ==> names_nonempty(without(entries, name)),
        !has_name(without(entries, name), name),
{
    law_removal_keeps_order(entries, name);
    let left = without(entries, name);
    if names_unique(entries) {
        assert forall|i: int, j: int| 0 <= i < j < left.len() implies (#[trigger] left[i]).name
            != (#[trigger] left[j]).name by {
            let a = origin(entries, name, i);
            let b = origin(entries, name, j);
            assert(entries[a].name != entries[b].name);
        }
    }
    if names_nonempty(entries) {
        assert forall|i: int| 0 <= i < left.len() implies (#[trigger] left[i]).name.len() > 0 by {
            let a = origin(entries, name, i);
            assert(entries[a].name.len() > 0);
        }
    }
    if has_name(left, name) {
        let i = choose|i: int| 0 <= i < left.len() && (#[trigger] left[i]).name == name;
        let a = origin(entries, name, i);
        assert(false);
    }
}

/// The first entry that carries a name is the one that `lookup` gives.
pub proof fn lemma_first_named_is_lookup(entries: Seq<WebsiteView>, name: Seq<char>, i: int)
    requires
        is_first_named(entries, name, i),
    ensures
        has_name(entries, name),
        lookup(entries, name) == Some(entries[i]),
{
    let k = choose|k: int| is_first_named(entries, name, k);
    assert(is_first_named(entries, name, k));
    if k < i {
        assert(entries[k].name != name);
    }
    if i < k {
        assert(entries[i].name != name);
    }
}

} // verus!
