//! The command-line surface: which options there are, and what an
//! invocation asks for once the values given for them are known.

use vstd::prelude::*;

verus! {

/// One option of the command line.
#[derive(Debug, Clone, PartialEq, Eq)]
pub struct Flag {
    /// The long form, after two dashes; also the name under which the
    /// option's values are reported back.
    pub long: &'static str,
    /// The short form, after one dash.
    pub short: char,
    /// The names of the values that one occurrence takes; none for a switch.
    pub values: Vec<&'static str>,
    /// Whether the values of every occurrence are kept, not only those of
    /// the last.
    pub repeatable: bool,
    /// The line shown in the usage text.
    pub help: &'static str,
}

/// The mathematical content of a [`Flag`].
pub struct FlagView {
    pub long: Seq<char>,
    pub short: char,
    pub values: Seq<Seq<char>>,
    pub repeatable: bool,
    pub help: Seq<char>,
}

impl View for Flag {
    type V = FlagView;

    open spec fn view(&self) -> FlagView {
        FlagView {
            long: self.long@,
            short: self.short,
            values: self.values.deep_view(),
            repeatable: self.repeatable,
            help: self.help@,
        }
    }
}

impl DeepView for Flag {
    type V = FlagView;

    open spec fn deep_view(&self) -> FlagView {
        self@
    }
}

/// The command line as a whole.
#[derive(Debug, Clone, PartialEq, Eq)]
pub struct Cli {
    /// The program's name.
    pub name: &'static str,
    /// What the program is for, in one line.
    pub about: &'static str,
    /// The options, in the order of the usage text.
    pub flags: Vec<Flag>,
}

/// The option that adds a website: a name and a URL.
pub open spec fn add_flag() -> FlagView {
    FlagView {
        long: "add"@,
        short: 'a',
        values: seq!["name"@, "url"@],
        repeatable: true,
        help: "Add a website with a name and URL"@,
    }
}

/// The option that removes a website by its name.
pub open spec fn del_flag() -> FlagView {
    FlagView {
        long: "del"@,
        short: 'd',
        values: seq!["name"@],
        repeatable: false,
        help: "Delete a website by name"@,
    }
}

/// The switch that prompts for a website and opens it.
pub open spec fn open_flag() -> FlagView {
    FlagView {
        long: "open"@,
        short: 'o',
        values: Seq::empty(),
        repeatable: false,
        help: "Open a website in your default browser"@,
    }
}

/// The switch that shows all websites.
pub open spec fn list_flag() -> FlagView {
    FlagView {
        long: "list"@,
        short: 'l',
        values: Seq::empty(),
        repeatable: false,
        help: "List all websites"@,
    }
}

/// The options of the command line, in the order of the usage text.
pub open spec fn surface() -> Seq<FlagView> {
    seq![add_flag(), open_flag(), del_flag(), list_flag()]
}

/// No two options share a long form or a short form, and no short form is
/// a dash.
pub proof fn law_flags_distinct()
    ensures
        forall|i: int, j: int|
            0 <= i < j < surface().len() ==> {
                &&& (#[trigger] surface()[i]).long != (#[trigger] surface()[j]).long
                &&& surface()[i].short != surface()[j].short
            },
        forall|i: int| 0 <= i < surface().len() ==> (#[trigger] surface()[i]).short != '-',
{
    reveal_strlit("add");
    reveal_strlit("open");
    reveal_strlit("del");
    reveal_strlit("list");
    assert("add"@[0] == 'a' && "open"@[0] == 'o' && "del"@[0] == 'd' && "list"@[0] == 'l');
}

/// Describes the command line: the program's name and purpose and its four
/// options.
pub fn cli() -> (cli: Cli)
    ensures
        cli.name@ == "fzweb"@,
        cli.about@ == "A CLI tool to manage and open websites interactively."@,
        cli.flags.deep_view() == surface(),
{
    let add = Flag {
        long: "add",
        short: 'a',
        values: vec!["name", "url"],
        repeatable: true,
        help: "Add a website with a name and URL",
    };
    let open = Flag {
        long: "open",
        short: 'o',
        values: Vec::new(),
        repeatable: false,
        help: "Open a website in your default browser",
    };
    let del = Flag {
        long: "del",
        short: 'd',
        values: vec!["name"],
        repeatable: false,
        help: "Delete a website by name",
    };
    let list = Flag {
        long: "list",
        short: 'l',
        values: Vec::new(),
        repeatable: false,
        help: "List all websites",
    };
    assert(add@.values =~= add_flag().values);
    assert(open@.values =~= open_flag().values);
    assert(del@.values =~= del_flag().values);
    assert(list@.values =~= list_flag().values);
    let flags = vec![add, open, del, list];
    assert(flags.deep_view() =~= surface());
    Cli { name: "fzweb", about: "A CLI tool to manage and open websites interactively.", flags }
}

/// What the command line carried for one option.
#[derive(Debug, Clone, PartialEq, Eq)]
pub struct Given {
    /// The option's long form.
    pub flag: String,
    /// The values that came with it, in order; none for a switch.
    pub values: Vec<String>,
}

/// The mathematical content of a [`Given`].
pub struct GivenView {
    pub flag: Seq<char>,
    pub values: Seq<Seq<char>>,
}

impl View for Given {
    type V = GivenView;

    open spec fn view(&self) -> GivenView {
        GivenView { flag: self.flag@, values: self.values.deep_view() }
    }
}

impl DeepView for Given {
    type V = GivenView;

    open spec fn deep_view(&self) -> GivenView {
        self@
    }
}

/// `i` is the position of the first item of `given` that is for `flag`.
pub open spec fn is_first_given(given: Seq<GivenView>, flag: Seq<char>, i: int) -> bool {
    &&& 0 <= i < given.len()
    &&& given[i].flag == flag
    &&& forall|j: int| 0 <= j < i ==> (#[trigger] given[j]).flag != flag
}

/// The option `flag` occurs in `given`.
pub open spec fn is_given(given: Seq<GivenView>, flag: Seq<char>) -> bool {
    exists|i: int| 0 <= i < given.len() && (#[trigger] given[i]).flag == flag
}

/// The values that `given` carries for `flag`: those of the first item for
/// it; `None` where the option does not occur.
pub open spec fn values_of(given: Seq<GivenView>, flag: Seq<char>) -> Option<Seq<Seq<char>>> {
    if is_given(given, flag) {
        Some(given[choose|i: int| is_first_given(given, flag, i)].values)
    } else {
        None
    }
}

/// The requests of one invocation.
#[derive(Debug)]
pub struct Args {
    /// Prompt for a website and open it.
    pub open: bool,
    /// Show all websites.
    pub list: bool,
    /// The values given for adding, in order: a name, a URL, and whatever
    /// further occurrences of the option brought.
    pub add: Option<Vec<String>>,
    /// The name of the website to remove.
    pub del: Option<String>,
}

/// The mathematical content of [`Args`].
pub struct ArgsView {
    pub open: bool,
    pub list: bool,
    pub add: Option<Seq<Seq<char>>>,
    pub del: Option<Seq<char>>,
}

impl ArgsView {
    /// The website to add: the first two values given for adding, as name
    /// and URL. Further values are not honoured, and fewer than two ask for
    /// nothing.
    pub open spec fn add_request(&self) -> Option<(Seq<char>, Seq<char>)> {
        match self.add {
            Some(values) if values.len() >= 2 => Some((values[0], values[1])),
            _ => None,
        }
    }
}

impl View for Args {
    type V = ArgsView;

    open spec fn view(&self) -> ArgsView {
        ArgsView {
            open: self.open,
            list: self.list,
            add: self.add.deep_view(),
            del: self.del.deep_view(),
        }
    }
}

impl Args {
    /// The website to add, as name and URL; see [`ArgsView::add_request`].
    pub fn add_request(&self) -> (request: Option<(String, String)>)
        ensures
            request.deep_view() == self@.add_request(),
    {
        match &self.add {
            Some(values) => {
                if values.len() >= 2 {
                    Some((values[0].clone(), values[1].clone()))
                } else {
                    None
                }
            },
            None => None,
        }
    }
}

/// What `given` asks for: the switches count where they occur, adding keeps
/// all its values, and removing takes the first value given for it.
pub open spec fn requests(given: Seq<GivenView>) -> ArgsView {
    ArgsView {
        open: is_given(given, open_flag().long),
        list: is_given(given, list_flag().long),
        add: values_of(given, add_flag().long),
        del: match values_of(given, del_flag().long) {
            Some(values) if values.len() > 0 => Some(values[0]),
            _ => None,
        },
    }
}

/// The first item of `given` that is for `flag`.
fn find_given<'a>(given: &'a Vec<Given>, flag: &str) -> (found: Option<&'a Given>)
    ensures
        match found {
            Some(item) => exists|i: int|
                is_first_given(given.deep_view(), flag@, i) && given.deep_view()[i] == item@,
            None => !is_given(given.deep_view(), flag@),
        },
{
    let wanted = flag.to_owned();
    let mut i: usize = 0;
    while i < given.len()
        invariant
            i <= given.len(),
            wanted@ == flag@,
            forall|j: int| 0 <= j < i ==> (#[trigger] given.deep_view()[j]).flag != flag@,
        decreases given.len() - i,
    {
        if given[i].flag == wanted {
            assert(is_first_given(given.deep_view(), flag@, i as int));
            return Some(&given[i]);
        }
        i += 1;
    }
    None
}

/// The first item that is for an option carries the values that
/// `values_of` gives.
proof fn lemma_first_given_is_values_of(given: Seq<GivenView>, flag: Seq<char>, i: int)
    requires
        is_first_given(given, flag, i),
    ensures
        is_given(given, flag),
        values_of(given, flag) == Some(given[i].values),
{
    let k = choose|k: int| is_first_given(given, flag, k);
    assert(is_first_given(given, flag, k));
    if k < i {
        assert(given[k].flag != flag);
    }
    if i < k {
        assert(given[i].flag != flag);
    }
}

/// The values that `given` carries for `flag`.
fn values_given(given: &Vec<Given>, flag: &str) -> (values: Option<Vec<String>>)
    ensures
        values.deep_view() == values_of(given.deep_view(), flag@),
{
    match find_given(given, flag) {
        Some(item) => {
            proof {
                let i = choose|i: int|
                    is_first_given(given.deep_view(), flag@, i) && given.deep_view()[i] == item@;
                lemma_first_given_is_values_of(given.deep_view(), flag@, i);
            }
            let values = item.values.clone();
            assert(values.deep_view() =~= item.values.deep_view());
            Some(values)
        },
        None => None,
    }
}

/// Gathers the requests of one invocation from what the command line
/// carried for each option; see [`requests`].
pub fn get_args(given: Vec<Given>) -> (args: Args)
    ensures
        args@ == requests(given.deep_view()),
{
    let open = values_given(&given, "open").is_some();
    let list = values_given(&given, "list").is_some();
    let add = values_given(&given, "add");
    let del = match values_given(&given, "del") {
        Some(values) => if values.len() > 0 {
            Some(values[0].clone())
        } else {
            None
        },
        None => None,
    };
    Args { open, list, add, del }
}

} // verus!
