//! The list as a table: one line for each website, the names in a column of
//! their own, padded to the longest of them, and the URLs behind it.

use vstd::prelude::*;
use vstd::string::*;
use crate::website::{Website, WebsiteView};

verus! {

/// The length of the longest name in `entries`; zero where there is none.
pub open spec fn widest_name(entries: Seq<WebsiteView>) -> nat
    decreases entries.len(),
{
    if entries.len() == 0 {
        0
    } else {
        let before = widest_name(entries.drop_last());
        if entries.last().name.len() > before {
            entries.last().name.len()
        } else {
            before
        }
    }
}

/// `width` spaces; none where `width` is not positive.
pub open spec fn padding(width: int) -> Seq<char> {
    if width > 0 {
        Seq::new(width as nat, |i: int| ' ')
    } else {
        Seq::empty()
    }
}

/// The line for one website: its name, filled up with spaces to `width`
/// characters where it is shorter, two more spaces, and its URL.
pub open spec fn row_text(website: WebsiteView, width: nat) -> Seq<char> {
    website.name + padding(width - website.name.len()) + "  "@ + website.url
}

/// The lines of the table for `entries`: one for each entry, in order, all
/// names filled up to the longest of them. No line for an empty list.
pub open spec fn table_text(entries: Seq<WebsiteView>) -> Seq<Seq<char>> {
    Seq::new(entries.len(), |i: int| row_text(entries[i], widest_name(entries)))
}

/// The name column fits: no name is longer than `widest_name`, and in a
/// list that is not empty some name is exactly that long.
pub proof fn law_width_fits(entries: Seq<WebsiteView>)
    ensures
        forall|i: int|
            0 <= i < entries.len() ==> (#[trigger] entries[i]).name.len() <= widest_name(entries),
        entries.len() > 0 ==> exists|i: int|
            0 <= i < entries.len() && (#[trigger] entries[i]).name.len() == widest_name(entries),
    decreases entries.len(),
{
    if entries.len() > 0 {
        let before = entries.drop_last();
        law_width_fits(before);
        assert forall|i: int| 0 <= i < entries.len() implies (#[trigger] entries[i]).name.len()
            <= widest_name(entries) by {
            if i < before.len() {
                assert(before[i].name.len() <= widest_name(before));
            }
        }
        if entries.last().name.len() > widest_name(before) || before.len() == 0 {
            assert(entries[entries.len() - 1].name.len() == widest_name(entries));
        } else {
            let i = choose|i: int|
                0 <= i < before.len() && (#[trigger] before[i]).name.len() == widest_name(before);
            assert(entries[i].name.len() == widest_name(entries));
        }
    }
}

/// The length of the longest name among `websites`.
fn widest(websites: &Vec<Website>) -> (width: usize)
    ensures
        width == widest_name(websites.deep_view()),
{
    let mut width: usize = 0;
    let mut i: usize = 0;
    assert(websites.deep_view().take(0) =~= Seq::<WebsiteView>::empty());
    while i < websites.len()
        invariant
            i <= websites.len(),
            width == widest_name(websites.deep_view().take(i as int)),
        decreases websites.len() - i,
    {
        let length: usize = websites[i].name.as_str().unicode_len();
        assert(websites.deep_view().take(i as int + 1).drop_last() =~= websites.deep_view().take(
            i as int,
        ));
        if length > width {
            width = length;
        }
        i += 1;
    }
    assert(websites.deep_view().take(i as int) =~= websites.deep_view());
    width
}

/// Builds the line for one website; see [`row_text`].
pub fn row(website: &Website, width: usize) -> (line: String)
    ensures
        line@ == row_text(website@, width as nat),
{
    let length: usize = website.name.as_str().unicode_len();
    let mut line = website.name.clone();
    let mut filled: usize = length;
    assert(line@ =~= website@.name + padding(0));
    while filled < width
        invariant
            length <= filled,
            filled <= width || filled == length,
            length == website@.name.len(),
            line@ == website@.name + padding(filled - length),
        decreases width - filled,
    {
        proof {
            reveal_strlit(" ");
            assert(padding(filled - length) + " "@ =~= padding(filled + 1 - length));
            assert(website@.name + padding(filled - length) + " "@ =~= website@.name + (padding(
                filled - length,
            ) + " "@));
        }
        line.append(" ");
        filled += 1;
    }
    assert(padding(filled - length) =~= padding(width - website@.name.len()));
    line.append("  ");
    line.append(website.url.as_str());
    line
}

/// Builds the table for `websites`; see [`table_text`].
pub fn table(websites: &Vec<Website>) -> (lines: Vec<String>)
    ensures
        lines.deep_view() == table_text(websites.deep_view()),
{
    let width: usize = widest(websites);
    let mut lines: Vec<String> = Vec::new();
    let mut i: usize = 0;
    while i < websites.len()
        invariant
            i <= websites.len(),
            width == widest_name(websites.deep_view()),
            lines.deep_view() =~= table_text(websites.deep_view()).take(i as int),
        decreases websites.len() - i,
    {
        let ghost so_far = lines.deep_view();
        lines.push(row(&websites[i], width));
        assert(lines.deep_view() =~= so_far.push(table_text(websites.deep_view())[i as int]));
        i += 1;
    }
    assert(table_text(websites.deep_view()).take(i as int) =~= table_text(websites.deep_view()));
    lines
}

} // verus!
