//! The lines shown to the user, word for word.
//!
//! Each line is defined as a sequence of characters, beside a function
//! that builds exactly that text.

use vstd::prelude::*;
use vstd::string::*;

verus! {

/// The confirmation shown after a website was added.
pub open spec fn added_text() -> Seq<char> {
    "Added successfully!"@
}

/// The complaint shown when the name to add is already taken.
pub open spec fn duplicate_text(name: Seq<char>) -> Seq<char> {
    "Error: '"@ + name + "' already exists."@
}

/// The confirmation shown after a website was removed.
pub open spec fn deleted_text(name: Seq<char>) -> Seq<char> {
    "Deleted '"@ + name + "'."@
}

/// The complaint shown when no website has the name to remove.
pub open spec fn not_found_text(name: Seq<char>) -> Seq<char> {
    "Error: '"@ + name + "' not found."@
}

/// The note shown when the user picked a name.
pub open spec fn selected_text(name: Seq<char>) -> Seq<char> {
    name + " is selected"@
}

/// The diagnostic shown when a URL could not be opened; `reason` is what the
/// operating system said.
pub open spec fn launch_failed_text(reason: Seq<char>) -> Seq<char> {
    "Failed to open URL: "@ + reason
}

/// Builds the text of [`added_text`].
pub fn added() -> (text: String)
    ensures
        text@ == added_text(),
{
    "Added successfully!".to_owned()
}

/// Builds the text of [`duplicate_text`].
pub fn duplicate(name: &str) -> (text: String)
    ensures
        text@ == duplicate_text(name@),
{
    let mut text = "Error: '".to_owned();
    text.append(name);
    text.append("' already exists.");
    text
}

/// Builds the text of [`deleted_text`].
pub fn deleted(name: &str) -> (text: String)
    ensures
        text@ == deleted_text(name@),
{
    let mut text = "Deleted '".to_owned();
    text.append(name);
    text.append("'.");
    text
}

/// Builds the text of [`not_found_text`].
pub fn not_found(name: &str) -> (text: String)
    ensures
        text@ == not_found_text(name@),
{
    let mut text = "Error: '".to_owned();
    text.append(name);
    text.append("' not found.");
    text
}

/// Builds the text of [`selected_text`].
pub fn selected(name: &str) -> (text: String)
    ensures
        text@ == selected_text(name@),
{
    let mut text = name.to_owned();
    text.append(" is selected");
    text
}

/// Builds the text of [`launch_failed_text`].
pub fn launch_failed(reason: &str) -> (text: String)
    ensures
        text@ == launch_failed_text(reason@),
{
    let mut text = "Failed to open URL: ".to_owned();
    text.append(reason);
    text
}

} // verus!
