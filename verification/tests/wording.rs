use fzweb::message;

#[test]
fn added_line() {
    assert_eq!(message::added(), "Added successfully!");
}

#[test]
fn duplicate_line() {
    assert_eq!(message::duplicate("docs"), "Error: 'docs' already exists.");
}

#[test]
fn deleted_line() {
    assert_eq!(message::deleted("docs"), "Deleted 'docs'.");
}

#[test]
fn not_found_line() {
    assert_eq!(message::not_found("docs"), "Error: 'docs' not found.");
}

#[test]
fn selected_line() {
    assert_eq!(message::selected("docs"), "docs is selected");
}

#[test]
fn launch_failed_line() {
    assert_eq!(
        message::launch_failed("no handler"),
        "Failed to open URL: no handler"
    );
}

#[test]
fn lines_keep_odd_names_as_they_are() {
    assert_eq!(message::duplicate(""), "Error: '' already exists.");
    assert_eq!(message::deleted("it's"), "Deleted 'it's'.");
}
