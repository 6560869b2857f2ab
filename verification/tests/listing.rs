use fzweb::table::{row, table};
use fzweb::Website;

fn site(name: &str, url: &str) -> Website {
    Website::new(name.to_string(), url.to_string())
}

#[test]
fn table_of_nothing_has_no_line() {
    assert_eq!(table(&vec![]), Vec::<String>::new());
}

#[test]
fn table_of_one_entry() {
    assert_eq!(table(&vec![site("docs", "https://example.com/docs")]), vec![
        "docs  https://example.com/docs"
    ]);
}

#[test]
fn table_pads_names_to_the_longest() {
    let lines = table(&vec![site("a", "1"), site("bbb", "2"), site("cc", "3")]);
    assert_eq!(lines, vec!["a    1", "bbb  2", "cc   3"]);
}

#[test]
fn table_counts_characters_not_bytes() {
    let lines = table(&vec![site("é", "1"), site("ab", "2")]);
    assert_eq!(lines, vec!["é   1", "ab  2"]);
}

#[test]
fn table_keeps_the_order_of_the_list() {
    let lines = table(&vec![site("z", "1"), site("a", "2")]);
    assert_eq!(lines, vec!["z  1", "a  2"]);
}

#[test]
fn row_pads_to_the_width() {
    assert_eq!(row(&site("ab", "u"), 5), "ab     u");
    assert_eq!(row(&site("ab", "u"), 2), "ab  u");
}

#[test]
fn row_never_cuts_a_name() {
    assert_eq!(row(&site("longer", "u"), 3), "longer  u");
    assert_eq!(row(&site("", ""), 0), "  ");
}
