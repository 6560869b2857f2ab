use fzweb::{cli, get_args, Given};

fn given(flag: &str, values: &[&str]) -> Given {
    Given { flag: flag.to_string(), values: values.iter().map(|v| v.to_string()).collect() }
}

#[test]
fn cli_names_the_program() {
    let cli = cli();
    assert_eq!(cli.name, "fzweb");
    assert_eq!(cli.about, "A CLI tool to manage and open websites interactively.");
}

#[test]
fn cli_has_the_four_options() {
    let cli = cli();
    let longs: Vec<&str> = cli.flags.iter().map(|f| f.long).collect();
    let shorts: Vec<char> = cli.flags.iter().map(|f| f.short).collect();
    assert_eq!(longs, vec!["add", "open", "del", "list"]);
    assert_eq!(shorts, vec!['a', 'o', 'd', 'l']);
}

#[test]
fn cli_add_takes_a_name_and_a_url() {
    let cli = cli();
    let add = &cli.flags[0];
    assert_eq!(add.values, vec!["name", "url"]);
    assert!(add.repeatable);
    assert_eq!(add.help, "Add a website with a name and URL");
}

#[test]
fn cli_del_takes_a_name() {
    let cli = cli();
    let del = &cli.flags[2];
    assert_eq!(del.values, vec!["name"]);
    assert!(!del.repeatable);
    assert_eq!(del.help, "Delete a website by name");
}

#[test]
fn cli_open_and_list_are_switches() {
    let cli = cli();
    assert!(cli.flags[1].values.is_empty());
    assert!(!cli.flags[1].repeatable);
    assert_eq!(cli.flags[1].help, "Open a website in your default browser");
    assert!(cli.flags[3].values.is_empty());
    assert!(!cli.flags[3].repeatable);
}

#[test]
fn nothing_given_asks_for_nothing() {
    let args = get_args(vec![]);
    assert!(!args.open);
    assert!(!args.list);
    assert_eq!(args.add, None);
    assert_eq!(args.del, None);
    assert_eq!(args.add_request(), None);
}

#[test]
fn every_option_given() {
    let args = get_args(vec![
        given("list", &[]),
        given("del", &["old"]),
        given("add", &["docs", "https://example.com/docs"]),
        given("open", &[]),
    ]);
    assert!(args.open);
    assert!(args.list);
    assert_eq!(args.add, Some(vec!["docs".to_string(), "https://example.com/docs".to_string()]));
    assert_eq!(args.del, Some("old".to_string()));
    assert_eq!(
        args.add_request(),
        Some(("docs".to_string(), "https://example.com/docs".to_string()))
    );
}

#[test]
fn only_the_first_pair_to_add_is_honoured() {
    let args = get_args(vec![given("add", &["a", "https://a", "b", "https://b"])]);
    assert_eq!(
        args.add,
        Some(vec![
            "a".to_string(),
            "https://a".to_string(),
            "b".to_string(),
            "https://b".to_string()
        ])
    );
    assert_eq!(args.add_request(), Some(("a".to_string(), "https://a".to_string())));
}

#[test]
fn fewer_than_two_values_add_nothing() {
    assert_eq!(get_args(vec![given("add", &["a"])]).add_request(), None);
    assert_eq!(get_args(vec![given("add", &[])]).add_request(), None);
}

#[test]
fn del_takes_its_first_value() {
    assert_eq!(get_args(vec![given("del", &["x", "y"])]).del, Some("x".to_string()));
    assert_eq!(get_args(vec![given("del", &[])]).del, None);
}

#[test]
fn first_item_for_an_option_counts() {
    let args = get_args(vec![given("del", &["first"]), given("del", &["second"])]);
    assert_eq!(args.del, Some("first".to_string()));
}

#[test]
fn unknown_options_are_ignored() {
    let args = get_args(vec![given("verbose", &[]), given("Open", &[])]);
    assert!(!args.open);
    assert!(!args.list);
    assert_eq!(args.add, None);
    assert_eq!(args.del, None);
}
