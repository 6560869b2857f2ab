use fzweb::{AddOutcome, Config, Persisted, RemoveOutcome, Selection, Website};

fn site(name: &str, url: &str) -> Website {
    Website::new(name.to_string(), url.to_string())
}

fn store(entries: &[(&str, &str)]) -> Config {
    Config::load(Persisted::Parsed(entries.iter().map(|(n, u)| site(n, u)).collect()))
}

#[test]
fn new_store_is_empty() {
    let config = Config::new();
    assert!(config.is_empty());
    assert_eq!(config.len(), 0);
    assert_eq!(config.list(), Vec::<Website>::new());
    assert_eq!(config.candidate_names(), Vec::<String>::new());
}

#[test]
fn load_missing_gives_empty_store() {
    let config = Config::load(Persisted::Missing);
    assert!(config.is_empty());
    assert_eq!(config.list(), Vec::<Website>::new());
}

#[test]
fn load_unreadable_falls_back_to_empty_store() {
    let config = Config::load(Persisted::Unreadable);
    assert!(config.is_empty());
    assert_eq!(config.len(), 0);
}

#[test]
fn load_parsed_keeps_entries_and_order() {
    let config = store(&[("b", "https://b"), ("a", "https://a"), ("c", "https://c")]);
    assert!(!config.is_empty());
    assert_eq!(config.len(), 3);
    assert_eq!(
        config.list(),
        vec![site("b", "https://b"), site("a", "https://a"), site("c", "https://c")]
    );
}

#[test]
fn listing_then_loading_gives_the_same_store() {
    let mut config = Config::new();
    config.add_website("one".to_string(), "https://1".to_string());
    config.add_website("two".to_string(), "https://2".to_string());
    config.add_website("three".to_string(), "https://3".to_string());
    let reloaded = Config::load(Persisted::Parsed(config.list()));
    assert_eq!(reloaded.list(), config.list());
    assert_eq!(reloaded.candidate_names(), config.candidate_names());
}

#[test]
fn add_to_empty_store() {
    let mut config = Config::new();
    let outcome = config.add_website("docs".to_string(), "https://example.com/docs".to_string());
    assert_eq!(outcome, AddOutcome::Added);
    assert_eq!(config.len(), 1);
    assert_eq!(config.list(), vec![site("docs", "https://example.com/docs")]);
}

#[test]
fn add_duplicate_keeps_first_url() {
    let mut config = Config::new();
    assert_eq!(
        config.add_website("docs".to_string(), "https://x".to_string()),
        AddOutcome::Added
    );
    assert_eq!(
        config.add_website("docs".to_string(), "https://y".to_string()),
        AddOutcome::Duplicate
    );
    assert_eq!(config.len(), 1);
    assert_eq!(config.list(), vec![site("docs", "https://x")]);
}

#[test]
fn add_compares_names_exactly() {
    let mut config = Config::new();
    config.add_website("docs".to_string(), "https://x".to_string());
    assert_eq!(
        config.add_website("Docs".to_string(), "https://y".to_string()),
        AddOutcome::Added
    );
    assert_eq!(
        config.add_website("docs ".to_string(), "https://z".to_string()),
        AddOutcome::Added
    );
    assert_eq!(config.candidate_names(), vec!["docs", "Docs", "docs "]);
}

#[test]
fn add_appends_at_the_end() {
    let mut config = store(&[("a", "1"), ("b", "2")]);
    assert_eq!(config.add_website("c".to_string(), "3".to_string()), AddOutcome::Added);
    assert_eq!(config.list(), vec![site("a", "1"), site("b", "2"), site("c", "3")]);
}

#[test]
fn add_accepts_any_url_text() {
    let mut config = Config::new();
    assert_eq!(
        config.add_website("odd".to_string(), "not a url at all".to_string()),
        AddOutcome::Added
    );
    assert_eq!(config.list(), vec![site("odd", "not a url at all")]);
}

#[test]
fn remove_only_entry_empties_store() {
    let mut config = Config::new();
    config.add_website("docs".to_string(), "https://example.com/docs".to_string());
    assert_eq!(config.remove_website("docs".to_string()), RemoveOutcome::Removed);
    assert!(config.is_empty());
    assert_eq!(config.list(), Vec::<Website>::new());
}

#[test]
fn remove_missing_name_changes_nothing() {
    let mut config = store(&[("a", "1"), ("b", "2")]);
    assert_eq!(config.remove_website("zzz".to_string()), RemoveOutcome::NotFound);
    assert_eq!(config.list(), vec![site("a", "1"), site("b", "2")]);
    assert_eq!(config.remove_website("zzz".to_string()), RemoveOutcome::NotFound);
    assert_eq!(config.list(), vec![site("a", "1"), site("b", "2")]);
}

#[test]
fn remove_from_empty_store_is_not_found() {
    let mut config = Config::new();
    assert_eq!(config.remove_website("a".to_string()), RemoveOutcome::NotFound);
    assert!(config.is_empty());
}

#[test]
fn remove_keeps_order_of_the_rest() {
    let mut config = store(&[("a", "1"), ("b", "2"), ("c", "3"), ("d", "4")]);
    assert_eq!(config.remove_website("b".to_string()), RemoveOutcome::Removed);
    assert_eq!(config.list(), vec![site("a", "1"), site("c", "3"), site("d", "4")]);
    assert_eq!(config.candidate_names(), vec!["a", "c", "d"]);
}

#[test]
fn remove_takes_out_every_entry_with_the_name() {
    let mut config = store(&[("a", "1"), ("b", "2"), ("a", "3"), ("c", "4"), ("a", "5")]);
    assert_eq!(config.remove_website("a".to_string()), RemoveOutcome::Removed);
    assert_eq!(config.list(), vec![site("b", "2"), site("c", "4")]);
}

#[test]
fn interleaved_adds_and_removes_keep_insertion_order() {
    let mut config = Config::new();
    config.add_website("a".to_string(), "1".to_string());
    config.add_website("b".to_string(), "2".to_string());
    config.add_website("c".to_string(), "3".to_string());
    config.remove_website("a".to_string());
    config.add_website("d".to_string(), "4".to_string());
    config.add_website("a".to_string(), "5".to_string());
    config.remove_website("c".to_string());
    config.add_website("b".to_string(), "6".to_string());
    assert_eq!(config.candidate_names(), vec!["b", "d", "a"]);
    assert_eq!(config.list(), vec![site("b", "2"), site("d", "4"), site("a", "5")]);
}

#[test]
fn contains_tells_taken_names() {
    let config = store(&[("a", "1"), ("b", "2")]);
    assert!(config.contains("a"));
    assert!(config.contains("b"));
    assert!(!config.contains("c"));
    assert!(!config.contains("A"));
    assert!(!config.contains(""));
}

#[test]
fn find_by_name_gives_the_entry() {
    let config = store(&[("a", "1"), ("b", "2")]);
    assert_eq!(config.find_by_name("b"), Some(&site("b", "2")));
    assert_eq!(config.find_by_name("a"), Some(&site("a", "1")));
    assert_eq!(config.find_by_name("c"), None);
}

#[test]
fn find_by_name_gives_the_first_of_several() {
    let config = store(&[("a", "1"), ("b", "2"), ("a", "3")]);
    assert_eq!(config.find_by_name("a"), Some(&site("a", "1")));
}

#[test]
fn candidate_names_follow_the_list() {
    let config = store(&[("zeta", "1"), ("alpha", "2"), ("mid", "3")]);
    assert_eq!(config.candidate_names(), vec!["zeta", "alpha", "mid"]);
}

#[test]
fn open_website_resolves_a_chosen_name() {
    let config = store(&[("a", "https://a"), ("b", "https://b")]);
    assert_eq!(
        config.open_website(&Selection::Chosen("b".to_string())),
        Some("https://b".to_string())
    );
}

#[test]
fn open_website_has_no_url_without_a_choice() {
    let config = store(&[("a", "https://a")]);
    assert_eq!(config.open_website(&Selection::Aborted), None);
    assert_eq!(config.open_website(&Selection::NoSelection), None);
}

#[test]
fn open_website_has_no_url_for_an_unknown_name() {
    let config = store(&[("a", "https://a")]);
    assert_eq!(config.open_website(&Selection::Chosen("x".to_string())), None);
}

#[test]
fn website_duplicate_is_equal() {
    let website = site("a", "https://a");
    assert_eq!(website.duplicate(), website);
    assert_eq!(website.name, "a");
    assert_eq!(website.url, "https://a");
}

#[test]
fn store_lies_below_the_configuration_directory() {
    assert_eq!(fzweb::STORE_DIR, ".config/fzweb");
    assert_eq!(fzweb::STORE_FILE, ".config/fzweb/config.json");
}
