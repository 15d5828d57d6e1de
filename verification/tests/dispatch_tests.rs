use strategy_pattern::dispatch::exec_lookup;
use strategy_pattern::dispatch::exec_regexp;
use strategy_pattern::dispatch::exec_select;
use strategy_pattern::dispatch::initialize_map_fncs;
use strategy_pattern::dispatch::RegistryEntry;
use strategy_pattern::model::SearchMode;

fn entry(key: &str, fnc: usize) -> RegistryEntry {
    RegistryEntry { key: key.to_string(), fnc }
}

#[test]
fn exact_match_returns_registered_function() {
    let entries = vec![entry("hello", 0), entry("world", 1)];
    assert_eq!(exec_select(&entries, SearchMode::Exact, "hello"), Ok(0));
    assert_eq!(exec_select(&entries, SearchMode::Exact, "world"), Ok(1));
}

#[test]
fn exact_miss_reports_key_not_found() {
    let entries = vec![entry("hello", 0)];
    assert_eq!(
        exec_select(&entries, SearchMode::Exact, "bye"),
        Err("Key 'bye' not found".to_string())
    );
}

#[test]
fn exact_mode_rejects_other_case_variant() {
    let entries = vec![entry("HELLO", 0)];
    assert_eq!(
        exec_select(&entries, SearchMode::Exact, "hello"),
        Err("Key 'hello' not found".to_string())
    );
}

#[test]
fn exact_mode_last_registration_wins() {
    let entries = vec![entry("greet", 0), entry("greet", 1)];
    assert_eq!(exec_select(&entries, SearchMode::Exact, "greet"), Ok(1));
}

#[test]
fn ignore_case_matches_any_case_variant() {
    let entries = vec![entry("HELLO", 0)];
    assert_eq!(exec_select(&entries, SearchMode::IgnoreCase, "hello"), Ok(0));
    assert_eq!(exec_select(&entries, SearchMode::IgnoreCase, "HELLO"), Ok(0));
    assert_eq!(exec_select(&entries, SearchMode::IgnoreCase, "HeLlO"), Ok(0));
}

#[test]
fn ignore_case_variants_invoke_the_same_function() {
    let entries = vec![entry("HELLO", 0)];
    let upper = exec_select(&entries, SearchMode::IgnoreCase, "ABC".to_lowercase().as_str());
    let lower = exec_select(&entries, SearchMode::IgnoreCase, "abc");
    assert_eq!(upper, lower);
    let a = exec_select(&entries, SearchMode::IgnoreCase, "hello");
    let b = exec_select(&entries, SearchMode::IgnoreCase, "Hello");
    assert_eq!(a, b);
    assert_eq!(a, Ok(0));
}

#[test]
fn ignore_case_greeting_example() {
    let funcs: Vec<fn(String) -> String> = vec![|s| format!("Hi, {s}")];
    let entries = vec![entry("HELLO", 0)];
    match exec_select(&entries, SearchMode::IgnoreCase, "hello") {
        Ok(id) => assert_eq!(funcs[id]("Sam".to_string()), "Hi, Sam"),
        Err(e) => panic!("expected a match, got {e}"),
    }
    assert_eq!(
        exec_select(&entries, SearchMode::IgnoreCase, "bye"),
        Err("Key 'bye' not found".to_string())
    );
}

#[test]
fn regexp_dispatches_to_first_matching_pattern() {
    let entries = vec![entry("^a.*", 0), entry("^b.*", 1)];
    assert_eq!(exec_select(&entries, SearchMode::RegExp, "apple"), Ok(0));
    assert_eq!(exec_select(&entries, SearchMode::RegExp, "banana"), Ok(1));
    assert_eq!(
        exec_select(&entries, SearchMode::RegExp, "cherry"),
        Err("Key 'cherry' not found".to_string())
    );
}

#[test]
fn regexp_invalid_pattern_after_match_is_harmless() {
    let entries = vec![entry("^a.*", 0), entry("(", 1), entry("^c.*", 2)];
    assert_eq!(exec_select(&entries, SearchMode::RegExp, "apple"), Ok(0));
}

#[test]
fn regexp_invalid_pattern_blocks_later_entries() {
    let entries = vec![entry("^a.*", 0), entry("(", 1), entry("^c.*", 2)];
    assert_eq!(
        exec_select(&entries, SearchMode::RegExp, "cherry"),
        Err("Invalid regex expression: (".to_string())
    );
}

#[test]
fn regexp_invalid_first_pattern_fails_every_call() {
    let entries = vec![entry("(", 0), entry("^a.*", 1)];
    assert_eq!(
        exec_select(&entries, SearchMode::RegExp, "apple"),
        Err("Invalid regex expression: (".to_string())
    );
    assert_eq!(exec_regexp(&entries, "anything"), Err("Invalid regex expression: (".to_string()));
}

#[test]
fn dispatch_is_idempotent() {
    let entries = vec![entry("HELLO", 0), entry("^a.*", 1), entry("world", 2)];
    for mode in [SearchMode::Exact, SearchMode::IgnoreCase, SearchMode::RegExp] {
        for key in ["hello", "HELLO", "apple", "world", "missing", "("] {
            let first = exec_select(&entries, mode, key);
            let second = exec_select(&entries, mode, key);
            assert_eq!(first, second);
        }
    }
}

#[test]
fn lookup_table_is_built_once_and_reused() {
    let entries = vec![entry("Alpha", 0), entry("BETA", 1), entry("alpha", 2)];
    let table = initialize_map_fncs(&entries, SearchMode::IgnoreCase);
    assert_eq!(exec_lookup(&table, SearchMode::IgnoreCase, "ALPHA"), Ok(2));
    assert_eq!(exec_lookup(&table, SearchMode::IgnoreCase, "beta"), Ok(1));
    assert_eq!(exec_lookup(&table, SearchMode::IgnoreCase, "alpha"), Ok(2));
    assert_eq!(
        exec_lookup(&table, SearchMode::IgnoreCase, "gamma"),
        Err("Key 'gamma' not found".to_string())
    );
}

#[test]
fn exact_table_keeps_keys_as_written() {
    let entries = vec![entry("Alpha", 0)];
    let table = initialize_map_fncs(&entries, SearchMode::Exact);
    assert_eq!(exec_lookup(&table, SearchMode::Exact, "Alpha"), Ok(0));
    assert_eq!(
        exec_lookup(&table, SearchMode::Exact, "ALPHA"),
        Err("Key 'ALPHA' not found".to_string())
    );
}
