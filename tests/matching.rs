use lorebot::config::parse_phrases;
use lorebot::error::ConfigError;
use lorebot::matcher::MatchIndex;

fn index(phrases: &[&str]) -> MatchIndex {
    let v: Vec<String> = phrases.iter().map(|p| p.to_string()).collect();
    MatchIndex::build(&v).unwrap()
}

#[test]
fn query_finds_phrase_case_insensitively() {
    let m = index(&["lore", "shutup"]);
    assert!(m.query("tell me the Lore"));
    assert!(m.query("SHUTUP please"));
    assert!(!m.query("tell me a story"));
}

#[test]
fn query_lowered_does_not_fold_case() {
    let m = index(&["lore"]);
    assert!(m.query_lowered("some lore"));
    assert!(!m.query_lowered("some LORE"));
}

#[test]
fn query_matches_plain_substrings_across_words() {
    let m = index(&["or"]);
    assert!(m.query("Lore"));
    let m = index(&["e t"]);
    assert!(m.query("the Thing"));
    assert!(!m.query("the\tthing"));
}

#[test]
fn query_on_empty_phrase_set_finds_nothing() {
    let m = index(&[]);
    assert!(!m.query("anything"));
    assert!(!m.query(""));
}

#[test]
fn empty_phrase_occurs_in_every_text() {
    let m = index(&[""]);
    assert!(m.query(""));
    assert!(m.query("whatever"));
}

#[test]
fn phrase_order_does_not_change_answers() {
    let a = index(&["alpha", "beta", "gamma"]);
    let b = index(&["gamma", "alpha", "beta"]);
    for t in ["", "ALPHA", "a beta b", "gam", "gamma ray", "nothing here"] {
        assert_eq!(a.query(t), b.query(t));
    }
}

#[test]
fn built_from_parsed_list_matches_case_insensitively() {
    let phrases = parse_phrases(" Lore ~ Ancient Tales", '~');
    assert_eq!(phrases, vec!["lore".to_string(), "ancient tales".to_string()]);
    let m = MatchIndex::build(&phrases).unwrap();
    assert!(m.query("any ANCIENT tales?"));
    assert!(m.query("LORE"));
    assert!(!m.query("ancient  tales"));
}

#[test]
fn non_ascii_text_is_folded_and_matched() {
    let m = index(&["ärger"]);
    assert!(m.query("Viel ÄRGER heute"));
    assert!(!m.query("arger"));
}

#[test]
fn build_error_maps_to_config_error() {
    let e = ConfigError::MatcherBuild;
    assert_eq!(e, ConfigError::MatcherBuild);
    assert!(MatchIndex::build(&vec!["x".to_string()]).is_ok());
}
