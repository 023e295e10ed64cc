use lorebot::clock::Suspension;
use lorebot::config::PARTS_PER_MILLION;
use lorebot::engine::{Bot, HandleError, Settings, Verdict};
use lorebot::error::ConfigError;

fn settings(lore: &str, chance_parts: u32) -> Settings {
    Settings {
        lore_text: lore.to_string(),
        lore_splitter: "~".to_string(),
        triggers: "lore".to_string(),
        trigger_splitter: "~".to_string(),
        disablers: "shutup".to_string(),
        disable_splitter: "~".to_string(),
        chance_parts,
        disable_for: "600".to_string(),
    }
}

fn bot(chance_parts: u32) -> Bot {
    Bot::from_settings(&settings("A~B", chance_parts)).unwrap()
}

#[test]
fn trigger_message_gets_one_lore_line() {
    let b = bot(PARTS_PER_MILLION);
    let r = b.handle("tell me the Lore", false).unwrap();
    let line = r.expect("a reply");
    assert!(line == "A" || line == "B");
}

#[test]
fn disabler_silences_following_triggers() {
    let b = bot(PARTS_PER_MILLION);
    assert_eq!(b.handle("please shutup now", false), Ok(None));
    assert_eq!(b.handle("lore?", false), Ok(None));
}

#[test]
fn zero_chance_never_replies() {
    let b = bot(0);
    for t in ["lore", "LORE LORE", "tell me the lore", "nothing"] {
        for _ in 0..50 {
            assert_eq!(b.handle(t, false), Ok(None));
        }
    }
}

#[test]
fn empty_corpus_fails_startup() {
    assert_eq!(
        Bot::from_settings(&settings("", PARTS_PER_MILLION)).err(),
        Some(ConfigError::EmptyCorpus)
    );
    assert_eq!(
        Bot::from_settings(&settings(" ~ ", PARTS_PER_MILLION)).err(),
        Some(ConfigError::EmptyCorpus)
    );
}

#[test]
fn bot_messages_never_get_a_reply() {
    let b = bot(PARTS_PER_MILLION);
    for _ in 0..50 {
        assert_eq!(b.handle("tell me the lore", true), Ok(None));
    }
}

#[test]
fn message_without_trigger_gets_no_reply() {
    let b = bot(PARTS_PER_MILLION);
    assert_eq!(b.handle("hello there", false), Ok(None));
}

#[test]
fn bot_authored_disabler_still_suspends() {
    let b = bot(PARTS_PER_MILLION);
    assert_eq!(b.handle("SHUTUP", true), Ok(None));
    assert_eq!(b.handle("lore", false), Ok(None));
}

#[test]
fn disabler_with_trigger_suspends_and_stays_silent() {
    let b = bot(PARTS_PER_MILLION);
    let mut s = Suspension::new();
    assert_eq!(b.decide(&mut s, "shutup about the lore", false, true, 1000, 0), Ok(Verdict::Suspend));
    assert_eq!(s.disabled_until, 1600);
    assert!(s.is_suspended(1000));
}

#[test]
fn decide_replies_with_drawn_index() {
    let b = bot(PARTS_PER_MILLION);
    let mut s = Suspension::new();
    assert_eq!(b.decide(&mut s, "some lore", false, true, 1000, 1), Ok(Verdict::Reply(1)));
    assert_eq!(s, Suspension::new());
}

#[test]
fn decide_checks_in_order() {
    let b = bot(PARTS_PER_MILLION);
    let mut s = Suspension::new();
    assert_eq!(b.decide(&mut s, "some lore", true, true, 1000, 0), Ok(Verdict::Silent));
    assert_eq!(b.decide(&mut s, "some lore", false, false, 1000, 0), Ok(Verdict::Silent));
    assert_eq!(b.decide(&mut s, "nothing", false, true, 1000, 0), Ok(Verdict::Silent));
    assert_eq!(s, Suspension::new());
    s.suspend(1000, 600);
    assert_eq!(b.decide(&mut s, "some lore", false, true, 1600, 0), Ok(Verdict::Silent));
    assert_eq!(b.decide(&mut s, "some lore", false, true, 1601, 0), Ok(Verdict::Reply(0)));
}

#[test]
fn decide_expects_lower_case_text() {
    let b = bot(PARTS_PER_MILLION);
    let mut s = Suspension::new();
    assert_eq!(b.decide(&mut s, "some LORE", false, true, 1000, 0), Ok(Verdict::Silent));
    assert_eq!(b.decide(&mut s, "SHUTUP", false, true, 1000, 0), Ok(Verdict::Silent));
}

#[test]
fn settings_errors_come_in_order() {
    let mut s = settings("A", PARTS_PER_MILLION + 1);
    s.lore_splitter = "ab".to_string();
    assert_eq!(Bot::from_settings(&s).err(), Some(ConfigError::ChanceOutOfRange));
    s.chance_parts = 0;
    s.lore_text = String::new();
    assert_eq!(Bot::from_settings(&s).err(), Some(ConfigError::InvalidDelimiter));
    s.lore_splitter = "~".to_string();
    s.disable_splitter = String::new();
    assert_eq!(Bot::from_settings(&s).err(), Some(ConfigError::EmptyCorpus));
    s.lore_text = "A".to_string();
    assert_eq!(Bot::from_settings(&s).err(), Some(ConfigError::InvalidDelimiter));
    s.disable_splitter = " , ".to_string();
    s.disable_for = "ten".to_string();
    assert_eq!(Bot::from_settings(&s).err(), Some(ConfigError::InvalidCooldown));
    s.disable_for = " 10 ".to_string();
    assert!(Bot::from_settings(&s).is_ok());
}

#[test]
fn decide_refuses_a_suspension_past_the_last_second() {
    let mut s = settings("A", PARTS_PER_MILLION);
    s.disable_for = "10".to_string();
    let b = Bot::from_settings(&s).unwrap();
    assert_eq!(b.cooldown(), 10);
    assert_eq!(b.lore_len(), 1);
    let mut state = Suspension::new();
    assert_eq!(
        b.decide(&mut state, "shutup", false, true, u64::MAX - 5, 0),
        Err(HandleError::SuspensionOverflow)
    );
    assert_eq!(state, Suspension::new());
    assert_eq!(b.decide(&mut state, "shutup", false, true, u64::MAX - 10, 0), Ok(Verdict::Suspend));
    assert_eq!(state.disabled_until, u64::MAX);
    assert_eq!(b.decide(&mut state, "lore", false, true, u64::MAX, 0), Ok(Verdict::Silent));
}

#[test]
fn huge_cooldown_overflows_on_disabler_only() {
    let mut s = settings("A", PARTS_PER_MILLION);
    s.disable_for = u64::MAX.to_string();
    let b = Bot::from_settings(&s).unwrap();
    assert_eq!(b.handle("lore", false), Ok(Some("A".to_string())));
    assert_eq!(b.handle("shutup", false), Err(HandleError::SuspensionOverflow));
}
