use std::collections::HashMap;

use swear_jar::clock::{redeem_allowed, DAY_NANOS};
use swear_jar::jar::{
    AddOutcome, CreateOutcome, GambleOutcome, MessageTally, QuitOutcome, RewardOutcome,
    ShameOutcome, SwearJar,
};
use swear_jar::pattern::SwearPattern;
use swear_jar::saved::{parse_saved_counters, SavedCountersError};

const ALICE: u64 = 11;
const BOB: u64 = 22;

fn jar_with(defaults: &[&str], saved: &[(u64, u32)]) -> SwearJar {
    let list = defaults.iter().map(|s| SwearPattern::new(s.to_string()).unwrap()).collect();
    let counters: HashMap<u64, u32> = saved.iter().cloned().collect();
    SwearJar::new(list, counters)
}

#[test]
fn new_jar_tracks_nobody() {
    let jar = jar_with(&["heck"], &[(BOB, 7)]);
    assert_eq!(jar.public_shame(ALICE), ShameOutcome::NotTracked);
    assert_eq!(jar.public_shame(BOB), ShameOutcome::NotTracked);
    assert_eq!(jar.swear_counters().get(&BOB), Some(&7));
    assert_eq!(jar.gamble(ALICE, 1), GambleOutcome::NoPoints);
}

#[test]
fn create_is_once_per_user() {
    let mut jar = jar_with(&["heck"], &[]);
    assert_eq!(jar.create_swear_jar(ALICE), CreateOutcome::Created);
    assert_eq!(jar.create_swear_jar(ALICE), CreateOutcome::AlreadyTracked);
    assert_eq!(jar.public_shame(ALICE), ShameOutcome::NotSworn);
    assert_eq!(jar.swear_counters().get(&ALICE), Some(&0));
}

#[test]
fn create_resets_a_saved_counter() {
    let mut jar = jar_with(&[], &[(ALICE, 9)]);
    assert_eq!(jar.create_swear_jar(ALICE), CreateOutcome::Created);
    assert_eq!(jar.swear_counters().get(&ALICE), Some(&0));
}

#[test]
fn messages_count_default_patterns_case_insensitively() {
    let mut jar = jar_with(&["heck", "darn"], &[]);
    jar.create_swear_jar(ALICE);
    let t = jar.handle_message(ALICE, "HECK, what the Heck, DARN it");
    assert_eq!(t, Some(MessageTally { matches: 2, total: Some(2) }));
    let t = jar.handle_message(ALICE, "heck");
    assert_eq!(t, Some(MessageTally { matches: 1, total: Some(3) }));
    let t = jar.handle_message(ALICE, "nice day");
    assert_eq!(t, Some(MessageTally { matches: 0, total: Some(3) }));
    assert_eq!(jar.public_shame(ALICE), ShameOutcome::Sworn { count: 3 });
}

#[test]
fn messages_of_untracked_users_count_nothing() {
    let mut jar = jar_with(&["heck"], &[(BOB, 4)]);
    let t = jar.handle_message(BOB, "heck heck");
    assert_eq!(t, Some(MessageTally { matches: 0, total: Some(4) }));
    let t = jar.handle_message(ALICE, "heck");
    assert_eq!(t, Some(MessageTally { matches: 0, total: None }));
    assert_eq!(jar.swear_counters().get(&ALICE), None);
}

#[test]
fn added_regex_counts_in_later_messages() {
    let mut jar = jar_with(&[], &[]);
    jar.create_swear_jar(ALICE);
    assert_eq!(jar.add_swear_regex(ALICE, "fr[i]+ck"), AddOutcome::Added);
    assert_eq!(jar.add_swear_regex(ALICE, "("), AddOutcome::Rejected);
    assert_eq!(jar.add_swear_regex(BOB, "x"), AddOutcome::NotTracked);
    let t = jar.handle_message(ALICE, "FRIIICK");
    assert_eq!(t, Some(MessageTally { matches: 1, total: Some(1) }));
}

#[test]
fn added_string_matches_whole_message_only() {
    let mut jar = jar_with(&[], &[]);
    jar.create_swear_jar(ALICE);
    assert_eq!(jar.add_swear_string(ALICE, "  Fudge "), AddOutcome::Added);
    assert_eq!(jar.add_swear_string(BOB, "fudge"), AddOutcome::NotTracked);
    let t = jar.handle_message(ALICE, "fudge it");
    assert_eq!(t, Some(MessageTally { matches: 0, total: Some(0) }));
    // The pattern keeps the case it was given; messages are lowercased.
    let t = jar.handle_message(ALICE, "FUDGE");
    assert_eq!(t, Some(MessageTally { matches: 0, total: Some(0) }));
    jar.add_swear_string(ALICE, "fudge");
    let t = jar.handle_message(ALICE, "FUDGE");
    assert_eq!(t, Some(MessageTally { matches: 1, total: Some(1) }));
}

#[test]
fn quit_reports_count_then_untracks() {
    let mut jar = jar_with(&["heck"], &[]);
    jar.create_swear_jar(ALICE);
    jar.handle_message(ALICE, "heck");
    assert_eq!(jar.quit_swear_jar(ALICE), QuitOutcome::Deleted { count: 1 });
    assert_eq!(jar.quit_swear_jar(ALICE), QuitOutcome::NotTracked);
    assert_eq!(jar.public_shame(ALICE), ShameOutcome::NotTracked);
    assert_eq!(jar.swear_counters().get(&ALICE), None);
}

#[test]
fn quit_then_create_starts_over() {
    let mut jar = jar_with(&["heck"], &[]);
    jar.create_swear_jar(ALICE);
    jar.handle_message(ALICE, "heck heck");
    assert_eq!(jar.quit_swear_jar(ALICE), QuitOutcome::Deleted { count: 1 });
    assert_eq!(jar.create_swear_jar(ALICE), CreateOutcome::Created);
    assert_eq!(jar.public_shame(ALICE), ShameOutcome::NotSworn);
}

#[test]
fn daily_reward_once_a_day() {
    let mut jar = jar_with(&[], &[]);
    let t0: i128 = 1_700_000_000_000_000_000;
    assert_eq!(jar.daily_reward_at(ALICE, t0), RewardOutcome::Granted { total: 100 });
    assert_eq!(jar.daily_reward_at(ALICE, t0), RewardOutcome::AlreadyRedeemed);
    assert_eq!(jar.daily_reward_at(ALICE, t0 + DAY_NANOS - 1), RewardOutcome::AlreadyRedeemed);
    assert_eq!(jar.daily_reward_at(ALICE, t0 - DAY_NANOS), RewardOutcome::AlreadyRedeemed);
    assert_eq!(jar.daily_reward_at(ALICE, t0 + DAY_NANOS), RewardOutcome::Granted { total: 200 });
    assert_eq!(jar.gamble(ALICE, 200), GambleOutcome::Accepted);
    assert_eq!(
        jar.gamble(ALICE, 201),
        GambleOutcome::TooFewPoints { requested: 201, available: 200 }
    );
    // 25 hours later the reward is granted again and stored.
    let t2 = t0 + DAY_NANOS + 25 * 3_600_000_000_000;
    assert_eq!(jar.daily_reward_at(ALICE, t2), RewardOutcome::Granted { total: 300 });
    assert_eq!(jar.gamble(ALICE, 300), GambleOutcome::Accepted);
}

#[test]
fn daily_reward_with_the_clock() {
    let mut jar = jar_with(&[], &[]);
    assert_eq!(jar.daily_reward(BOB), Some(RewardOutcome::Granted { total: 100 }));
    assert_eq!(jar.daily_reward(BOB), Some(RewardOutcome::AlreadyRedeemed));
}

#[test]
fn points_come_only_from_the_reward() {
    let mut jar = jar_with(&[], &[]);
    assert_eq!(jar.gamble(BOB, 0), GambleOutcome::NoPoints);
    assert_eq!(jar.daily_reward_at(BOB, 5), RewardOutcome::Granted { total: 100 });
    assert_eq!(jar.gamble(BOB, 100), GambleOutcome::Accepted);
    assert_eq!(jar.daily_reward_at(BOB, 6), RewardOutcome::AlreadyRedeemed);
    assert_eq!(jar.gamble(BOB, 101), GambleOutcome::TooFewPoints { requested: 101, available: 100 });
}

#[test]
fn gamble_checks_points() {
    let mut jar = jar_with(&[], &[]);
    jar.daily_reward_at(ALICE, 0);
    assert_eq!(jar.gamble(ALICE, 0), GambleOutcome::Accepted);
    assert_eq!(jar.gamble(ALICE, 100), GambleOutcome::Accepted);
    assert_eq!(
        jar.gamble(ALICE, 101),
        GambleOutcome::TooFewPoints { requested: 101, available: 100 }
    );
    assert_eq!(jar.gamble(BOB, 1), GambleOutcome::NoPoints);
}

#[test]
fn redeem_test_is_exact_at_a_day() {
    assert!(redeem_allowed(0, DAY_NANOS));
    assert!(!redeem_allowed(0, DAY_NANOS - 1));
    assert!(!redeem_allowed(0, 0));
    assert!(!redeem_allowed(DAY_NANOS, 0));
    assert!(redeem_allowed(i128::MIN, i128::MAX));
    assert!(!redeem_allowed(i128::MAX, i128::MIN));
}

#[test]
fn saved_counters_are_read() {
    let m = parse_saved_counters(r#"{"5": 3, "7": 0}"#).unwrap();
    assert_eq!(m.len(), 2);
    assert_eq!(m.get(&5), Some(&3));
    assert_eq!(m.get(&7), Some(&0));
    assert_eq!(parse_saved_counters("{}").unwrap().len(), 0);
}

#[test]
fn malformed_saved_counters_are_refused() {
    assert_eq!(parse_saved_counters("not json").map(|m| m.len()), Err(SavedCountersError::Malformed));
    assert_eq!(parse_saved_counters(r#"{"5": -1}"#).map(|m| m.len()), Err(SavedCountersError::Malformed));
    assert_eq!(parse_saved_counters("[1, 2]").map(|m| m.len()), Err(SavedCountersError::Malformed));
}

#[test]
fn jar_from_saved_text() {
    let defaults = vec![SwearPattern::new("heck".to_string()).unwrap()];
    let jar = SwearJar::from_saved(defaults, Some(r#"{"22": 4}"#)).unwrap();
    assert_eq!(jar.swear_counters().get(&BOB), Some(&4));
    let jar = SwearJar::from_saved(Vec::new(), None).unwrap();
    assert_eq!(jar.swear_counters().len(), 0);
    assert!(SwearJar::from_saved(Vec::new(), Some("{")).is_err());
}
