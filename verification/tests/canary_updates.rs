use oofbot::canary::{
    canary_notice, get_channel_reply, get_update_channel_statement, is_expired, removal_plan,
    removals_fit_exec, set_channel_reply, set_update_channel_statement, unset_channel_reply,
    unset_update_channel_statement, update_channel_from_column, update_notice, update_notices, CanaryUpdateHandler,
};
use std::time::{Duration, Instant};

#[test]
fn add_contains_remove() {
    let mut h = CanaryUpdateHandler::new();
    assert!(!h.contains(5));
    h.add_canary_update(5);
    assert!(h.contains(5));
    h.add_canary_update(5);
    assert_eq!(h.len(), 1);
    h.add_canary_update(6);
    assert_eq!(h.len(), 2);
    assert!(h.remove_canary_update(5));
    assert!(!h.contains(5));
    assert!(h.contains(6));
    assert!(!h.remove_canary_update(5));
    assert_eq!(h.len(), 1);
}

#[test]
fn expiry_threshold_is_twenty_seconds() {
    assert!(!is_expired(20_000_000_000));
    assert!(is_expired(20_000_000_001));
    assert!(!is_expired(0));
}

#[test]
fn removal_plan_lists_flagged_positions() {
    assert_eq!(removal_plan(&vec![true, false, true]), vec![0, 2]);
    assert_eq!(removal_plan(&vec![false, false]), Vec::<usize>::new());
    assert!(removals_fit_exec(3, &vec![0, 1]));
    assert!(!removals_fit_exec(3, &vec![0, 2]));
    assert!(removals_fit_exec(3, &vec![2]));
}

#[test]
fn prune_flagged_removes_in_turn() {
    let mut h = CanaryUpdateHandler::new();
    h.add_canary_update(1);
    h.add_canary_update(2);
    h.add_canary_update(3);
    h.prune_flagged(&vec![false, true, false]);
    assert!(h.contains(1) && !h.contains(2) && h.contains(3));

    // Two expired entries at the front: the second removal reads the shifted
    // list, so the fresh entry goes and an expired one stays.
    let mut h = CanaryUpdateHandler::new();
    h.add_canary_update(1);
    h.add_canary_update(2);
    h.add_canary_update(3);
    h.prune_flagged(&vec![true, true, false]);
    assert!(!h.contains(1) && h.contains(2) && !h.contains(3));
}

#[test]
fn prune_expired_uses_the_clock() {
    let mut h = CanaryUpdateHandler::new();
    let old = Instant::now().checked_sub(Duration::from_secs(30)).unwrap();
    h.add_canary_update_at(1, old);
    h.add_canary_update(2);
    assert!(h.prune_expired());
    assert!(!h.contains(1));
    assert!(h.contains(2));
    assert!(h.prune_expired());
    assert!(h.contains(2));
}

#[test]
fn prune_expired_refuses_removals_past_the_end() {
    let mut h = CanaryUpdateHandler::new();
    let old = Instant::now().checked_sub(Duration::from_secs(60)).unwrap();
    h.add_canary_update_at(1, old);
    h.add_canary_update(2);
    h.add_canary_update_at(3, old);
    assert!(!h.prune_expired());
    assert_eq!(h.len(), 3);
}

#[test]
fn statements_for_the_update_channel() {
    assert_eq!(set_update_channel_statement(10, 20), "REPLACE INTO canary VALUES (10, 20)");
    assert_eq!(get_update_channel_statement(10), "SELECT channel_id FROM canary WHERE guild_id = 10");
    assert_eq!(unset_update_channel_statement(10), "DELETE FROM canary WHERE guild_id = 10");
}

#[test]
fn stored_channel_ids_are_reinterpreted() {
    assert_eq!(update_channel_from_column(5), 5);
    assert_eq!(update_channel_from_column(-1), u64::MAX);
    assert_eq!(update_channel_from_column(i64::MIN), 1u64 << 63);
}

#[test]
fn notices_name_the_user() {
    assert_eq!(
        canary_notice(453344368913547265),
        "Possible segmentation fault detected for <@453344368913547265>"
    );
    assert_eq!(canary_notice(7), "Possible canary update detected for <@7>");
    assert_eq!(update_notice(7, &vec![1, 7], Some(99)), Some((99, "Possible canary update detected for <@7>".to_string())));
    assert_eq!(update_notice(7, &vec![1], Some(99)), None);
    assert_eq!(update_notice(7, &vec![7], None), None);
}

#[test]
fn notices_go_to_every_guild_of_the_user_with_a_channel() {
    let guilds = vec![
        (vec![1, 7], Some(10)),
        (vec![7], None),
        (vec![2], Some(30)),
        (vec![7], Some(40)),
    ];
    let text = "Possible canary update detected for <@7>".to_string();
    assert_eq!(update_notices(7, &guilds), vec![(10, text.clone()), (40, text)]);
    assert_eq!(update_notices(7, &vec![]), vec![]);
}

#[test]
fn channel_command_replies() {
    assert_eq!(set_channel_reply(false, true), "Well how tf did this happen");
    assert_eq!(set_channel_reply(true, true), "Successfully set this channel to the canary update notification channel");
    assert_eq!(set_channel_reply(true, false), "Sql bad");
    assert_eq!(unset_channel_reply(true, true), "Unset canary update channel");
    assert_eq!(get_channel_reply(true, Some(3)), "<#3>");
    assert_eq!(get_channel_reply(true, None), "None");
    assert_eq!(get_channel_reply(false, Some(3)), "Well how tf did this happen");
}
