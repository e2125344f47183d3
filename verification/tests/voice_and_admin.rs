use oofbot::admin::{dvs_status_reply, is_deletable, select_snap_targets, snap_count, snap_targets, snap_usage, MessageInfo, SnapKind};
use oofbot::voice::{find_song, join_reply, song_list, OofVoice, SongEntry};

fn entry(is_dir: bool, is_file: bool, stem: &str) -> SongEntry {
    SongEntry { is_dir, is_file, stem: Some(stem.to_string()) }
}

#[test]
fn queue_is_first_in_first_out() {
    let mut v = OofVoice::new();
    v.enqueue(1, "a".to_string());
    v.enqueue(1, "b".to_string());
    v.enqueue(2, "c".to_string());
    assert_eq!(v.take_next(1), Some("a".to_string()));
    assert_eq!(v.take_next(1), Some("b".to_string()));
    assert_eq!(v.take_next(1), None);
    assert_eq!(v.take_next(2), Some("c".to_string()));
    assert_eq!(v.take_next(3), None);
}

#[test]
fn player_tick_starts_the_next_songs() {
    let mut v = OofVoice::new();
    v.enqueue(1, "a".to_string());
    v.enqueue(1, "b".to_string());
    v.enqueue(2, "c".to_string());
    v.enqueue(3, "d".to_string());
    let started = v.advance(&vec![2, 1, 4]);
    assert_eq!(started, vec![(2, "c".to_string()), (1, "a".to_string())]);
    assert_eq!(v.take_next(1), Some("b".to_string()));
    assert_eq!(v.take_next(2), None);
    assert_eq!(v.take_next(3), Some("d".to_string()));
}

#[test]
fn removing_from_the_queue() {
    let mut v = OofVoice::new();
    v.enqueue(1, "a".to_string());
    v.enqueue(1, "b".to_string());
    assert!(!v.remove_from_queue(1, 2));
    assert!(!v.remove_from_queue(2, 0));
    assert!(v.remove_from_queue(1, 0));
    assert_eq!(v.take_next(1), Some("b".to_string()));
    let mut v = OofVoice::new();
    v.enqueue(1, "a".to_string());
    assert_eq!(v.remove_command(1, None), Some("Syntax: /remove <number in queue>"));
    assert_eq!(v.remove_command(1, Some(0)), Some("Invalid queue number"));
    assert_eq!(v.remove_command(1, Some(2)), Some("Invalid queue number"));
    assert_eq!(v.remove_command(1, Some(1)), None);
    assert_eq!(v.take_next(1), None);
}

#[test]
fn play_command_outcomes() {
    let mut v = OofVoice::new();
    assert_eq!(v.play_file_cmd(1, None, true), Err("Usage: /play \"song name\""));
    assert_eq!(v.play_file_cmd(1, Some("a".to_string()), false), Err("Must run /join first while in a voice channel"));
    assert_eq!(v.play_file_cmd(1, Some("a".to_string()), true), Ok(Some("a".to_string())));
    v.start_playing(1, "a".to_string());
    assert!(v.is_playing(1));
    assert_eq!(v.play_file_cmd(1, Some("b".to_string()), true), Ok(None));
    assert_eq!(v.take_next(1), Some("b".to_string()));
    v.leave(1);
    assert!(!v.is_playing(1));
    assert_eq!(v.now_playing(1), None);
}

#[test]
fn queue_listing() {
    let mut v = OofVoice::new();
    assert_eq!(v.queue_listing(1), "None");
    v.start_playing(1, "song".to_string());
    assert_eq!(v.queue_listing(1), "Currently Playing: song\n");
    v.enqueue(1, "x".to_string());
    v.enqueue(1, "y".to_string());
    assert_eq!(v.queue_listing(1), "Currently Playing: song\n1: x\n2: y\n");
    v.take_next(1);
    v.take_next(1);
    assert_eq!(v.queue_listing(1), "Currently Playing: song\n");
}

#[test]
fn songs_in_the_music_directory() {
    let entries = vec![entry(true, false, "song"), entry(false, true, "other"), entry(false, true, "song"), entry(false, true, "song")];
    assert_eq!(find_song(&entries, "song"), Some(2));
    assert_eq!(find_song(&entries, "missing"), None);
    let odd = vec![SongEntry { is_dir: false, is_file: true, stem: None }, entry(false, true, "")];
    assert_eq!(find_song(&odd, ""), Some(1));
    assert_eq!(song_list(&entries), "other\nsong\nsong\n");
    assert_eq!(join_reply(None, false), Some("Must be in a voice channel"));
    assert_eq!(join_reply(Some(1), false), Some("Failed to join the channel"));
    assert_eq!(join_reply(Some(1), true), None);
}

fn info(id: u64, bot: bool, content: &str, sent: i64) -> MessageInfo {
    MessageInfo { id, author_is_bot: bot, content: content.to_string(), sent_micros: sent }
}

const DAY: i64 = 86_400_000_000;

#[test]
fn clean_up_counts_and_window() {
    assert_eq!(snap_count(Some(500)), Some(500));
    assert_eq!(snap_count(Some(501)), None);
    assert_eq!(snap_count(None), None);
    assert_eq!(snap_usage(SnapKind::Pings), Some("Usage: /lazysnapping <number>"));
    assert_eq!(snap_usage(SnapKind::After), None);
    assert!(is_deletable(14 * DAY - 1, 0));
    assert!(!is_deletable(14 * DAY, 0));
    assert!(is_deletable(0, 5));
    assert!(!is_deletable(i64::MAX, i64::MIN));
    assert!(is_deletable(i64::MIN, i64::MAX));
}

#[test]
fn clean_up_selections() {
    let now = 100 * DAY;
    let msgs = vec![
        info(1, true, "/help", now - DAY),
        info(2, false, "/old", now - 20 * DAY),
        info(3, false, "<@5> hi", now - DAY),
        info(4, false, "!x", now - 1),
    ];
    let cmd = info(9, false, "/snap", now);
    let nows3 = vec![now; 4];
    let f3 = vec![false; 4];
    assert_eq!(snap_targets(SnapKind::BotMessages, &msgs, &cmd, &f3, &nows3), vec![1, 9]);
    assert_eq!(snap_targets(SnapKind::BotCommands, &msgs, &cmd, &f3, &nows3), vec![1, 9]);
    assert_eq!(snap_targets(SnapKind::Pings, &msgs, &cmd, &vec![false, false, true, false], &nows3), vec![3, 9]);
    assert_eq!(snap_targets(SnapKind::After, &msgs, &cmd, &f3, &nows3), vec![1, 3, 4]);
    assert_eq!(snap_targets(SnapKind::Spam, &msgs, &cmd, &vec![false; 5], &vec![now; 5]), vec![1, 3, 4, 9]);
}

#[test]
fn clean_up_with_the_clock_and_the_ping_pattern() {
    let now = chrono::Utc::now().timestamp_micros();
    let msgs = vec![
        info(1, false, "<@!5> hi", now - DAY),
        info(2, false, "no ping", now - DAY),
        info(3, false, "<@7>", now - 30 * DAY),
    ];
    let cmd = info(9, false, "/lazysnapping 3", now);
    assert_eq!(select_snap_targets(SnapKind::Pings, &msgs, &cmd), Some(vec![1, 9]));
    assert_eq!(select_snap_targets(SnapKind::Spam, &msgs, &cmd), Some(vec![1, 2, 9]));
}

#[test]
fn server_status_replies() {
    assert_eq!(dvs_status_reply(5, true), "<@5> Server port appears to be open, so it should be up.");
    assert_eq!(dvs_status_reply(5, false), "Server down indeed, <@324381278600298509> your server is on crack");
}
