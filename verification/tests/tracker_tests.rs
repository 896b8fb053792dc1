use lumi::track_edits::{EditTracker, Message};

fn msg(id: u64, content: &str, timestamp: i64) -> Message {
    Message {
        id,
        channel_id: 5,
        guild_id: Some(9),
        author_id: 77,
        author_is_bot: false,
        content: String::from(content),
        timestamp,
        edited_timestamp: None,
        thread_creation: false,
    }
}

#[test]
fn track_command_is_idempotent() {
    let mut tracker = EditTracker::for_timespan(3600);
    let m = msg(1, "!ping", 100);
    tracker.track_command(&m, true);
    tracker.track_command(&m, false);
    assert_eq!(tracker.cache.len(), 1);
    assert!(tracker.cache[0].bot_response.is_none());
    // The second call changed nothing, including the deletion flag.
    assert!(tracker.cache[0].track_deletion);
}

#[test]
fn unchanged_content_does_not_retrigger() {
    let mut tracker = EditTracker::for_timespan(3600);
    tracker.track_command(&msg(1, "!ping", 100), false);
    tracker.set_bot_response(&msg(1, "!ping", 100), msg(900, "pong", 101), false);
    let decision = tracker.process_message_update(&msg(1, "!ping", 100), true);
    assert_eq!(decision, None);
}

#[test]
fn changed_content_retriggers_exactly_once() {
    let mut tracker = EditTracker::for_timespan(3600);
    tracker.track_command(&msg(1, "!ping", 100), false);
    tracker.set_bot_response(&msg(1, "!ping", 100), msg(900, "pong", 101), false);

    let edited = msg(1, "!ping again", 100);
    assert_eq!(tracker.process_message_update(&edited, true), Some(true));
    // The same edit arriving again is a metadata-only change now.
    assert_eq!(tracker.process_message_update(&edited, true), None);
}

#[test]
fn untracked_edit_policy() {
    let mut tracker = EditTracker::for_timespan(3600);
    // Unknown message: ignored when edits before a response are ignored.
    assert_eq!(tracker.process_message_update(&msg(2, "!x", 100), true), None);
    // Otherwise reported as an untracked edit.
    assert_eq!(
        tracker.process_message_update(&msg(2, "!x", 100), false),
        Some(false)
    );
}

#[test]
fn edit_before_response_is_ignored_when_configured() {
    let mut tracker = EditTracker::for_timespan(3600);
    tracker.track_command(&msg(1, "!ping", 100), false);
    // No response yet: the edit must not re-trigger.
    assert_eq!(
        tracker.process_message_update(&msg(1, "!ping edited", 100), true),
        None
    );
    // With the flag off, the content change re-triggers.
    assert_eq!(
        tracker.process_message_update(&msg(1, "!ping edited", 100), false),
        Some(true)
    );
}

#[test]
fn delete_returns_response_only_when_tracked() {
    let mut tracker = EditTracker::for_timespan(3600);
    tracker.set_bot_response(&msg(1, "!a", 100), msg(900, "a!", 101), true);
    tracker.set_bot_response(&msg(2, "!b", 100), msg(901, "b!", 101), false);

    let deleted = tracker.process_message_delete(1).unwrap();
    assert_eq!(deleted.id, 900);
    assert_eq!(tracker.cache.len(), 1);

    assert!(tracker.process_message_delete(2).is_none());
    assert_eq!(tracker.cache.len(), 0);

    assert!(tracker.process_message_delete(3).is_none());
}

#[test]
fn set_bot_response_overwrites() {
    let mut tracker = EditTracker::for_timespan(3600);
    tracker.track_command(&msg(1, "!ping", 100), true);
    tracker.set_bot_response(&msg(1, "!ping", 100), msg(900, "pong", 101), false);
    tracker.set_bot_response(&msg(1, "!ping", 100), msg(901, "pong2", 102), false);
    assert_eq!(tracker.cache.len(), 1);
    let found = tracker.find_bot_response(1).unwrap();
    assert_eq!(found.id, 901);
    // The entry keeps the deletion flag it was created with.
    assert!(tracker.cache[0].track_deletion);
}

#[test]
fn find_bot_response_absent_cases() {
    let mut tracker = EditTracker::for_timespan(3600);
    assert!(tracker.find_bot_response(1).is_none());
    tracker.track_command(&msg(1, "!ping", 100), false);
    assert!(tracker.find_bot_response(1).is_none());
}

#[test]
fn purge_evicts_only_old_entries() {
    let mut tracker = EditTracker::for_timespan(60);
    tracker.track_command(&msg(1, "!old", 100), false);
    tracker.track_command(&msg(2, "!young", 190), false);
    let mut edited_old = msg(3, "!edited", 50);
    edited_old.edited_timestamp = Some(195);
    tracker.track_command(&edited_old, false);

    tracker.purge(200);

    // 200 - 100 >= 60: evicted. 200 - 190 < 60: survives.
    // Last activity of the edited entry is its edit time 195: survives.
    assert_eq!(tracker.cache.len(), 2);
    assert_eq!(tracker.cache[0].user_msg.id, 2);
    assert_eq!(tracker.cache[1].user_msg.id, 3);
}

#[test]
fn purge_boundary_is_strict() {
    let mut tracker = EditTracker::for_timespan(60);
    tracker.track_command(&msg(1, "!x", 140), false);
    // Age exactly equal to the maximum is evicted.
    tracker.purge(200);
    assert_eq!(tracker.cache.len(), 0);

    let mut tracker = EditTracker::for_timespan(60);
    tracker.track_command(&msg(1, "!x", 141), false);
    tracker.purge(200);
    assert_eq!(tracker.cache.len(), 1);
}
