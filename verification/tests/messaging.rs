use rhelper::messaging::{
    error_message, status_message, MessageManager, MessagePriority, MessageType, UserMessage,
    BACKLOG_CAPACITY, CRITICAL_DISPLAY_MS, FADE_TAIL_MS, NORMAL_DISPLAY_MS,
};

fn info(text: &str, now: u64) -> UserMessage {
    status_message(text.to_string(), now)
}

#[test]
fn new_message_takes_duration_from_priority() {
    let normal = UserMessage::new("a".to_string(), MessageType::Info, MessagePriority::Normal, 7);
    assert_eq!(normal.duration, 3000);
    assert_eq!(normal.timestamp, 7);
    assert_eq!(normal.content, "a");
    assert_eq!(normal.message_type, MessageType::Info);
    let critical =
        UserMessage::new("b".to_string(), MessageType::Error, MessagePriority::Critical, 9);
    assert_eq!(critical.duration, 8000);
    assert_eq!(critical.message_type, MessageType::Error);
}

#[test]
fn constants_have_their_documented_values() {
    assert_eq!(NORMAL_DISPLAY_MS, 3000);
    assert_eq!(CRITICAL_DISPLAY_MS, 8000);
    assert_eq!(FADE_TAIL_MS, 2100);
    assert_eq!(BACKLOG_CAPACITY, 10);
}

#[test]
fn status_and_error_messages_differ_in_kind_and_duration() {
    let s = status_message("ok".to_string(), 0);
    assert_eq!(s.message_type, MessageType::Info);
    assert_eq!(s.duration, 3000);
    let e = error_message("bad".to_string(), 0);
    assert_eq!(e.message_type, MessageType::Error);
    assert_eq!(e.duration, 8000);
}

#[test]
fn fade_starts_strictly_after_the_display_time() {
    let m = info("x", 1000);
    assert!(!m.should_fade(1000));
    assert!(!m.should_fade(4000));
    assert!(m.should_fade(4001));
}

#[test]
fn expiry_comes_strictly_after_the_fade_tail() {
    let m = info("x", 1000);
    assert!(!m.is_expired(1000 + 3000 + 2100));
    assert!(m.is_expired(1000 + 3000 + 2101));
}

#[test]
fn critical_message_lasts_eight_seconds() {
    let m = error_message("x".to_string(), 500);
    assert!(!m.is_expired(500 + 8000));
    assert!(!m.should_fade(500 + 8000));
    assert!(!m.is_expired(500 + 10100));
    assert!(m.is_expired(500 + 10101));
}

#[test]
fn clock_before_creation_counts_as_age_zero() {
    let m = info("x", 1000);
    assert_eq!(m.age_millis(10), 0);
    assert!(!m.is_expired(10));
    assert_eq!(m.age_millis(1250), 250);
}

#[test]
fn huge_duration_never_expires() {
    let m = UserMessage {
        content: "x".to_string(),
        message_type: MessageType::Info,
        timestamp: 0,
        duration: u64::MAX,
    };
    assert!(!m.is_expired(u64::MAX));
    assert!(!m.should_fade(u64::MAX));
}

#[test]
fn empty_manager_shows_nothing() {
    let m = MessageManager::new();
    assert!(m.get_current_message(0).is_none());
    assert_eq!(m.backlog_len(), 0);
    let d = MessageManager::default();
    assert!(d.get_current_message(0).is_none());
}

#[test]
fn second_post_is_shown_and_first_waits() {
    let mut m = MessageManager::new();
    m.add_message(info("first", 0), 0);
    m.add_message(info("second", 1000), 1000);
    assert_eq!(m.get_current_message(1000).unwrap().content, "second");
    assert_eq!(m.backlog_len(), 1);
}

#[test]
fn first_is_promoted_after_second_expires() {
    let mut m = MessageManager::new();
    m.add_message(error_message("first".to_string(), 0), 0);
    m.add_message(info("second", 1000), 1000);
    // The second expires after 1000 + 5100; the first, critical, lasts until 10100.
    m.update(6101);
    assert_eq!(m.get_current_message(6101).unwrap().content, "first");
    assert_eq!(m.backlog_len(), 0);
}

#[test]
fn expired_backlog_entry_is_discarded_not_shown() {
    let mut m = MessageManager::new();
    m.add_message(info("first", 0), 0);
    m.add_message(info("second", 1000), 1000);
    // At 6101 the second is expired, and so is the first (after 5100).
    m.update(6101);
    assert!(m.get_current_message(6101).is_none());
    assert_eq!(m.backlog_len(), 0);
}

#[test]
fn promotion_skips_expired_entries_on_top() {
    let mut m = MessageManager::new();
    m.add_message(error_message("old critical".to_string(), 0), 0);
    m.add_message(info("normal", 100), 100);
    m.add_message(info("shown", 200), 200);
    assert_eq!(m.backlog_len(), 2);
    // At 5400 "shown" (till 5300) and "normal" (till 5200) are expired.
    m.update(5400);
    assert_eq!(m.get_current_message(5400).unwrap().content, "old critical");
    assert_eq!(m.backlog_len(), 0);
}

#[test]
fn replaced_message_is_kept_until_it_begins_to_fade() {
    // A normal message fades after 3000 ms.
    let mut m = MessageManager::new();
    m.add_message(info("normal", 0), 0);
    m.add_message(info("later", 3000), 3000);
    assert_eq!(m.backlog_len(), 1);
    let mut m = MessageManager::new();
    m.add_message(info("normal", 0), 0);
    m.add_message(info("later", 3001), 3001);
    assert_eq!(m.backlog_len(), 0);
    // A critical message fades after 8000 ms.
    let mut m = MessageManager::new();
    m.add_message(error_message("critical".to_string(), 0), 0);
    m.add_message(info("later", 5000), 5000);
    assert_eq!(m.backlog_len(), 1);
    let mut m = MessageManager::new();
    m.add_message(error_message("critical".to_string(), 0), 0);
    m.add_message(info("later", 8000), 8000);
    assert_eq!(m.backlog_len(), 1);
    let mut m = MessageManager::new();
    m.add_message(error_message("critical".to_string(), 0), 0);
    m.add_message(info("later", 8001), 8001);
    assert_eq!(m.backlog_len(), 0);
}

#[test]
fn critical_message_replaced_late_comes_back() {
    let mut m = MessageManager::new();
    m.add_message(error_message("critical".to_string(), 0), 0);
    m.add_message(info("normal", 4000), 4000);
    // The normal message is expired after 9100; the critical one lasts until 10100.
    m.update(9101);
    assert_eq!(m.get_current_message(9101).unwrap().content, "critical");
    assert_eq!(m.backlog_len(), 0);
}

#[test]
fn backlog_never_exceeds_ten() {
    let mut m = MessageManager::new();
    for i in 0..30u64 {
        m.add_message(error_message(format!("m{}", i), i), i);
        assert!(m.backlog_len() <= 10);
    }
    assert_eq!(m.backlog_len(), 10);
    assert_eq!(m.get_current_message(29).unwrap().content, "m29");
}

#[test]
fn full_backlog_keeps_its_ten_newest() {
    // One long-lived message below ten short-lived ones stays in the backlog.
    let mut m = MessageManager::new();
    m.add_message(error_message("critical".to_string(), 0), 0);
    for i in 1..=10u64 {
        m.add_message(info("normal", i), i);
    }
    assert_eq!(m.backlog_len(), 10);
    m.update(5200);
    assert_eq!(m.get_current_message(5200).unwrap().content, "critical");
}

#[test]
fn overfull_backlog_drops_the_oldest() {
    // With eleven above it the long-lived message is the oldest and goes.
    let mut m = MessageManager::new();
    m.add_message(error_message("critical".to_string(), 0), 0);
    for i in 1..=11u64 {
        m.add_message(info("normal", i), i);
    }
    assert_eq!(m.backlog_len(), 10);
    m.update(5200);
    assert!(m.get_current_message(5200).is_none());
    assert_eq!(m.backlog_len(), 0);
}

#[test]
fn expired_current_is_absent_but_kept_until_update() {
    let mut m = MessageManager::new();
    m.add_message(info("x", 0), 0);
    assert!(m.get_current_message(5100).is_some());
    assert!(m.get_current_message(5101).is_none());
    m.update(5101);
    assert!(m.get_current_message(0).is_none());
}

#[test]
fn update_without_current_promotes_from_backlog() {
    let mut m = MessageManager::new();
    m.add_message(error_message("a".to_string(), 0), 0);
    m.add_message(error_message("b".to_string(), 10), 10);
    m.update(20);
    assert_eq!(m.get_current_message(20).unwrap().content, "b");
    assert_eq!(m.backlog_len(), 1);
    m.update(10111);
    assert!(m.get_current_message(10111).is_none());
    assert_eq!(m.backlog_len(), 0);
}

#[test]
fn cleanup_drops_expired_entries_on_post() {
    let mut m = MessageManager::new();
    m.add_message(info("a", 0), 0);
    m.add_message(info("b", 100), 100);
    assert_eq!(m.backlog_len(), 1);
    m.add_message(info("c", 6000), 6000);
    assert_eq!(m.backlog_len(), 0);
    assert_eq!(m.get_current_message(6000).unwrap().content, "c");
}

#[test]
fn promote_and_cleanup_can_be_called_directly() {
    let mut m = MessageManager::new();
    m.add_message(info("a", 0), 0);
    m.add_message(info("b", 100), 100);
    m.cleanup_queue(100);
    assert_eq!(m.backlog_len(), 1);
    m.promote_next_message(100);
    assert_eq!(m.get_current_message(100).unwrap().content, "a");
    m.cleanup_queue(100_000);
    assert_eq!(m.backlog_len(), 0);
}
