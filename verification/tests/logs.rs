use physim::logs::{LogsService, MAX_LOGS_PER_DEVICE, RETAIN_LOGS_THRESHOLD};

#[test]
fn logs_start_empty_without_reader() {
    let mut l = LogsService::new(3);
    assert_eq!(l.device_count(), 3);
    assert!(l.log_stream(2).0.is_empty());
}

#[test]
fn messages_are_kept_in_order() {
    let mut l = LogsService::new(2);
    assert_eq!(l.log(0, String::from("a")), None);
    assert_eq!(l.log(0, String::from("b")), None);
    assert_eq!(l.log(1, String::from("c")), None);
    assert_eq!(l.log_stream(0).0, vec![String::from("a"), String::from("b")]);
    assert_eq!(l.log_stream(1).0, vec![String::from("c")]);
}

#[test]
fn reader_is_forwarded_new_messages_until_it_ends() {
    let mut l = LogsService::new(1);
    l.log(0, String::from("old"));
    let (replay, reader) = l.log_stream(0);
    assert_eq!(replay, vec![String::from("old")]);
    assert_eq!(reader, 0);
    assert_eq!(l.log(0, String::from("new")), Some(0));
    l.end_stream(0);
    assert_eq!(l.log(0, String::from("later")), None);
    assert_eq!(
        l.log_stream(0).0,
        vec![String::from("old"), String::from("new"), String::from("later")]
    );
}

#[test]
fn overflowing_log_drops_oldest_messages() {
    let mut l = LogsService::new(1);
    for i in 0..=MAX_LOGS_PER_DEVICE {
        l.log(0, i.to_string());
    }
    // The log now holds one message more than the maximum.
    assert_eq!(l.log_stream(0).0.len(), MAX_LOGS_PER_DEVICE + 1);
    l.log(0, String::from("next"));
    let kept = l.log_stream(0).0;
    assert_eq!(kept.len(), MAX_LOGS_PER_DEVICE + 1 - RETAIN_LOGS_THRESHOLD + 1);
    assert_eq!(kept[0], RETAIN_LOGS_THRESHOLD.to_string());
    assert_eq!(kept.last().unwrap(), "next");
}

#[test]
fn log_never_holds_more_than_one_over_maximum() {
    let mut l = LogsService::new(1);
    for i in 0..(3 * MAX_LOGS_PER_DEVICE) {
        l.log(0, i.to_string());
        if i % 250 == 0 || [5000, 5001, 8999, 9000, 12998, 12999].contains(&i) {
            assert!(l.log_stream(0).0.len() <= MAX_LOGS_PER_DEVICE + 1);
        }
    }
}

#[test]
fn failed_delivery_ends_the_reader() {
    let mut l = LogsService::new(2);
    let (_, reader) = l.log_stream(1);
    assert_eq!(l.log(1, String::from("a")), Some(reader));
    l.record_delivery(1, true);
    assert_eq!(l.log(1, String::from("b")), Some(reader));
    l.record_delivery(1, false);
    assert_eq!(l.log(1, String::from("c")), None);
    // Delivery news for a log without a reader changes nothing.
    l.record_delivery(0, true);
    assert_eq!(l.log(0, String::from("d")), None);
    assert_eq!(
        l.log_stream(1).0,
        vec![String::from("a"), String::from("b"), String::from("c")]
    );
}

#[test]
fn only_the_newest_reader_receives_new_messages() {
    let mut l = LogsService::new(1);
    l.log(0, String::from("before"));
    let (first_replay, first) = l.log_stream(0);
    let (second_replay, second) = l.log_stream(0);
    assert_eq!(first_replay, vec![String::from("before")]);
    assert_eq!(second_replay, vec![String::from("before")]);
    assert_ne!(first, second);
    assert_eq!(l.log(0, String::from("after")), Some(second));
}

#[test]
fn readers_can_start_only_on_existing_logs() {
    let l = LogsService::new(2);
    assert!(l.can_start_reader(0));
    assert!(l.can_start_reader(1));
    assert!(!l.can_start_reader(2));
}
