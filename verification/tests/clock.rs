use restaurant_orders::services::clock::{ready_at, ready_offset_minutes, Timestamp};
use restaurant_orders::services::orders::{new_order, prepare_order, NewOrder, OrderCreateRequest};

#[test]
fn offset_is_five_plus_the_remainder_modulo_ten() {
    assert_eq!(ready_offset_minutes(0), 5);
    assert_eq!(ready_offset_minutes(1), 6);
    assert_eq!(ready_offset_minutes(9), 14);
    assert_eq!(ready_offset_minutes(10), 5);
    assert_eq!(ready_offset_minutes(123_456_787), 12);
    assert_eq!(ready_offset_minutes(i64::MAX), 12);
}

#[test]
fn offset_of_a_negative_number_is_in_the_window_too() {
    assert_eq!(ready_offset_minutes(-1), 14);
    assert_eq!(ready_offset_minutes(-9), 6);
    assert_eq!(ready_offset_minutes(-10), 5);
    assert_eq!(ready_offset_minutes(-11), 14);
    assert_eq!(ready_offset_minutes(i64::MIN), 7);
}

#[test]
fn offset_is_always_from_five_to_fourteen() {
    let mut random: i64 = i64::MIN;
    for _ in 0..4_000 {
        let minutes = ready_offset_minutes(random);
        assert!((5..=14).contains(&minutes), "{} gave {}", random, minutes);
        assert_eq!(minutes, 5 + random.rem_euclid(10));
        random = random.wrapping_add(4_611_686_018_427_387_907);
    }
}

#[test]
fn ready_time_adds_whole_minutes_and_keeps_the_nanoseconds() {
    let now = Timestamp { secs: 1_720_612_800, nanos: 123_456_789 };
    assert_eq!(ready_at(now, 0), Timestamp { secs: 1_720_613_100, nanos: 123_456_789 });
    assert_eq!(ready_at(now, 9), Timestamp { secs: 1_720_613_640, nanos: 123_456_789 });
    assert_eq!(ready_at(now, -3), Timestamp { secs: 1_720_613_520, nanos: 123_456_789 });
    let early = Timestamp { secs: -1_000, nanos: 0 };
    assert_eq!(ready_at(early, 4), Timestamp { secs: -460, nanos: 0 });
    let last = Timestamp { secs: i64::MAX - 840, nanos: 1 };
    assert_eq!(ready_at(last, 9), Timestamp { secs: i64::MAX, nanos: 1 });
}

#[test]
fn new_order_takes_the_request_and_the_ready_time() {
    let request = OrderCreateRequest { table_number: 3, item_name: "potato".to_string() };
    assert_eq!(
        new_order(request, Timestamp { secs: 60, nanos: 7 }, 25),
        NewOrder {
            table_number: 3,
            item_name: "potato".to_string(),
            ready_at: Timestamp { secs: 660, nanos: 7 },
        }
    );
}

#[test]
fn prepared_order_is_ready_five_to_fourteen_minutes_from_now() {
    let mut offsets = std::collections::BTreeSet::new();
    for _ in 0..400 {
        let request = OrderCreateRequest { table_number: 3, item_name: "potato".to_string() };
        let before = chrono::Utc::now();
        let row = prepare_order(request);
        let after = chrono::Utc::now();
        assert_eq!(row.table_number, 3);
        assert_eq!(row.item_name, "potato");
        let ready = chrono::DateTime::from_timestamp(row.ready_at.secs, row.ready_at.nanos)
            .expect("a time on the calendar");
        assert!(before + chrono::Duration::minutes(5) <= ready);
        assert!(ready <= after + chrono::Duration::minutes(14));
        let lowest = (ready - after).num_minutes();
        offsets.insert(lowest);
    }
    assert!(offsets.iter().all(|minutes| (4..=14).contains(minutes)));
    assert!(offsets.len() > 1, "the offsets never varied: {:?}", offsets);
}
