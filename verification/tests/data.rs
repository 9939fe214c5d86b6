use sermo::{Direction, Message, Number, Point, PointBuffer, Timestamp};

fn num(s: &str) -> Number {
    Number::from_text(s.to_string()).unwrap()
}

#[test]
fn test_data_point_creation() {
    let point = Point::new(Timestamp(0), num("42.0"));
    assert_eq!(point.value().as_text().parse::<f64>().unwrap(), 42.0);
}

#[test]
fn test_data_buffer_push() {
    let mut buffer = PointBuffer::new(10);
    buffer.push_value(Timestamp(1), num("1.0"));
    buffer.push_value(Timestamp(2), num("2.0"));
    assert_eq!(buffer.len(), 2);
}

#[test]
fn test_data_buffer_last() {
    let mut buffer = PointBuffer::new(10);
    buffer.push_value(Timestamp(1), num("1.0"));
    buffer.push_value(Timestamp(2), num("2.0"));
    assert_eq!(buffer.last().unwrap().value().as_text().parse::<f64>().unwrap(), 2.0);
}

#[test]
fn test_data_buffer_filter_by_name() {
    let mut buffer = PointBuffer::new(10);
    buffer.push(Point::new(Timestamp(1), num("1.0")).with_label("temp".to_string()));
    buffer.push(Point::new(Timestamp(2), num("2.0")).with_label("volt".to_string()));
    buffer.push(Point::new(Timestamp(3), num("3.0")).with_label("temp".to_string()));
    buffer.push(Point::new(Timestamp(4), num("4.0")));

    let temps = buffer.iter_by_name("temp");
    assert_eq!(temps.len(), 2);

    let filtered = buffer.filtered_by_name("volt");
    assert_eq!(filtered.len(), 1);
    assert_eq!(filtered.last().unwrap().value().as_text().parse::<f64>().unwrap(), 2.0);
}

#[test]
fn buffer_filter_keeps_insertion_order_and_skips_unlabeled() {
    let mut buffer = PointBuffer::new(4);
    buffer.push(Point::new(Timestamp(1), num("1.5")).with_label("temp".to_string()));
    buffer.push(Point::new(Timestamp(2), num("2.5")));
    buffer.push(Point::new(Timestamp(3), num("3.5")).with_label("temp".to_string()));
    let temps = buffer.iter_by_name("temp");
    assert_eq!(temps.len(), 2);
    assert_eq!(temps[0].timestamp().as_millis(), 1);
    assert_eq!(temps[0].value().as_text(), "1.5");
    assert_eq!(temps[1].timestamp().as_millis(), 3);
    assert_eq!(temps[1].value().as_text(), "3.5");
}

#[test]
fn buffer_capacity_is_only_a_hint() {
    // The capacity given to `new` reserves space but does not evict:
    // pushing past it grows the buffer.
    let mut buffer = PointBuffer::new(2);
    for i in 0..5u64 {
        buffer.push_value(Timestamp(i), num("1.0"));
    }
    assert_eq!(buffer.len(), 5);
    assert_eq!(buffer.last().unwrap().timestamp().as_millis(), 4);
}

#[test]
fn buffer_clear_and_is_empty() {
    let mut buffer = PointBuffer::default();
    assert!(buffer.is_empty());
    assert!(buffer.last().is_none());
    buffer.push_value(Timestamp(1), num("1.0"));
    assert!(!buffer.is_empty());
    buffer.clear();
    assert!(buffer.is_empty());
    assert_eq!(buffer.len(), 0);
}

#[test]
fn buffer_iter_returns_all_points_in_order() {
    let mut buffer = PointBuffer::new(3);
    buffer.push_value(Timestamp(7), num("7.0"));
    buffer.push_value(Timestamp(8), num("8.0"));
    let all = buffer.iter();
    assert_eq!(all.len(), 2);
    assert_eq!(all[0].timestamp().as_millis(), 7);
    assert_eq!(all[1].timestamp().as_millis(), 8);
}

#[test]
fn message_from_read_bytes_decodes_lossily() {
    let msg = Message::from_read_bytes(Timestamp(5), vec![0xFF, b'a']);
    assert_eq!(msg.text(), "\u{FFFD}a");
    assert_eq!(msg.direction(), Direction::In);
    assert_eq!(msg.timestamp().as_millis(), 5);
}

#[test]
fn message_from_empty_read_is_empty_text() {
    let msg = Message::from_read_bytes(Timestamp(9), Vec::new());
    assert_eq!(msg.text(), "");
    assert_eq!(msg.direction(), Direction::In);
}

#[test]
fn timestamp_conversions_round_trip() {
    let t = Timestamp::from_millis(1234);
    assert_eq!(t.as_millis(), 1234);
    let t2: Timestamp = Timestamp::from(99u64);
    assert_eq!(u64::from(t2), 99);
}

#[test]
fn point_label_accessor() {
    let p = Point::new(Timestamp(5), num("1.0"));
    assert!(p.label().is_none());
    assert_eq!(p.timestamp().as_millis(), 5);
    let p = p.with_label("temp".to_string());
    assert_eq!(p.label(), Some("temp"));
}
