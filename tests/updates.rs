use telegram_bot::error::ApiError;
use telegram_bot::stream::{FailureStep, StreamAction, UpdatesStream, MAX_RETRY_DELAY_MS};
use telegram_bot::webhook::WebhookStream;
use telegram_bot::Api;

fn expect_poll(s: &mut UpdatesStream<&'static str>) -> i64 {
    match s.next_action() {
        StreamAction::Poll { offset, .. } => offset,
        _ => panic!("expected a fetch"),
    }
}

fn expect_emit(s: &mut UpdatesStream<&'static str>) -> &'static str {
    match s.next_action() {
        StreamAction::Emit(e) => e,
        _ => panic!("expected an event"),
    }
}

#[test]
fn cursor_sequence_follows_max_id() {
    let mut s = UpdatesStream::new(0, 5, None);
    assert_eq!(expect_poll(&mut s), 0);
    assert!(s.on_batch(&vec![6, 7], vec!["six", "seven"]));
    assert_eq!(expect_emit(&mut s), "six");
    assert_eq!(expect_emit(&mut s), "seven");
    assert_eq!(expect_poll(&mut s), 8);
    assert!(s.on_batch(&vec![9], vec!["nine"]));
    assert_eq!(expect_emit(&mut s), "nine");
    assert_eq!(expect_poll(&mut s), 10);
}

#[test]
fn initial_offset_five_then_two_events() {
    let mut s = UpdatesStream::new(5, 20, Some(100));
    match s.next_action() {
        StreamAction::Poll { offset, timeout, limit } => {
            assert_eq!(offset, 5);
            assert_eq!(timeout, 20);
            assert_eq!(limit, Some(100));
        }
        _ => panic!("expected a fetch"),
    }
    assert!(s.on_batch(&vec![6, 7], vec!["a", "b"]));
    assert_eq!(expect_emit(&mut s), "a");
    assert_eq!(expect_emit(&mut s), "b");
    assert_eq!(expect_poll(&mut s), 8);
}

#[test]
fn empty_batch_keeps_cursor_and_fetches_again() {
    let mut s = UpdatesStream::new(12, 5, None);
    assert_eq!(expect_poll(&mut s), 12);
    assert!(s.on_batch(&vec![], vec![]));
    assert_eq!(expect_poll(&mut s), 12);
}

#[test]
fn older_ids_do_not_move_cursor_back() {
    let mut s = UpdatesStream::new(50, 5, None);
    expect_poll(&mut s);
    assert!(s.on_batch(&vec![3, 4], vec!["x", "y"]));
    expect_emit(&mut s);
    expect_emit(&mut s);
    assert_eq!(expect_poll(&mut s), 50);
}

#[test]
fn largest_id_saturates_cursor() {
    let mut s = UpdatesStream::new(0, 5, None);
    expect_poll(&mut s);
    assert!(s.on_batch(&vec![i64::MAX], vec!["last"]));
    expect_emit(&mut s);
    assert_eq!(expect_poll(&mut s), i64::MAX);
}

#[test]
fn no_second_fetch_while_one_is_outstanding() {
    let mut s: UpdatesStream<&'static str> = UpdatesStream::new(0, 5, None);
    let mut outstanding = 0;
    for _ in 0..3 {
        match s.next_action() {
            StreamAction::Poll { .. } => {
                assert_eq!(outstanding, 0);
                outstanding += 1;
            }
            StreamAction::Wait => assert_eq!(outstanding, 1),
            _ => panic!("unexpected step"),
        }
    }
    assert_eq!(outstanding, 1);
}

#[test]
fn transient_failure_retries_same_cursor() {
    let mut s: UpdatesStream<&'static str> = UpdatesStream::new(3, 5, None);
    expect_poll(&mut s);
    assert!(matches!(s.on_error(ApiError::Network), FailureStep::Retry { delay_ms: 1000 }));
    assert_eq!(expect_poll(&mut s), 3);
    assert!(matches!(s.on_error(ApiError::Decode), FailureStep::Retry { delay_ms: 2000 }));
    assert_eq!(expect_poll(&mut s), 3);
    let bad = ApiError::Telegram { description: "Bad Request".to_string(), parameters: None };
    assert!(matches!(s.on_error(bad), FailureStep::Retry { delay_ms: 3000 }));
    assert_eq!(expect_poll(&mut s), 3);
    assert!(s.on_batch(&vec![], vec![]));
    assert_eq!(expect_poll(&mut s), 3);
    assert!(matches!(s.on_error(ApiError::Timeout), FailureStep::Retry { delay_ms: 1000 }));
}

#[test]
fn retry_delay_is_bounded() {
    let mut s: UpdatesStream<&'static str> = UpdatesStream::new(0, 5, None);
    let mut last = 0;
    for _ in 0..40 {
        expect_poll(&mut s);
        match s.on_error(ApiError::Network) {
            FailureStep::Retry { delay_ms } => last = delay_ms,
            _ => panic!("expected a retry"),
        }
    }
    assert_eq!(last, MAX_RETRY_DELAY_MS);
}

#[test]
fn unauthorized_closes_stream_and_reaches_consumer() {
    let mut s: UpdatesStream<&'static str> = UpdatesStream::new(0, 5, None);
    expect_poll(&mut s);
    let e = telegram_bot::envelope::decode_envelope(br#"{"ok":false,"description":"Unauthorized"}"#)
        .unwrap_err();
    match s.on_error(e) {
        FailureStep::Close(ApiError::Telegram { description, .. }) => assert_eq!(description, "Unauthorized"),
        _ => panic!("expected the stream to close"),
    }
    assert!(matches!(s.next_action(), StreamAction::Stop));
    assert!(matches!(s.next_action(), StreamAction::Stop));
}

#[test]
fn closing_mid_fetch_stops_fetching() {
    let mut s: UpdatesStream<&'static str> = UpdatesStream::new(0, 5, None);
    let mut fetches = 0;
    if let StreamAction::Poll { .. } = s.next_action() {
        fetches += 1;
    }
    s.close();
    assert!(!s.on_batch(&vec![1], vec!["late"]));
    assert!(matches!(s.on_error(ApiError::Network), FailureStep::Ignore));
    for _ in 0..5 {
        match s.next_action() {
            StreamAction::Poll { .. } => fetches += 1,
            StreamAction::Stop => {}
            _ => panic!("unexpected step"),
        }
    }
    assert_eq!(fetches, 1);
}

#[test]
fn api_stream_starts_at_zero() {
    let api = Api::from_token("t").unwrap();
    let mut s = api.stream::<&'static str>();
    assert_eq!(expect_poll(&mut s), 0);
}

#[test]
fn webhook_keeps_push_order() {
    let mut w = WebhookStream::new();
    assert_eq!(w.next_event(), None);
    w.push(1);
    w.push(2);
    assert_eq!(w.next_event(), Some(1));
    w.push(3);
    assert_eq!(w.next_event(), Some(2));
    assert_eq!(w.next_event(), Some(3));
    assert_eq!(w.next_event(), None);
}
