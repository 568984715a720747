use tree_cleanup::notifier::{
    apply_delivery_report, delivery_succeeded, notification_body, DeliveryReport,
    NOTIFY_DEADLINE_MS, NOTIFY_SUCCESS_STATUS,
};
use tree_cleanup::tree::Error;

#[test]
fn notification_body_is_the_decimal_value() {
    assert_eq!(notification_body(0), "0");
    assert_eq!(notification_body(5), "5");
    assert_eq!(notification_body(57), "57");
    assert_eq!(notification_body(1000), "1000");
    assert_eq!(notification_body(u32::MAX), "4294967295");
}

#[test]
fn only_status_200_confirms_delivery() {
    assert!(delivery_succeeded(200));
    assert!(!delivery_succeeded(201));
    assert!(!delivery_succeeded(404));
    assert!(!delivery_succeeded(500));
    assert_eq!(NOTIFY_SUCCESS_STATUS, 200);
    assert_eq!(NOTIFY_DEADLINE_MS, 3000);
}

#[test]
fn failed_delivery_keeps_the_marker_for_retry() {
    let mut marker: Option<u32> = Some(12);
    assert_eq!(
        apply_delivery_report(&mut marker, DeliveryReport::Failed),
        Err(Error::OcwError)
    );
    assert_eq!(marker, Some(12));
    assert_eq!(
        apply_delivery_report(&mut marker, DeliveryReport::StatusReceived(500)),
        Err(Error::OcwError)
    );
    assert_eq!(marker, Some(12));
}

#[test]
fn confirmed_delivery_clears_the_marker() {
    let mut marker: Option<u32> = Some(12);
    assert_eq!(
        apply_delivery_report(&mut marker, DeliveryReport::StatusReceived(200)),
        Ok(())
    );
    assert_eq!(marker, None);
}

#[test]
fn retry_until_success_then_idle_until_next_decay() {
    let mut marker: Option<u32> = Some(9);
    for _ in 0..3 {
        assert!(apply_delivery_report(&mut marker, DeliveryReport::Failed).is_err());
        assert_eq!(marker, Some(9));
    }
    assert!(apply_delivery_report(&mut marker, DeliveryReport::StatusReceived(200)).is_ok());
    assert_eq!(marker, None);
    // With no marker, the worker makes no attempt; nothing changes until a
    // decay writes the marker anew.
}
