use wechatbot::clock::{chrono_now, stamp, stamp_if_known};
use wechatbot::encoding::to_decimal;

#[test]
fn stamps() {
    assert_eq!(stamp(0), "0Z");
    assert_eq!(stamp(1700000000), "1700000000Z");
}

#[test]
fn stamps_of_known_times() {
    assert_eq!(stamp_if_known(Some(1700000000)), Some("1700000000Z".to_string()));
    assert_eq!(stamp_if_known(None), None);
}

#[test]
fn now_is_a_stamp_of_these_days() {
    let now = chrono_now().unwrap();
    let seconds: u64 = now.strip_suffix('Z').unwrap().parse().unwrap();
    let since = std::time::SystemTime::now()
        .duration_since(std::time::UNIX_EPOCH)
        .unwrap()
        .as_secs();
    assert!(seconds <= since && since - seconds < 60);
}

#[test]
fn decimals() {
    for n in [0, 7, 9, 10, 11, 99, 100, 1205, u64::MAX - 1, u64::MAX] {
        assert_eq!(to_decimal(n), n.to_string());
    }
}
