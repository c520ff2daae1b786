use chat_session::is_benign;
use chat_session::heartbeat_frame;
use chat_session::reply_frame;
use chat_session::ErrorClass;
use chat_session::HEARTBEAT_INTERVAL_MS;

#[test]
fn reply_frame_prefixes_and_trims() {
    assert_eq!(reply_frame("  Hi there \t\n"), "AI: Hi there");
    assert_eq!(reply_frame("plain"), "AI: plain");
    assert_eq!(reply_frame(""), "AI: ");
    assert_eq!(reply_frame(" inner  spaces kept "), "AI: inner  spaces kept");
}

#[test]
fn heartbeat_frame_is_the_fixed_marker() {
    assert_eq!(heartbeat_frame(), "Tick");
}

#[test]
fn heartbeat_interval_is_one_second() {
    assert_eq!(HEARTBEAT_INTERVAL_MS, 1000);
}

#[test]
fn benign_terminations_are_silent() {
    assert!(is_benign(&ErrorClass::ConnectionClosed));
    assert!(is_benign(&ErrorClass::Protocol));
    assert!(is_benign(&ErrorClass::Utf8));
    assert!(!is_benign(&ErrorClass::Other));
}
