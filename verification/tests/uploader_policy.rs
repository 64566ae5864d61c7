//! Tests of the uploader's reconnection policy.

use sensor_suricata_service_rust::uploader::{next_upload_action, UploadAction, UploadEvent};

#[test]
fn connect_failures_retry_after_two_seconds() {
    assert!(matches!(
        next_upload_action(&UploadEvent::ConnectFailed),
        UploadAction::RetryConnect(2)
    ));
}

#[test]
fn stream_end_and_failure_reconnect_after_one_second() {
    assert!(matches!(
        next_upload_action(&UploadEvent::StreamEnded),
        UploadAction::Reconnect(1)
    ));
    assert!(matches!(
        next_upload_action(&UploadEvent::StreamFailed),
        UploadAction::Reconnect(1)
    ));
}

#[test]
fn connection_opens_stream_and_channel_close_stops() {
    assert!(matches!(
        next_upload_action(&UploadEvent::Connected),
        UploadAction::OpenStream
    ));
    assert!(matches!(
        next_upload_action(&UploadEvent::BatchChannelClosed),
        UploadAction::Stop
    ));
}
