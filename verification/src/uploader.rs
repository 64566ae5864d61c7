//! The uploader's reconnection policy. The uploader owns the streaming RPC
//! connection; connecting, streaming and sleeping are I/O and live in the
//! surrounding binary, which reports each outcome here and performs the
//! action decided. Every failure is recoverable except the batch channel
//! closing, which ends the uploader.

use vstd::prelude::*;

verus! {

/// What the upload loop just observed.
pub enum UploadEvent {
    /// The RPC channel connected.
    Connected,
    /// Connecting to the collector failed.
    ConnectFailed,
    /// The server ended the stream normally.
    StreamEnded,
    /// The stream failed mid-flight.
    StreamFailed,
    /// The batch channel closed: no producer is left.
    BatchChannelClosed,
}

/// What the upload loop does next.
pub enum UploadAction {
    /// Open the event stream on the connected channel.
    OpenStream,
    /// Sleep for the returned seconds, then try to connect again.
    RetryConnect(u64),
    /// Sleep for the returned seconds, then reconnect and reopen the stream.
    Reconnect(u64),
    /// Exit the upload loop.
    Stop,
}

/// The reconnection policy: connect failures retry after two seconds,
/// forever; a stream that ends or fails reconnects after one second; a
/// closed batch channel stops the uploader.
pub open spec fn spec_next_upload_action(ev: UploadEvent) -> UploadAction {
    match ev {
        UploadEvent::Connected => UploadAction::OpenStream,
        UploadEvent::ConnectFailed => UploadAction::RetryConnect(2),
        UploadEvent::StreamEnded => UploadAction::Reconnect(1),
        UploadEvent::StreamFailed => UploadAction::Reconnect(1),
        UploadEvent::BatchChannelClosed => UploadAction::Stop,
    }
}

/// Decides the upload loop's next step from what it observed.
pub fn next_upload_action(ev: &UploadEvent) -> (r: UploadAction)
    ensures
        r == spec_next_upload_action(*ev),
{
    match ev {
        UploadEvent::Connected => UploadAction::OpenStream,
        UploadEvent::ConnectFailed => UploadAction::RetryConnect(2),
        UploadEvent::StreamEnded => UploadAction::Reconnect(1),
        UploadEvent::StreamFailed => UploadAction::Reconnect(1),
        UploadEvent::BatchChannelClosed => UploadAction::Stop,
    }
}

/// Every observation gets an answer, and only a closed batch channel stops
/// the loop: any failure while the producers live is retried.
pub proof fn lemma_only_channel_close_stops(ev: UploadEvent)
    ensures
        spec_next_upload_action(ev) is Stop <==> ev is BatchChannelClosed,
{
}

} // verus!
