//! What the server decides while it relays a broadcaster's media.
use vstd::prelude::*;

verus! {

/// Seconds between two picture-loss indications sent to a broadcaster, so
/// that it keeps pushing key frames.
pub const PLI_INTERVAL_SECS: u64 = 3;

/// Whether to keep asking a broadcaster for key frames: only while its peer
/// connection still exists and the last request went out.
pub fn keeps_sending_pli(peer_alive: bool, last_write_ok: bool) -> (b: bool)
    ensures
        b == (peer_alive && last_write_ok),
{
    peer_alive && last_write_ok
}

/// How writing a received RTP packet to the relaying track went.
#[derive(Clone, Copy, PartialEq, Eq, Structural, Debug)]
pub enum WriteOutcome {
    /// The packet was written.
    Written,
    /// Nobody reads the track at the moment.
    ClosedPipe,
    /// Any other failure.
    Failed,
}

/// Whether to keep relaying after a write: a track that nobody reads yet is
/// no reason to stop; any other failure is.
pub fn keeps_forwarding(outcome: WriteOutcome) -> (b: bool)
    ensures
        b == (outcome != WriteOutcome::Failed),
{
    match outcome {
        WriteOutcome::Written => true,
        WriteOutcome::ClosedPipe => true,
        WriteOutcome::Failed => false,
    }
}

/// The track id and stream id of a track that relays a broadcaster's media.
pub fn relay_track_labels() -> (r: (String, String))
    ensures
        r.0@ == "video"@,
        r.1@ == "webrtc-rs"@,
{
    ("video".to_owned(), "webrtc-rs".to_owned())
}

} // verus!
