//! The values that travel through the signalling server: the payloads that
//! clients send, and the rooms that the server keeps.
//!
//! Live objects (a client's message channel, a peer connection, a forwarded
//! media track) are not held here: each is known by a handle, an integer that
//! the server hands out when it creates the object and by which it finds the
//! object again.
use vstd::prelude::*;

verus! {

/// Handle of a client's outgoing message channel.
pub type TxId = u64;

/// Handle of a peer connection that the server holds with a client.
pub type PeerId = u64;

/// Handle of a local media track that relays what a broadcaster sends.
pub type TrackId = u64;

/// The kind of a session description, as the offer/answer exchange names it.
#[derive(Clone, Copy, PartialEq, Eq, Structural, Debug)]
pub enum SdpType {
    Unspecified,
    Offer,
    Pranswer,
    Answer,
    Rollback,
}

/// A session description: its kind and its SDP text.
pub struct SessionDescription {
    pub sdp_type: SdpType,
    pub sdp: String,
}

/// The abstract value of a session description.
pub struct SessionDescriptionView {
    pub sdp_type: SdpType,
    pub sdp: Seq<char>,
}

impl View for SessionDescription {
    type V = SessionDescriptionView;

    open spec fn view(&self) -> SessionDescriptionView {
        SessionDescriptionView { sdp_type: self.sdp_type, sdp: self.sdp@ }
    }
}

/// The abstract value of an optional session description.
pub open spec fn desc_view(d: Option<SessionDescription>) -> Option<SessionDescriptionView> {
    match d {
        Some(d) => Some(d@),
        None => None,
    }
}

/// What a viewer sends under the key `VIEWER`.
#[allow(non_snake_case)]
pub struct ViewerPayload {
    pub eventType: String,
    pub roomName: String,
    pub localDesc: Option<SessionDescription>,
}

/// What a broadcaster sends under the key `BROADCASTER`.
#[allow(non_snake_case)]
pub struct BroadCastPayload {
    pub eventType: String,
    pub roomName: String,
    pub localDesc: Option<SessionDescription>,
}

/// A viewer of a room: its message channel and the peer connection that
/// carries the room's media to it.
#[derive(Clone, Copy, PartialEq, Eq, Structural, Debug)]
pub struct ViewerMetaData {
    pub transmiter: TxId,
    pub viewer_peer: PeerId,
}

/// The broadcaster of a room: its message channel, its peer connection, and
/// the local tracks that relay its media.
pub struct BroadcasterMetaData {
    pub transmiter: TxId,
    pub broadcaster_peer: PeerId,
    pub track_channel_rx: Vec<TrackId>,
}

/// The abstract value of a broadcaster.
pub struct BroadcasterView {
    pub transmiter: TxId,
    pub broadcaster_peer: PeerId,
    pub track_channel_rx: Seq<TrackId>,
}

impl View for BroadcasterMetaData {
    type V = BroadcasterView;

    open spec fn view(&self) -> BroadcasterView {
        BroadcasterView {
            transmiter: self.transmiter,
            broadcaster_peer: self.broadcaster_peer,
            track_channel_rx: self.track_channel_rx@,
        }
    }
}

impl BroadcasterMetaData {
    pub fn new(
        transmiter: TxId,
        broadcaster_peer: PeerId,
        track_channel_rx: Vec<TrackId>,
    ) -> (b: BroadcasterMetaData)
        ensures
            b.transmiter == transmiter,
            b.broadcaster_peer == broadcaster_peer,
            b.track_channel_rx@ == track_channel_rx@,
    {
        BroadcasterMetaData { transmiter, broadcaster_peer, track_channel_rx }
    }
}

/// A room: the viewers that have joined it and the broadcaster that feeds it.
pub struct Room {
    pub room_users: Vec<ViewerMetaData>,
    pub broadcaster: BroadcasterMetaData,
}

/// The abstract value of a room.
pub struct RoomView {
    pub room_users: Seq<ViewerMetaData>,
    pub broadcaster: BroadcasterView,
}

impl View for Room {
    type V = RoomView;

    open spec fn view(&self) -> RoomView {
        RoomView { room_users: self.room_users@, broadcaster: self.broadcaster@ }
    }
}

/// A room just opened by `broadcaster`: nobody watches it yet.
pub open spec fn new_room(broadcaster: BroadcasterView) -> RoomView {
    RoomView { room_users: Seq::empty(), broadcaster }
}

impl Room {
    pub fn new(broadcaster: BroadcasterMetaData) -> (room: Room)
        ensures
            room@ == new_room(broadcaster@),
    {
        Room { room_users: Vec::new(), broadcaster }
    }
}

} // verus!
