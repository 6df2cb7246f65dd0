//! What a client asks for, read from the payloads it sends.
//!
//! A message may carry a broadcaster payload under the key `BROADCASTER` and a
//! viewer payload under the key `VIEWER`. Each payload is turned into at most
//! one command; the broadcaster's command comes first.
pub mod broadcaster;
pub mod viewer;

use vstd::prelude::*;
use crate::models::{
    desc_view, BroadCastPayload, SessionDescription, SessionDescriptionView, ViewerPayload,
};

verus! {

/// The key and the leading event type of a kind of payload.
pub trait DeserializeOwned: Sized {
    /// The key under which a message carries this kind of payload.
    fn variant_key() -> &'static str;

    /// The event that opens this role's part of the exchange.
    fn event_type() -> &'static str;
}

impl DeserializeOwned for BroadCastPayload {
    fn variant_key() -> (k: &'static str)
        ensures
            k@ == broadcaster_key(),
    {
        "BROADCASTER"
    }

    fn event_type() -> (e: &'static str)
        ensures
            e@ == start_broadcast_event(),
    {
        "START_BROADCAST"
    }
}

impl DeserializeOwned for ViewerPayload {
    fn variant_key() -> (k: &'static str)
        ensures
            k@ == viewer_key(),
    {
        "VIEWER"
    }

    fn event_type() -> (e: &'static str)
        ensures
            e@ == enter_room_event(),
    {
        "ENTER_ROOM"
    }
}

/// The key of a broadcaster payload.
pub open spec fn broadcaster_key() -> Seq<char> {
    "BROADCASTER"@
}

/// The key of a viewer payload.
pub open spec fn viewer_key() -> Seq<char> {
    "VIEWER"@
}

/// A broadcaster opens a room.
pub open spec fn start_broadcast_event() -> Seq<char> {
    "START_BROADCAST"@
}

/// A broadcaster closes its room.
pub open spec fn terminate_broadcast_event() -> Seq<char> {
    "TERMINATE_BROADCAST"@
}

/// A viewer joins a room.
pub open spec fn enter_room_event() -> Seq<char> {
    "ENTER_ROOM"@
}

/// The abstract value of a payload of either kind.
pub struct PayloadView {
    pub event_type: Seq<char>,
    pub room_name: Seq<char>,
    pub local_desc: Option<SessionDescriptionView>,
}

impl View for BroadCastPayload {
    type V = PayloadView;

    open spec fn view(&self) -> PayloadView {
        PayloadView {
            event_type: self.eventType@,
            room_name: self.roomName@,
            local_desc: desc_view(self.localDesc),
        }
    }
}

impl View for ViewerPayload {
    type V = PayloadView;

    open spec fn view(&self) -> PayloadView {
        PayloadView {
            event_type: self.eventType@,
            room_name: self.roomName@,
            local_desc: desc_view(self.localDesc),
        }
    }
}

/// What a client asks the server to do.
pub enum RoleCommand {
    /// Open the room `room_name`, answering the broadcaster's offer `local_desc`.
    StartBroadcast { room_name: String, local_desc: SessionDescription },
    /// Close the room `room_name`.
    TerminateBroadcast { room_name: String },
    /// Join the room `room_name`, answering the viewer's offer `local_desc`.
    EnterRoom { room_name: String, local_desc: SessionDescription },
}

/// The abstract value of a command.
pub enum RoleCommandView {
    StartBroadcast { room_name: Seq<char>, local_desc: SessionDescriptionView },
    TerminateBroadcast { room_name: Seq<char> },
    EnterRoom { room_name: Seq<char>, local_desc: SessionDescriptionView },
}

impl View for RoleCommand {
    type V = RoleCommandView;

    open spec fn view(&self) -> RoleCommandView {
        match self {
            RoleCommand::StartBroadcast { room_name, local_desc } => RoleCommandView::StartBroadcast {
                room_name: room_name@,
                local_desc: local_desc@,
            },
            RoleCommand::TerminateBroadcast { room_name } => RoleCommandView::TerminateBroadcast {
                room_name: room_name@,
            },
            RoleCommand::EnterRoom { room_name, local_desc } => RoleCommandView::EnterRoom {
                room_name: room_name@,
                local_desc: local_desc@,
            },
        }
    }
}

/// The abstract value of an optional command.
pub open spec fn command_view(c: Option<RoleCommand>) -> Option<RoleCommandView> {
    match c {
        Some(c) => Some(c@),
        None => None,
    }
}

/// What a broadcaster payload asks for: opening a room needs an offer;
/// closing one does not; any other event asks for nothing.
pub open spec fn broadcaster_command(p: PayloadView) -> Option<RoleCommandView> {
    if p.event_type == start_broadcast_event() {
        match p.local_desc {
            Some(d) => Some(RoleCommandView::StartBroadcast { room_name: p.room_name, local_desc: d }),
            None => None,
        }
    } else if p.event_type == terminate_broadcast_event() {
        Some(RoleCommandView::TerminateBroadcast { room_name: p.room_name })
    } else {
        None
    }
}

/// What a viewer payload asks for: joining a room needs an offer; any other
/// event asks for nothing.
pub open spec fn viewer_command(p: PayloadView) -> Option<RoleCommandView> {
    if p.event_type == enter_room_event() {
        match p.local_desc {
            Some(d) => Some(RoleCommandView::EnterRoom { room_name: p.room_name, local_desc: d }),
            None => None,
        }
    } else {
        None
    }
}

/// The commands that a message asks for, in the order in which they are carried
/// out: the broadcaster's first.
pub open spec fn payload_commands(
    broadcaster: Option<PayloadView>,
    viewer: Option<PayloadView>,
) -> Seq<RoleCommandView> {
    let b = match broadcaster {
        Some(p) => match broadcaster_command(p) {
            Some(c) => seq![c],
            None => Seq::empty(),
        },
        None => Seq::empty(),
    };
    let v = match viewer {
        Some(p) => match viewer_command(p) {
            Some(c) => seq![c],
            None => Seq::empty(),
        },
        None => Seq::empty(),
    };
    b + v
}

/// Whether `s` is the event `lit`.
fn is_event(s: &String, lit: &str) -> (b: bool)
    ensures
        b == (s@ == lit@),
{
    *s == lit.to_owned()
}

/// The abstract value of an optional payload.
pub open spec fn payload_view<P: View<V = PayloadView>>(p: Option<P>) -> Option<PayloadView> {
    match p {
        Some(p) => Some(p@),
        None => None,
    }
}

/// The commands that a message asks for, given the payloads it carries under
/// the broadcaster's and the viewer's key.
pub fn process_payload(
    broadcaster: Option<BroadCastPayload>,
    viewer: Option<ViewerPayload>,
) -> (commands: Vec<RoleCommand>)
    ensures
        commands@.map_values(|c: RoleCommand| c@) == payload_commands(
            payload_view(broadcaster),
            payload_view(viewer),
        ),
{
    let ghost bv = payload_view(broadcaster);
    let ghost vv = payload_view(viewer);
    let mut commands: Vec<RoleCommand> = Vec::new();
    if let Some(p) = broadcaster {
        if let Some(c) = broadcaster::process_broadcaster(p) {
            commands.push(c);
        }
    }
    if let Some(p) = viewer {
        if let Some(c) = viewer::process_viewer(p) {
            commands.push(c);
        }
    }
    assert(commands@.map_values(|c: RoleCommand| c@) =~= payload_commands(bv, vv));
    commands
}

} // verus!
