//! The broadcaster's side: opening and closing a room.
pub mod start_broadcast;
pub mod terminate_broadcast;

use vstd::prelude::*;
use crate::models::BroadCastPayload;
use super::{broadcaster_command, is_event, command_view, RoleCommand};

verus! {

/// The command that a broadcaster payload asks for: `START_BROADCAST` with an
/// offer opens the room, `TERMINATE_BROADCAST` closes it, anything else is
/// ignored.
pub fn process_broadcaster(parsed_payload: BroadCastPayload) -> (command: Option<RoleCommand>)
    ensures
        command_view(command) == broadcaster_command(parsed_payload@),
{
    let room_name = parsed_payload.roomName;
    let event_type = parsed_payload.eventType;
    proof {
        reveal_strlit("START_BROADCAST");
        reveal_strlit("TERMINATE_BROADCAST");
        assert("START_BROADCAST"@[0] != "TERMINATE_BROADCAST"@[0]);
    }
    if is_event(&event_type, "START_BROADCAST") {
        if let Some(desc) = parsed_payload.localDesc {
            return Some(RoleCommand::StartBroadcast { room_name, local_desc: desc });
        }
    }
    if is_event(&event_type, "TERMINATE_BROADCAST") {
        return Some(RoleCommand::TerminateBroadcast { room_name });
    }
    None
}

} // verus!
