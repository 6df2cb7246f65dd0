use broadcast_rooms::event_handlers::{
    keeps_forwarding, keeps_sending_pli, relay_track_labels, WriteOutcome, PLI_INTERVAL_SECS,
};
use broadcast_rooms::helpers::build_api;
use broadcast_rooms::models::{BroadCastPayload, SdpType, SessionDescription, ViewerPayload};
use broadcast_rooms::roles::broadcaster::process_broadcaster;
use broadcast_rooms::roles::viewer::process_viewer;
use broadcast_rooms::roles::{process_payload, DeserializeOwned, RoleCommand};
use broadcast_rooms::utils::rtc_config;

fn offer() -> SessionDescription {
    SessionDescription { sdp_type: SdpType::Offer, sdp: "v=0".to_string() }
}

fn bp(event: &str, room: &str, desc: Option<SessionDescription>) -> BroadCastPayload {
    BroadCastPayload { eventType: event.to_string(), roomName: room.to_string(), localDesc: desc }
}

fn vp(event: &str, room: &str, desc: Option<SessionDescription>) -> ViewerPayload {
    ViewerPayload { eventType: event.to_string(), roomName: room.to_string(), localDesc: desc }
}

#[test]
fn payload_keys_and_events() {
    assert_eq!(BroadCastPayload::variant_key(), "BROADCASTER");
    assert_eq!(BroadCastPayload::event_type(), "START_BROADCAST");
    assert_eq!(ViewerPayload::variant_key(), "VIEWER");
    assert_eq!(ViewerPayload::event_type(), "ENTER_ROOM");
}

#[test]
fn start_broadcast_with_offer() {
    match process_broadcaster(bp("START_BROADCAST", "room1", Some(offer()))) {
        Some(RoleCommand::StartBroadcast { room_name, local_desc }) => {
            assert_eq!(room_name, "room1");
            assert_eq!(local_desc.sdp_type, SdpType::Offer);
            assert_eq!(local_desc.sdp, "v=0");
        }
        _ => panic!("expected a start"),
    }
}

#[test]
fn start_broadcast_without_offer_is_ignored() {
    assert!(process_broadcaster(bp("START_BROADCAST", "room1", None)).is_none());
}

#[test]
fn terminate_broadcast_needs_no_offer() {
    match process_broadcaster(bp("TERMINATE_BROADCAST", "room1", None)) {
        Some(RoleCommand::TerminateBroadcast { room_name }) => assert_eq!(room_name, "room1"),
        _ => panic!("expected a termination"),
    }
    assert!(matches!(
        process_broadcaster(bp("TERMINATE_BROADCAST", "room1", Some(offer()))),
        Some(RoleCommand::TerminateBroadcast { .. })
    ));
}

#[test]
fn unknown_broadcaster_event_is_ignored() {
    assert!(process_broadcaster(bp("ENTER_ROOM", "room1", Some(offer()))).is_none());
    assert!(process_broadcaster(bp("start_broadcast", "room1", Some(offer()))).is_none());
}

#[test]
fn viewer_enters_with_offer() {
    match process_viewer(vp("ENTER_ROOM", "room2", Some(offer()))) {
        Some(RoleCommand::EnterRoom { room_name, local_desc }) => {
            assert_eq!(room_name, "room2");
            assert_eq!(local_desc.sdp, "v=0");
        }
        _ => panic!("expected an entry"),
    }
    assert!(process_viewer(vp("ENTER_ROOM", "room2", None)).is_none());
    assert!(process_viewer(vp("LEAVE_ROOM", "room2", Some(offer()))).is_none());
}

#[test]
fn broadcaster_command_comes_first() {
    let cmds = process_payload(
        Some(bp("TERMINATE_BROADCAST", "a", None)),
        Some(vp("ENTER_ROOM", "b", Some(offer()))),
    );
    assert_eq!(cmds.len(), 2);
    assert!(matches!(&cmds[0], RoleCommand::TerminateBroadcast { room_name } if room_name == "a"));
    assert!(matches!(&cmds[1], RoleCommand::EnterRoom { room_name, .. } if room_name == "b"));
}

#[test]
fn empty_message_asks_nothing() {
    assert!(process_payload(None, None).is_empty());
    assert!(process_payload(Some(bp("NOPE", "a", None)), None).is_empty());
    let only_viewer = process_payload(None, Some(vp("ENTER_ROOM", "b", Some(offer()))));
    assert_eq!(only_viewer.len(), 1);
}

#[test]
fn config_uses_two_stun_urls() {
    let c = rtc_config();
    assert_eq!(c.ice_servers.len(), 1);
    assert_eq!(
        c.ice_servers[0].urls,
        vec![
            "stun:stun1.1.google.com:19302".to_string(),
            "stun:stun2.1.google.com:19302".to_string()
        ]
    );
}

#[test]
fn api_builds() {
    let _api = build_api();
}

#[test]
fn forwarding_decisions() {
    assert!(keeps_forwarding(WriteOutcome::Written));
    assert!(keeps_forwarding(WriteOutcome::ClosedPipe));
    assert!(!keeps_forwarding(WriteOutcome::Failed));
    assert!(keeps_sending_pli(true, true));
    assert!(!keeps_sending_pli(false, true));
    assert!(!keeps_sending_pli(true, false));
    assert_eq!(PLI_INTERVAL_SECS, 3);
    let (track, stream) = relay_track_labels();
    assert_eq!(track, "video");
    assert_eq!(stream, "webrtc-rs");
}
