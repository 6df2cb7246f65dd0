//! The configuration with which the server's peer connections are made.
use vstd::prelude::*;

verus! {

/// A STUN or TURN server, by its URLs.
pub struct IceServer {
    pub urls: Vec<String>,
}

/// What the server sets when it makes a peer connection: the ICE servers;
/// everything else keeps its default.
pub struct RtcConfig {
    pub ice_servers: Vec<IceServer>,
}

/// The URLs of an ICE server.
pub open spec fn urls_view(s: IceServer) -> Seq<Seq<char>> {
    s.urls@.map_values(|u: String| u@)
}

/// The public STUN servers that the server uses.
pub open spec fn stun_urls() -> Seq<Seq<char>> {
    seq!["stun:stun1.1.google.com:19302"@, "stun:stun2.1.google.com:19302"@]
}

/// One ICE server, reached at two public STUN URLs.
pub fn rtc_config() -> (c: RtcConfig)
    ensures
        c.ice_servers@.len() == 1,
        urls_view(c.ice_servers@[0]) == stun_urls(),
{
    let mut urls: Vec<String> = Vec::new();
    urls.push("stun:stun1.1.google.com:19302".to_owned());
    urls.push("stun:stun2.1.google.com:19302".to_owned());
    let mut ice_servers: Vec<IceServer> = Vec::new();
    ice_servers.push(IceServer { urls });
    let c = RtcConfig { ice_servers };
    assert(urls_view(c.ice_servers@[0]) =~= stun_urls());
    c
}

} // verus!
