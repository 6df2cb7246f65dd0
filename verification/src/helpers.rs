//! Setting up the WebRTC API object from which peer connections are made.
use vstd::prelude::*;
use webrtc::api::media_engine::MediaEngine;
use webrtc::api::{APIBuilder, API};
use webrtc::interceptor::registry::Registry;
use vstd::pervasive::unreached;

verus! {

#[verifier::external_type_specification]
#[verifier::external_body]
pub struct ExMediaEngine(MediaEngine);

#[verifier::external_type_specification]
#[verifier::external_body]
pub struct ExRegistry(Registry);

#[verifier::external_type_specification]
#[verifier::external_body]
pub struct ExApiBuilder(APIBuilder);

#[verifier::external_type_specification]
#[verifier::external_body]
pub struct ExApi(API);

#[verifier::external_type_specification]
#[verifier::external_body]
pub struct ExWebrtcError(webrtc::Error);

/// What a media engine holds as registered codecs: its audio codecs, then its
/// video codecs, each by MIME type and payload type, in registration order.
pub uninterp spec fn media_engine_codecs(m: MediaEngine) -> Seq<(Seq<char>, u8)>;

/// The URIs of the header extensions that a media engine holds, in
/// registration order.
pub uninterp spec fn media_engine_header_extensions(m: MediaEngine) -> Seq<Seq<char>>;

/// How many interceptor builders a registry holds.
pub uninterp spec fn registry_interceptor_count(r: Registry) -> nat;

/// The codecs of the media engine that a builder holds (none when it holds no
/// engine, as `build` then uses an empty one), as `media_engine_codecs` lists them.
pub uninterp spec fn builder_codecs(b: APIBuilder) -> Seq<(Seq<char>, u8)>;

/// The header extension URIs of the media engine that a builder holds (none
/// when it holds no engine), as `media_engine_header_extensions` lists them.
pub uninterp spec fn builder_header_extensions(b: APIBuilder) -> Seq<Seq<char>>;

/// How many interceptor builders the registry that a builder holds has (none
/// when it holds no registry, as `build` then uses an empty one).
pub uninterp spec fn builder_interceptor_count(b: APIBuilder) -> nat;

/// The codecs of an API object's media engine, as `media_engine_codecs` lists them.
pub uninterp spec fn api_codecs(a: API) -> Seq<(Seq<char>, u8)>;

/// The header extension URIs of an API object's media engine.
pub uninterp spec fn api_header_extensions(a: API) -> Seq<Seq<char>>;

/// How many interceptor builders an API object's registry holds.
pub uninterp spec fn api_interceptor_count(a: API) -> nat;

/// The codecs that `MediaEngine::register_default_codecs` leaves in an engine
/// that held none: four audio codecs, then the video codecs. Of its two H264
/// codecs with payload type 127 only the first stays, because a codec with a
/// MIME type and payload type already held is not added again.
pub open spec fn default_codecs() -> Seq<(Seq<char>, u8)> {
    seq![
        ("audio/opus"@, 111u8),
        ("audio/G722"@, 9u8),
        ("audio/PCMU"@, 0u8),
        ("audio/PCMA"@, 8u8),
        ("video/VP8"@, 96u8),
        ("video/VP9"@, 98u8),
        ("video/VP9"@, 100u8),
        ("video/H264"@, 102u8),
        ("video/H264"@, 127u8),
        ("video/H264"@, 125u8),
        ("video/H264"@, 108u8),
        ("video/H264"@, 123u8),
        ("video/AV1"@, 41u8),
        ("video/ulpfec"@, 116u8),
    ]
}

/// The URI of the transport-wide congestion control header extension
/// (`sdp::extmap::TRANSPORT_CC_URI`).
pub open spec fn transport_cc_uri() -> Seq<char> {
    "http://www.ietf.org/id/draft-holmer-rmcat-transport-wide-cc-extensions-01"@
}

/// How many interceptor builders `register_default_interceptors` adds: a NACK
/// responder and generator, a receiver and a sender report, and a TWCC receiver.
pub open spec fn default_interceptor_count() -> nat {
    5
}

/// Calls `MediaEngine::default()`: an engine with no codec and no header
/// extension (its vectors are empty by the derived `Default`).
#[verifier::external_body]
fn new_media_engine() -> (m: MediaEngine)
    ensures
        media_engine_codecs(m) == Seq::<(Seq<char>, u8)>::empty(),
        media_engine_header_extensions(m) == Seq::<Seq<char>>::empty(),
{
    MediaEngine::default()
}

/// Calls `MediaEngine::register_default_codecs`. Its source registers each of a
/// fixed list of audio codecs as audio and each video codec as video, and
/// `register_codec` fails only for a codec kind that is neither; so it returns
/// `Ok`. It touches no header extension. On an engine that held no codec it
/// leaves `default_codecs()`; what it leaves in an engine that held some is not
/// stated. `register_codec` also reads the system clock and panics if it reads
/// before 1970, which no precondition here can rule out.
#[verifier::external_body]
fn register_default_codecs(m: &mut MediaEngine) -> (r: Result<(), webrtc::Error>)
    ensures
        r is Ok,
        media_engine_header_extensions(*final(m)) == media_engine_header_extensions(*old(m)),
        media_engine_codecs(*old(m)).len() == 0 ==> media_engine_codecs(*final(m))
            == default_codecs(),
{
    m.register_default_codecs()
}

/// Calls `Registry::new()`: a registry with no interceptor builder.
#[verifier::external_body]
fn new_registry() -> (r: Registry)
    ensures
        registry_interceptor_count(r) == 0,
{
    Registry::new()
}

/// Calls `webrtc::api::interceptor_registry::register_default_interceptors`,
/// which adds five interceptor builders (NACK responder and generator, receiver
/// and sender reports, TWCC receiver) to `registry`, adds RTCP feedback to the
/// codecs of `m` (their MIME and payload types stay), and registers the
/// transport-wide congestion control header extension for video and for audio.
/// That registration fails only when the extension is already held with
/// another direction, or when too many are held; so on an engine that holds no
/// header extension it succeeds and leaves that one extension, once, as the
/// second registration finds the first. When it fails otherwise, and what it
/// leaves in an engine that held extensions, is not stated.
#[verifier::external_body]
fn register_default_interceptors(
    registry: Registry,
    m: &mut MediaEngine,
) -> (r: Result<Registry, webrtc::Error>)
    ensures
        media_engine_codecs(*final(m)) == media_engine_codecs(*old(m)),
        media_engine_header_extensions(*old(m)).len() == 0 ==> r is Ok
            && media_engine_header_extensions(*final(m)) == seq![transport_cc_uri()],
        r is Ok ==> registry_interceptor_count(r->Ok_0) == registry_interceptor_count(registry)
            + default_interceptor_count(),
{
    webrtc::api::interceptor_registry::register_default_interceptors(registry, m)
}

/// Calls `APIBuilder::new()`: a builder that holds no media engine and no
/// registry.
#[verifier::external_body]
fn api_builder() -> (b: APIBuilder)
    ensures
        builder_codecs(b) == Seq::<(Seq<char>, u8)>::empty(),
        builder_header_extensions(b) == Seq::<Seq<char>>::empty(),
        builder_interceptor_count(b) == 0,
{
    APIBuilder::new()
}

/// Calls `APIBuilder::with_media_engine`, which stores `m` in the builder and
/// keeps its registry.
#[verifier::external_body]
fn with_media_engine(b: APIBuilder, m: MediaEngine) -> (r: APIBuilder)
    ensures
        builder_codecs(r) == media_engine_codecs(m),
        builder_header_extensions(r) == media_engine_header_extensions(m),
        builder_interceptor_count(r) == builder_interceptor_count(b),
{
    b.with_media_engine(m)
}

/// Calls `APIBuilder::with_interceptor_registry`, which stores `registry` in
/// the builder and keeps its media engine.
#[verifier::external_body]
fn with_interceptor_registry(b: APIBuilder, registry: Registry) -> (r: APIBuilder)
    ensures
        builder_codecs(r) == builder_codecs(b),
        builder_header_extensions(r) == builder_header_extensions(b),
        builder_interceptor_count(r) == registry_interceptor_count(registry),
{
    b.with_interceptor_registry(registry)
}

/// Calls `APIBuilder::build`, which makes the API object from the media engine
/// and the registry that the builder holds.
#[verifier::external_body]
fn build(b: APIBuilder) -> (api: API)
    ensures
        api_codecs(api) == builder_codecs(b),
        api_header_extensions(api) == builder_header_extensions(b),
        api_interceptor_count(api) == builder_interceptor_count(b),
{
    b.build()
}

/// The API object from which peer connections are made: its media engine holds
/// the default codecs and the transport-wide congestion control header
/// extension, and its registry the default interceptors.
pub fn build_api() -> (api: API)
    ensures
        api_codecs(api) == default_codecs(),
        api_header_extensions(api) == seq![transport_cc_uri()],
        api_interceptor_count(api) == default_interceptor_count(),
{
    let mut media_engine = new_media_engine();
    match register_default_codecs(&mut media_engine) {
        Ok(()) => {},
        Err(_) => {
            return unreached();
        },
    }
    let registry = new_registry();
    let registry = match register_default_interceptors(registry, &mut media_engine) {
        Ok(registry) => registry,
        Err(_) => {
            return unreached();
        },
    };
    let builder = api_builder();
    let builder = with_media_engine(builder, media_engine);
    let builder = with_interceptor_registry(builder, registry);
    build(builder)
}

} // verus!
