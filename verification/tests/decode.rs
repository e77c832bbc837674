//! Decoding scouting messages: round trips against the real codec.

use nu_zenoh::decode::{decode_scouting_msg, DecodeError, ScoutingInfo};
use zenoh_protocol::scouting::{HelloProto, Scout, ScoutingBody, ScoutingMessage};

type WhatAmIMatcher = zenoh_protocol::core::whatami::WhatAmIMatcher;
type WhatAmI = zenoh_protocol::core::WhatAmI;
type ZenohIdProto = zenoh_protocol::core::ZenohIdProto;
type Locator = zenoh_protocol::core::Locator;

fn encode(msg: &ScoutingMessage) -> Vec<u8> {
    let codec = zenoh_codec::Zenoh080::new();
    let mut buf: Vec<u8> = Vec::new();
    zenoh_codec::WCodec::write(codec, &mut buf, msg).unwrap();
    buf
}

#[test]
fn scout_round_trip() {
    let zid = ZenohIdProto::default();
    let scout = Scout { version: 9, what: WhatAmIMatcher::empty().router().peer(), zid: Some(zid) };
    let bytes = encode(&ScoutingMessage { body: ScoutingBody::Scout(scout.clone()) });
    let info = decode_scouting_msg(&bytes).unwrap();
    assert_eq!(info.kind(), "scout");
    assert_eq!(info.version(), 9);
    match info {
        ScoutingInfo::Scout { version, what, zid: got_zid } => {
            assert_eq!(version, 9);
            assert_eq!(what, scout.what.to_string());
            assert_eq!(got_zid, Some(zid.to_string()));
        },
        other => panic!("expected a scout message, got {:?}", other),
    }
}

#[test]
fn hello_round_trip() {
    let zid = ZenohIdProto::default();
    let locator: Locator = "tcp/127.0.0.1:7447".parse().unwrap();
    let hello = HelloProto {
        version: 8,
        whatami: WhatAmI::Peer,
        zid,
        locators: vec![locator.clone()],
    };
    let bytes = encode(&ScoutingMessage { body: ScoutingBody::Hello(hello) });
    let info = decode_scouting_msg(&bytes).unwrap();
    assert_eq!(info.kind(), "hello");
    assert_eq!(info.version(), 8);
    match info {
        ScoutingInfo::Hello { version, whatami, zid: got_zid, locators } => {
            assert_eq!(version, 8);
            assert_eq!(whatami, WhatAmI::Peer.to_string());
            assert_eq!(got_zid, zid.to_string());
            assert_eq!(locators, vec![locator.to_string()]);
        },
        other => panic!("expected a hello message, got {:?}", other),
    }
}

#[test]
fn garbage_bytes_are_a_decode_error() {
    let bytes: Vec<u8> = vec![0xFF, 0x00, 0x12];
    assert_eq!(decode_scouting_msg(&bytes), Err(DecodeError));
}

#[test]
fn empty_payload_is_a_decode_error() {
    let bytes: Vec<u8> = Vec::new();
    assert_eq!(decode_scouting_msg(&bytes), Err(DecodeError));
}
