//! Decoding scouting messages from binary payloads.
//!
//! The wire format belongs to the protocol codec; this crate consumes it
//! through one trusted call and models the decoded message as plain
//! values, so that everything downstream of the decode -- classification,
//! field access, formatting decisions -- is verified.

use vstd::prelude::*;

verus! {

/// A decoded scouting message, as plain values: exactly the fields the
/// formatter reads, protocol types rendered to strings.
#[derive(Clone, Debug, PartialEq, Eq)]
pub enum ScoutingInfo {
    /// A probe looking for reachable peers.
    Scout { version: u8, what: String, zid: Option<String> },
    /// A peer announcing itself and its locators.
    Hello { version: u8, whatami: String, zid: String, locators: Vec<String> },
}

/// The payload could not be decoded as a scouting message.
#[derive(Clone, Copy, PartialEq, Eq, Structural, Debug)]
pub struct DecodeError;

/// What the codec decodes a byte payload to: `None` when the payload is
/// not a well-formed scouting message. The format takes the codec's
/// documentation to state, but the result is a function of the bytes
/// alone, so it only carries this name here.
pub uninterp spec fn scouting_decode(bytes: Seq<u8>) -> Option<ScoutingInfo>;

/// Relies on zenoh-codec's `RCodec<ScoutingMessage, _>::read` for the
/// `Zenoh080` codec, and on the decoded message's public fields and their
/// display forms: decodes one scouting message from the byte payload. The
/// result depends on the bytes alone.
#[verifier::external_body]
fn read_scouting(bytes: &Vec<u8>) -> (r: Option<ScoutingInfo>)
    ensures
        r == scouting_decode(bytes@),
{
    let mut reader = bytes.as_slice();
    let codec = zenoh_codec::Zenoh080::new();
    let msg: zenoh_protocol::scouting::ScoutingMessage =
        zenoh_codec::RCodec::read(codec, &mut reader).ok()?;
    Some(match msg.body {
        zenoh_protocol::scouting::ScoutingBody::Scout(s) => ScoutingInfo::Scout {
            version: s.version, what: s.what.to_string(), zid: s.zid.map(|z| z.to_string()),
        },
        zenoh_protocol::scouting::ScoutingBody::Hello(h) => ScoutingInfo::Hello {
            version: h.version, whatami: h.whatami.to_string(), zid: h.zid.to_string(),
            locators: h.locators.iter().map(|l| l.to_string()).collect(),
        },
    })
}

/// Decode one scouting message from a binary payload: the decoded message
/// exactly when the codec accepts the bytes, and a decode error exactly
/// when it does not.
pub fn decode_scouting_msg(bytes: &Vec<u8>) -> (r: Result<ScoutingInfo, DecodeError>)
    ensures
        scouting_decode(bytes@) matches Some(info) ==> r == Ok::<ScoutingInfo, DecodeError>(info),
        scouting_decode(bytes@) is None ==> r == Err::<ScoutingInfo, DecodeError>(DecodeError),
{
    match read_scouting(bytes) {
        Some(info) => Ok(info),
        None => Err(DecodeError),
    }
}

impl ScoutingInfo {
    /// The kind tag under which a decoded message is rendered.
    pub fn kind(&self) -> (k: &'static str)
        ensures
            self is Scout <==> k@ == "scout"@,
            self is Hello <==> k@ == "hello"@,
    {
        proof {
            reveal_strlit("scout");
            reveal_strlit("hello");
            assert("scout"@[0] == 's');
            assert("hello"@[0] == 'h');
            assert("scout"@ != "hello"@);
        }
        match self {
            ScoutingInfo::Scout { .. } => "scout",
            ScoutingInfo::Hello { .. } => "hello",
        }
    }

    /// The protocol version the message carries.
    pub fn version(&self) -> (v: u8)
        ensures
            self matches ScoutingInfo::Scout { version, .. } ==> v == version,
            self matches ScoutingInfo::Hello { version, .. } ==> v == version,
    {
        match self {
            ScoutingInfo::Scout { version, .. } => *version,
            ScoutingInfo::Hello { version, .. } => *version,
        }
    }
}

} // verus!
