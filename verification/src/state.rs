//! Decoding the contract's on-chain protocol state from its wire payload.
//!
//! The state's wire shape is a self-describing structured-text encoding of a
//! tagged union owned by the contract's own schema: a lifecycle phase encodes
//! either as a bare tag string (a phase that carries no data) or as an object
//! whose key is the tag and whose value is the phase's own data. The phase
//! tag is all this core reads; the data under it evolves with the contract
//! and is deliberately not interpreted here.

use vstd::prelude::*;

verus! {

/// The lifecycle phase of the multi-party protocol that the contract's state
/// reports.
#[derive(Clone, Copy, Debug, PartialEq, Eq, Structural)]
pub enum ProtocolState {
    NotInitialized,
    Initializing,
    Running,
    Resharing,
}

/// Why a payload did not decode as a protocol state: the length of the raw
/// payload, and the cause. No default or partial state ever stands in for a
/// payload that does not decode.
#[derive(Debug, PartialEq, Eq)]
pub struct DecodeFault {
    pub raw_len: usize,
    pub cause: String,
}

/// The tag under which a payload encodes a protocol phase: the string itself
/// for a bare-string payload, the key of the first entry for an object
/// payload, and nothing when the bytes are not a tagged structured-text
/// value at all.
pub uninterp spec fn payload_tag(bytes: Seq<u8>) -> Option<Seq<char>>;

/// Relies on `serde_json::from_slice::<serde_json::Value>`: parsing is a
/// function of the bytes alone, and the parsed value's tag — the string
/// itself, or the first key of the object — is read off the parsed value
/// without running any of this library's own rules.
#[verifier::external_body]
fn parse_payload_tag(bytes: &[u8]) -> (r: Result<String, String>)
    ensures
        (r is Ok) == (payload_tag(bytes@) is Some),
        r matches Ok(tag) ==> payload_tag(bytes@) == Some(tag@),
{
    match serde_json::from_slice::<serde_json::Value>(bytes) {
        Ok(serde_json::Value::String(tag)) => Ok(tag),
        Ok(serde_json::Value::Object(entries)) => match entries.into_iter().next() {
            Some((tag, _)) => Ok(tag),
            None => Err("empty object carries no state tag".to_owned()),
        },
        Ok(_) => Err("structured text, but not a tagged state value".to_owned()),
        Err(cause) => Err(cause.to_string()),
    }
}

/// The phase a tag names, if it names one of the contract's lifecycle phases
/// at all.
pub open spec fn phase_of_tag(tag: Seq<char>) -> Option<ProtocolState> {
    if tag == "NotInitialized"@ {
        Some(ProtocolState::NotInitialized)
    } else if tag == "Initializing"@ {
        Some(ProtocolState::Initializing)
    } else if tag == "Running"@ {
        Some(ProtocolState::Running)
    } else if tag == "Resharing"@ {
        Some(ProtocolState::Resharing)
    } else {
        None
    }
}

/// The protocol state a payload encodes, if it decodes as one at all: its
/// tag must name a lifecycle phase.
pub open spec fn spec_decoded_state(bytes: Seq<u8>) -> Option<ProtocolState> {
    match payload_tag(bytes) {
        Some(tag) => phase_of_tag(tag),
        None => None,
    }
}

/// Map a payload tag to the phase it names; any other tag is not a valid
/// encoded protocol state.
pub fn state_from_tag(tag: &String) -> (r: Option<ProtocolState>)
    ensures
        r == phase_of_tag(tag@),
{
    let not_initialized: String = "NotInitialized".to_owned();
    let initializing: String = "Initializing".to_owned();
    let running: String = "Running".to_owned();
    let resharing: String = "Resharing".to_owned();
    if *tag == not_initialized {
        Some(ProtocolState::NotInitialized)
    } else if *tag == initializing {
        Some(ProtocolState::Initializing)
    } else if *tag == running {
        Some(ProtocolState::Running)
    } else if *tag == resharing {
        Some(ProtocolState::Resharing)
    } else {
        None
    }
}

/// Decode a call result's raw bytes into the protocol state they encode.
/// Exactly the payloads whose tag names a lifecycle phase decode; everything
/// else — malformed text, an untagged value, an unknown tag — is a fault
/// carrying the payload's length and the decode cause, never a default.
pub fn decode_protocol_state(bytes: &[u8]) -> (r: Result<ProtocolState, DecodeFault>)
    ensures
        r matches Ok(state) ==> spec_decoded_state(bytes@) == Some(state),
        r is Ok <==> spec_decoded_state(bytes@) is Some,
        r matches Err(fault) ==> fault.raw_len == bytes@.len(),
{
    match parse_payload_tag(bytes) {
        Err(cause) => Err(DecodeFault { raw_len: bytes.len(), cause }),
        Ok(tag) => match state_from_tag(&tag) {
            Some(state) => Ok(state),
            None => Err(
                DecodeFault {
                    raw_len: bytes.len(),
                    cause: "tag names no protocol lifecycle phase".to_owned(),
                },
            ),
        },
    }
}

} // verus!
