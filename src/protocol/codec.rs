//! Whole-frame encoding of commands and decoding of responses.

use vstd::prelude::*;

use crate::error::{Error, Result};
use crate::protocol::commands::{command_bytes, Command};
use crate::protocol::frame::{frame_error_matches, frame_fault, frame_of, frame_payload, Frame};
use crate::protocol::responses::{outcome_is, response_model, Response};

verus! {

/// The outcome of decoding the wire frame `f` as the response to `cmd`:
/// frame faults first, then the response decoder on the payload.
pub open spec fn decode_response_frame_ok(cmd: u8, f: Seq<u8>, r: Result<Response>) -> bool {
    match frame_fault(f) {
        None => outcome_is(r, response_model(cmd, frame_payload(f))),
        Some(k) => r matches Err(e) && frame_error_matches(f, k, e),
    }
}

/// Encodes a command into a full wire frame.
pub fn encode_command_frame(cmd: &Command) -> (r: Result<Vec<u8>>)
    ensures
        command_bytes(*cmd).len() <= 255 ==> (r matches Ok(f) && f@ == frame_of(command_bytes(*cmd))),
        command_bytes(*cmd).len() > 255 ==> r == Err::<Vec<u8>, Error>(
            Error::InvalidLength { expected: 255, actual: command_bytes(*cmd).len() as usize },
        ),
{
    let payload = cmd.encode();
    Frame::encode(payload.as_slice())
}

/// Decodes a full wire frame and the response it carries for the command
/// code `expected_cmd`.
pub fn decode_response_frame(expected_cmd: u8, frame: &[u8]) -> (r: Result<Response>)
    ensures
        decode_response_frame_ok(expected_cmd, frame@, r),
{
    let payload = Frame::decode(frame)?;
    Response::decode(expected_cmd, payload.as_slice())
}

} // verus!
