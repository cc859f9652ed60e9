//! Codecs of the control channel. The encodings themselves are chosen by the
//! program around the library; what a codec makes of a message that does not
//! decode is stated here.

use vstd::prelude::*;
use vstd::string::StringExecFns;

verus! {

/// What goes wrong on a transport.
#[derive(Clone, Debug, PartialEq, Eq)]
pub enum NetworkError {
    /// A message could not be decoded.
    SerializationError(String),
}

/// The text of the error for a message that does not decode.
pub open spec fn decode_error_text(what: Seq<char>, reason: Seq<char>) -> Seq<char> {
    what + " decode: "@ + reason
}

/// The error for a message that does not decode.
pub(crate) fn decode_error(what: &str, reason: &str) -> (r: NetworkError)
    ensures
        r matches NetworkError::SerializationError(s) && s@ == decode_error_text(what@, reason@),
{
    let mut text: String = String::from_str(what);
    text.append(" decode: ");
    text.append(reason);
    NetworkError::SerializationError(text)
}

/// Control messages in the compact binary encoding.
#[derive(Clone, Copy, Debug, PartialEq, Eq, Structural)]
pub struct ControlCodecBitcode;

/// Control messages in JSON.
#[derive(Clone, Copy, Debug, PartialEq, Eq, Structural)]
pub struct ControlCodecJson;

impl ControlCodecBitcode {
    /// The error for a command that does not decode.
    pub fn command_error(&self, reason: &str) -> (r: NetworkError)
        ensures
            r matches NetworkError::SerializationError(s) && s@ == decode_error_text(
                "command"@,
                reason@,
            ),
    {
        decode_error("command", reason)
    }

    /// The error for a response that does not decode.
    pub fn response_error(&self, reason: &str) -> (r: NetworkError)
        ensures
            r matches NetworkError::SerializationError(s) && s@ == decode_error_text(
                "command response"@,
                reason@,
            ),
    {
        decode_error("command response", reason)
    }
}

impl ControlCodecJson {
    /// The error for a command that does not decode.
    pub fn command_error(&self, reason: &str) -> (r: NetworkError)
        ensures
            r matches NetworkError::SerializationError(s) && s@ == decode_error_text(
                "command"@,
                reason@,
            ),
    {
        decode_error("command", reason)
    }

    /// The error for a response that does not decode.
    pub fn response_error(&self, reason: &str) -> (r: NetworkError)
        ensures
            r matches NetworkError::SerializationError(s) && s@ == decode_error_text(
                "command response"@,
                reason@,
            ),
    {
        decode_error("command response", reason)
    }
}

/// The text of a decoding error begins with what was to be decoded and ends with
/// the reason, with the word "decode", set off by a space and a colon, between
/// them.
pub proof fn law_decode_error_names_both(what: Seq<char>, reason: Seq<char>)
    ensures
        ({
            let t = decode_error_text(what, reason);
            &&& t.len() == what.len() + 9 + reason.len()
            &&& t.take(what.len() as int) == what
            &&& t.skip((what.len() + 9) as int) == reason
            &&& t.subrange(what.len() as int, (what.len() + 9) as int) == seq![
                ' ',
                'd',
                'e',
                'c',
                'o',
                'd',
                'e',
                ':',
                ' ',
            ]
        }),
{
    reveal_strlit(" decode: ");
    let t = decode_error_text(what, reason);
    assert(t.take(what.len() as int) == what);
    assert(t.skip((what.len() + 9) as int) == reason);
    assert(t.subrange(what.len() as int, (what.len() + 9) as int) == " decode: "@);
}

} // verus!
