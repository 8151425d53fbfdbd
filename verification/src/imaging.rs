//! Decoding uploaded images.

use vstd::prelude::*;

verus! {

/// The outcome of decoding some bytes as an image, with the record of which
/// bytes were decoded.
pub struct DecodeOutcome {
    result: Result<(), String>,
    input: Ghost<Seq<u8>>,
}

impl DecodeOutcome {
    /// The bytes that were decoded.
    pub closed spec fn decoded_bytes(&self) -> Seq<u8> {
        self.input@
    }

    /// Whether they decoded as an image.
    pub closed spec fn succeeded(&self) -> bool {
        self.result is Ok
    }

    /// The decoder's message when they did not.
    pub closed spec fn failure_message(&self) -> Seq<char> {
        match self.result {
            Ok(()) => Seq::empty(),
            Err(m) => m@,
        }
    }

    /// Decode `bytes` as an image.
    pub fn of(bytes: &[u8]) -> (r: DecodeOutcome)
        ensures
            r.decoded_bytes() == bytes@,
    {
        decode_image(bytes)
    }

    /// The outcome as a result: success, or the decoder's message.
    pub fn into_result(self) -> (r: Result<(), String>)
        ensures
            r is Ok == self.succeeded(),
            r matches Err(m) ==> m@ == self.failure_message(),
    {
        self.result
    }
}

/// Calls `image::load_from_memory`, which guesses the format from the bytes and
/// decodes them, and hands back whether that succeeded, with the error's text
/// on failure. The outcome also depends on the decoding hooks registered in
/// the process, so nothing is promised of it beyond which bytes were decoded.
#[verifier::external_body]
fn decode_image(bytes: &[u8]) -> (r: DecodeOutcome)
    ensures
        r.decoded_bytes() == bytes@,
{
    let result = match image::load_from_memory(bytes) {
        Ok(_) => Ok(()),
        Err(e) => Err(e.to_string()),
    };
    DecodeOutcome { result, input: Ghost(bytes@) }
}

} // verus!
