//! What travels from the SMTP front-end to the ingest workers, and back.

use vstd::prelude::*;
use vstd::utf8::encode_utf8;
use vstd::utf8::valid_utf8;

verus! {

/// How many delivery events the channel holds before senders wait.
pub const IPC_CHANNEL_BUFFER: usize = 1024;

/// The content address of a stored blob.
#[derive(Clone, Copy, Debug, PartialEq, Eq)]
pub struct BlobHash(pub [u8; 32]);

/// A message handed over for delivery to its recipients.
#[derive(Debug)]
pub struct IngestMessage {
    pub sender_address: String,
    pub recipients: Vec<String>,
    pub message_blob: BlobHash,
    pub message_size: usize,
    pub session_id: u64,
}

/// How the delivery to one recipient ended.
#[derive(Debug, Clone, PartialEq, Eq)]
pub enum DeliveryResult {
    Success,
    TemporaryFailure { reason: String },
    PermanentFailure { code: [u8; 3], reason: String },
}

/// The text that std reads from `bytes`, each ill-formed sequence replaced
/// by U+FFFD.
pub uninterp spec fn lossy_text(bytes: Seq<u8>) -> Seq<char>;

/// Calls `String::from_utf8_lossy`. Trusted, as std documents it: the result
/// depends on the bytes alone, and bytes that are UTF-8 are kept as they are.
#[verifier::external_body]
fn utf8_lossy(bytes: &[u8]) -> (text: String)
    ensures
        text@ == lossy_text(bytes@),
        valid_utf8(bytes@) ==> encode_utf8(text@) == bytes@,
{
    String::from_utf8_lossy(bytes).into_owned()
}

/// Values that can be read as text.
pub trait IntoString: Sized {
    fn into_string(self) -> String;
}

impl IntoString for Vec<u8> {
    /// The bytes as text: themselves where they are UTF-8, else with each
    /// ill-formed sequence replaced by U+FFFD.
    fn into_string(self) -> (text: String)
        ensures
            text@ == lossy_text(self@),
            valid_utf8(self@) ==> encode_utf8(text@) == self@,
    {
        utf8_lossy(self.as_slice())
    }
}

} // verus!
