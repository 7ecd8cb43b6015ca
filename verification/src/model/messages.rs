//! What comes out of receiving.
use vstd::prelude::*;

use crate::proto::Content;
use crate::service_id::ServiceId;

verus! {

/// The type of an encrypted message.
#[derive(Debug, Clone, Copy, PartialEq, Eq, Structural)]
pub enum CiphertextMessageType {
    Whisper,
    PreKey,
    SenderKey,
    Plaintext,
}

/// What a client gets to see of what it receives. `R` is the reason for which the connection
/// was closed.
#[derive(Debug)]
pub enum Received<R> {
    /// When the receive loop is empty, happens when opening the websocket for the first time
    /// once you're done synchronizing all pending messages for this registered client.
    QueueEmpty,
    /// Got contacts (only applies if linked to a primary device). Contacts can be later
    /// queried in the store.
    Contacts,
    /// A message from the specified service id could not be decrypted.
    ///
    /// Carries what a retry receipt needs: the failed message's timestamp, the sending device,
    /// and the original ciphertext with its type. `original` is absent when decryption failed
    /// before the payload was reached, in which case no receipt can be built.
    DecryptionError {
        sender: ServiceId,
        sender_device: u32,
        timestamp: u64,
        original: Option<(CiphertextMessageType, Vec<u8>)>,
    },
    /// A peer failed to decrypt a message that this device sent. The repair here is to resend
    /// to them, never to ask them to resend.
    PeerDecryptionError { sender: ServiceId },
    /// Incoming decrypted message with metadata and content.
    Content(Box<Content>),
    /// The connection closed. Carries the reason, so the client can decide whether to
    /// reconnect. Yielded once, as the final item.
    Disconnected(R),
}

} // verus!
