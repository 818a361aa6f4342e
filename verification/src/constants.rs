//! Sizes of the suite. They are part of the wire format.
use vstd::prelude::*;

verus! {

/// Security parameter in bytes (128 bits).
pub const SECURITY_PARAMETER: usize = 16;

/// Longest route a header can describe.
pub const MAX_PATH_LENGTH: usize = 5;

/// Size of an encoded curve point and of an encoded scalar.
pub const CURVE_POINT_SIZE: usize = 32;

pub const NODE_ADDRESS_LENGTH: usize = 32;

pub const DESTINATION_ADDRESS_LENGTH: usize = 32;

pub const IDENTIFIER_LENGTH: usize = 8;

pub const FLAG_LENGTH: usize = 1;

pub const DELAY_LENGTH: usize = 8;

pub const HEADER_INTEGRITY_MAC_SIZE: usize = 16;

pub const INTEGRITY_MAC_KEY_SIZE: usize = 16;

pub const STREAM_CIPHER_KEY_SIZE: usize = 16;

pub const PAYLOAD_KEY_SIZE: usize = 192;

/// Output size of the keyed hash.
pub const KEYED_HMAC_SIZE: usize = 32;

/// Flag, next address and delay: `FLAG_LENGTH + NODE_ADDRESS_LENGTH + DELAY_LENGTH`.
pub const NODE_META_INFO_SIZE: usize = 41;

/// Flag, destination address and identifier:
/// `FLAG_LENGTH + DESTINATION_ADDRESS_LENGTH + IDENTIFIER_LENGTH`.
pub const FINAL_NODE_META_INFO_LENGTH: usize = 41;

/// What one hop consumes of the routing blob:
/// `NODE_META_INFO_SIZE + HEADER_INTEGRITY_MAC_SIZE`.
pub const FILLER_STEP_SIZE_INCREASE: usize = 57;

/// Size of the encrypted routing blob: `MAX_PATH_LENGTH * FILLER_STEP_SIZE_INCREASE`.
pub const ENCRYPTED_ROUTING_INFO_SIZE: usize = 285;

/// Bytes of key stream drawn per hop:
/// `ENCRYPTED_ROUTING_INFO_SIZE + FILLER_STEP_SIZE_INCREASE`.
pub const STREAM_CIPHER_OUTPUT_LENGTH: usize = 342;

/// Wire size of a header:
/// `CURVE_POINT_SIZE + HEADER_INTEGRITY_MAC_SIZE + ENCRYPTED_ROUTING_INFO_SIZE`.
pub const HEADER_SIZE: usize = 333;

/// Routing flag of a layer that is to be forwarded.
pub const FORWARD_HOP: u8 = 1;

/// Routing flag of the innermost layer.
pub const FINAL_HOP: u8 = 2;

/// Initialisation vector of the stream cipher.
pub const STREAM_CIPHER_INIT_VECTOR: [u8; 16] = [0, 0, 0, 0, 0, 0, 0, 0, 0, 0, 0, 0, 0, 0, 0, 0];

/// Key-derivation label of the stream-cipher key.
pub const STREAM_CIPHER_KEY_LABEL: [u8; 4] = [0x73, 0x70, 0x68, 0x01];

/// Key-derivation label of the header integrity key.
pub const INTEGRITY_MAC_KEY_LABEL: [u8; 4] = [0x73, 0x70, 0x68, 0x02];

/// Key-derivation label of the payload key.
pub const PAYLOAD_KEY_LABEL: [u8; 4] = [0x73, 0x70, 0x68, 0x03];

} // verus!
