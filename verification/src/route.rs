//! Addresses, mix nodes and destinations.
use vstd::prelude::*;
use crate::constants::{DESTINATION_ADDRESS_LENGTH, IDENTIFIER_LENGTH, NODE_ADDRESS_LENGTH};
use crate::crypto::{generate_random_curve_point, is_public_key, PublicKey};
use crate::utils::to_array;

verus! {

/// The Base58 text (Bitcoin alphabet) of a byte string.
pub uninterp spec fn spec_base58_encode(bytes: Seq<u8>) -> Seq<char>;

/// The bytes that a Base58 text stands for, or `None` where it is no Base58 text.
pub uninterp spec fn spec_base58_decode(text: Seq<char>) -> Option<Seq<u8>>;

/// Calls `bs58::encode(..).into_string()`. The contract names the result.
#[verifier::external_body]
fn base58_encode(bytes: &[u8]) -> (text: String)
    ensures
        text@ == spec_base58_encode(bytes@),
{
    bs58::encode(bytes).into_string()
}

/// Calls `bs58::decode(..).into_vec()`, and gives `None` for its error. The
/// contract names the result.
#[verifier::external_body]
fn base58_decode(text: &str) -> (bytes: Option<Vec<u8>>)
    ensures
        bytes is Some == spec_base58_decode(text@) is Some,
        bytes is Some ==> bytes.unwrap()@ == spec_base58_decode(text@).unwrap(),
{
    match bs58::decode(text).into_vec() {
        Ok(bytes) => Some(bytes),
        Err(_) => None,
    }
}

/// Whether `text` is the Base58 form of exactly `length` bytes.
pub open spec fn decodes_to_length(text: Seq<char>, length: nat) -> bool {
    spec_base58_decode(text) is Some && spec_base58_decode(text).unwrap().len() == length
}

/// Address of the final recipient.
#[derive(Clone, Copy, Debug, Eq, PartialEq)]
pub struct DestinationAddressBytes(pub [u8; DESTINATION_ADDRESS_LENGTH]);

impl View for DestinationAddressBytes {
    type V = Seq<u8>;

    open spec fn view(&self) -> Seq<u8> {
        self.0@
    }
}

impl DestinationAddressBytes {
    pub fn to_base58_string(&self) -> (text: String)
        ensures
            text@ == spec_base58_encode(self@),
    {
        base58_encode(self.0.as_slice())
    }

    /// Reads an address from Base58 text that is known to hold one.
    pub fn from_base58_string(value: String) -> (address: Self)
        requires
            decodes_to_length(value@, DESTINATION_ADDRESS_LENGTH as nat),
        ensures
            address@ == spec_base58_decode(value@).unwrap(),
    {
        let decoded = base58_decode(value.as_str()).unwrap();
        DestinationAddressBytes(to_array(decoded.as_slice()))
    }

    /// Reads an address from any text: `None` unless it is the Base58 form of
    /// exactly `DESTINATION_ADDRESS_LENGTH` bytes.
    pub fn try_from_base58_string(value: String) -> (address: Option<Self>)
        ensures
            address is Some == decodes_to_length(value@, DESTINATION_ADDRESS_LENGTH as nat),
            address is Some ==> address.unwrap()@ == spec_base58_decode(value@).unwrap(),
    {
        let fits = match base58_decode(value.as_str()) {
            Some(decoded) => decoded.len() == DESTINATION_ADDRESS_LENGTH,
            None => false,
        };
        if fits {
            Some(Self::from_base58_string(value))
        } else {
            None
        }
    }

    pub fn from_bytes(b: [u8; DESTINATION_ADDRESS_LENGTH]) -> (address: Self)
        ensures
            address.0 == b,
    {
        DestinationAddressBytes(b)
    }

    /// The address as a reference to its bytes.
    pub fn as_bytes(&self) -> (bytes: &[u8; DESTINATION_ADDRESS_LENGTH])
        ensures
            *bytes == self.0,
    {
        &self.0
    }

    /// The address as an array of bytes.
    pub fn to_bytes(&self) -> (bytes: [u8; DESTINATION_ADDRESS_LENGTH])
        ensures
            bytes == self.0,
    {
        self.0
    }
}

/// Address of a mix node.
#[derive(Clone, Copy, Debug, Eq, PartialEq)]
pub struct NodeAddressBytes(pub [u8; NODE_ADDRESS_LENGTH]);

impl View for NodeAddressBytes {
    type V = Seq<u8>;

    open spec fn view(&self) -> Seq<u8> {
        self.0@
    }
}

impl NodeAddressBytes {
    pub fn to_base58_string(&self) -> (text: String)
        ensures
            text@ == spec_base58_encode(self@),
    {
        base58_encode(self.0.as_slice())
    }

    /// Reads an address from Base58 text that is known to hold one.
    pub fn from_base58_string(value: String) -> (address: Self)
        requires
            decodes_to_length(value@, NODE_ADDRESS_LENGTH as nat),
        ensures
            address@ == spec_base58_decode(value@).unwrap(),
    {
        let decoded = base58_decode(value.as_str()).unwrap();
        NodeAddressBytes(to_array(decoded.as_slice()))
    }

    /// Reads an address from any text: `None` unless it is the Base58 form of
    /// exactly `NODE_ADDRESS_LENGTH` bytes.
    pub fn try_from_base58_string(value: String) -> (address: Option<Self>)
        ensures
            address is Some == decodes_to_length(value@, NODE_ADDRESS_LENGTH as nat),
            address is Some ==> address.unwrap()@ == spec_base58_decode(value@).unwrap(),
    {
        let fits = match base58_decode(value.as_str()) {
            Some(decoded) => decoded.len() == NODE_ADDRESS_LENGTH,
            None => false,
        };
        if fits {
            Some(Self::from_base58_string(value))
        } else {
            None
        }
    }

    pub fn from_bytes(b: [u8; NODE_ADDRESS_LENGTH]) -> (address: Self)
        ensures
            address.0 == b,
    {
        NodeAddressBytes(b)
    }

    /// The address as a reference to its bytes.
    pub fn as_bytes(&self) -> (bytes: &[u8; NODE_ADDRESS_LENGTH])
        ensures
            *bytes == self.0,
    {
        &self.0
    }

    /// The address as an array of bytes.
    pub fn to_bytes(&self) -> (bytes: [u8; NODE_ADDRESS_LENGTH])
        ensures
            bytes == self.0,
    {
        self.0
    }
}

/// Identifier of a single-use reply block, carried to the final hop.
pub type SURBIdentifier = [u8; IDENTIFIER_LENGTH];

/// Where a packet is finally delivered.
#[derive(Clone, Copy, Debug, PartialEq)]
pub struct Destination {
    pub address: DestinationAddressBytes,
    pub identifier: SURBIdentifier,
}

impl Destination {
    pub fn new(address: DestinationAddressBytes, identifier: SURBIdentifier) -> (destination: Self)
        ensures
            destination.address == address,
            destination.identifier == identifier,
    {
        Self { address, identifier }
    }
}

/// A mix node: its address on the wire and its public key.
#[derive(Clone, Copy, Debug, PartialEq)]
pub struct Node {
    pub address: NodeAddressBytes,
    pub pub_key: PublicKey,
}

impl Node {
    pub fn new(address: NodeAddressBytes, pub_key: PublicKey) -> (node: Self)
        ensures
            node.address == address,
            node.pub_key == pub_key,
    {
        Self { address, pub_key }
    }
}

pub fn destination_address_fixture() -> (address: DestinationAddressBytes)
    ensures
        address@ == Seq::new(DESTINATION_ADDRESS_LENGTH as nat, |i: int| 0u8),
{
    let address = DestinationAddressBytes([0u8; DESTINATION_ADDRESS_LENGTH]);
    assert(address@ =~= Seq::new(DESTINATION_ADDRESS_LENGTH as nat, |i: int| 0u8));
    address
}

pub fn node_address_fixture() -> (address: NodeAddressBytes)
    ensures
        address@ == Seq::new(NODE_ADDRESS_LENGTH as nat, |i: int| 0u8),
{
    let address = NodeAddressBytes([0u8; NODE_ADDRESS_LENGTH]);
    assert(address@ =~= Seq::new(NODE_ADDRESS_LENGTH as nat, |i: int| 0u8));
    address
}

pub fn surb_identifier_fixture() -> (identifier: SURBIdentifier)
    ensures
        identifier@ == Seq::new(IDENTIFIER_LENGTH as nat, |i: int| 0u8),
{
    let identifier: SURBIdentifier = [0u8; IDENTIFIER_LENGTH];
    assert(identifier@ =~= Seq::new(IDENTIFIER_LENGTH as nat, |i: int| 0u8));
    identifier
}

/// The node with the fixture's address, every byte 2, and the key that was
/// drawn; `None` where none was.
pub fn random_node_from(drawn: Option<PublicKey>) -> (node: Option<Node>)
    ensures
        drawn is None ==> node is None,
        drawn is Some ==> node is Some && node.unwrap().pub_key == drawn.unwrap()
            && node.unwrap().address@ == Seq::new(NODE_ADDRESS_LENGTH as nat, |i: int| 2u8),
{
    match drawn {
        Some(pub_key) => {
            let address = NodeAddressBytes([2u8; NODE_ADDRESS_LENGTH]);
            assert(address@ =~= Seq::new(NODE_ADDRESS_LENGTH as nat, |i: int| 2u8));
            Some(Node { address, pub_key })
        },
        None => None,
    }
}

/// A node with a fixed address and a random key, or `None` where the system
/// has no randomness to give. The key is the public key of a secret that
/// nobody holds.
pub fn random_node() -> (node: Option<Node>)
    ensures
        node is Some ==> node.unwrap().address@ == Seq::new(
            NODE_ADDRESS_LENGTH as nat,
            |i: int| 2u8,
        ),
        node is Some ==> is_public_key(node.unwrap().pub_key),
{
    random_node_from(generate_random_curve_point())
}

pub fn destination_fixture() -> (destination: Destination)
    ensures
        destination.address@ == Seq::new(DESTINATION_ADDRESS_LENGTH as nat, |i: int| 3u8),
        destination.identifier@ == Seq::new(IDENTIFIER_LENGTH as nat, |i: int| 4u8),
{
    let destination = Destination {
        address: DestinationAddressBytes([3u8; DESTINATION_ADDRESS_LENGTH]),
        identifier: [4u8; IDENTIFIER_LENGTH],
    };
    assert(destination.address@ =~= Seq::new(DESTINATION_ADDRESS_LENGTH as nat, |i: int| 3u8));
    assert(destination.identifier@ =~= Seq::new(IDENTIFIER_LENGTH as nat, |i: int| 4u8));
    destination
}

} // verus!
