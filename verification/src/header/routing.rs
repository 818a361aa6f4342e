//! The routing blob: how the sender builds it layer by layer, innermost
//! first, and how a hop reads the layer it has decrypted.
use vstd::prelude::*;
use crate::constants::{
    DESTINATION_ADDRESS_LENGTH, ENCRYPTED_ROUTING_INFO_SIZE, FILLER_STEP_SIZE_INCREASE, FINAL_HOP,
    FINAL_NODE_META_INFO_LENGTH, FORWARD_HOP, HEADER_INTEGRITY_MAC_SIZE, MAX_PATH_LENGTH,
    NODE_ADDRESS_LENGTH, NODE_META_INFO_SIZE, STREAM_CIPHER_OUTPUT_LENGTH,
};
use crate::header::delays::Delay;
use crate::header::filler::{hop_stream, spec_hop_stream, Filler};
use crate::header::keys::{keys_view, RoutingKeys, RoutingKeysView, StreamCipherKey};
use crate::header::mac::{spec_integrity_mac, HeaderIntegrityMac};
use crate::header::SphinxUnwrapError;
use crate::route::{Destination, DestinationAddressBytes, Node, NodeAddressBytes, SURBIdentifier};
use crate::utils::{append, append_zeros, spec_xor, spec_zeros, subrange, to_array, xor};
use crate::ProcessingError;

verus! {

/// Wire size of a tag followed by the blob it covers.
pub const ENCAPSULATED_ROUTING_INFO_SIZE: usize = 301;

/// An encrypted routing blob.
#[derive(Clone, Copy, Debug, PartialEq, Eq)]
pub struct EncryptedRoutingInformation {
    pub value: [u8; ENCRYPTED_ROUTING_INFO_SIZE],
}

impl View for EncryptedRoutingInformation {
    type V = Seq<u8>;

    open spec fn view(&self) -> Seq<u8> {
        self.value@
    }
}

/// An encrypted routing blob with the tag that covers it.
#[derive(Clone, Copy, Debug, PartialEq, Eq)]
pub struct EncapsulatedRoutingInformation {
    pub enc_routing_information: EncryptedRoutingInformation,
    pub integrity_mac: HeaderIntegrityMac,
}

/// A tag and a blob as byte strings.
pub struct EncapsulatedView {
    pub mac: Seq<u8>,
    pub enc: Seq<u8>,
}

impl View for EncapsulatedRoutingInformation {
    type V = EncapsulatedView;

    open spec fn view(&self) -> EncapsulatedView {
        EncapsulatedView { mac: self.integrity_mac@, enc: self.enc_routing_information@ }
    }
}

/// A blob extended by one step of zeros, ready to be decrypted.
pub struct PaddedEncryptedRoutingInformation {
    pub value: Vec<u8>,
}

/// A decrypted layer, not yet read.
pub struct RawRoutingInformation {
    pub value: Vec<u8>,
}

/// What a hop finds in its layer.
pub enum ParsedRawRoutingInformation {
    /// Where to send the packet next, after which delay, and the routing
    /// information to send along.
    ForwardHopRoutingInformation(NodeAddressBytes, Delay, EncapsulatedRoutingInformation),
    /// The packet has arrived: its recipient and the reply-block identifier.
    FinalHopRoutingInformation(DestinationAddressBytes, SURBIdentifier),
}

/// A parsed layer as byte strings.
pub enum ParsedView {
    Forward { address: Seq<u8>, delay: Seq<u8>, next: EncapsulatedView },
    Final { address: Seq<u8>, identifier: Seq<u8> },
}

impl View for ParsedRawRoutingInformation {
    type V = ParsedView;

    open spec fn view(&self) -> ParsedView {
        match *self {
            ParsedRawRoutingInformation::ForwardHopRoutingInformation(address, delay, next) => {
                ParsedView::Forward { address: address@, delay: delay@, next: next@ }
            },
            ParsedRawRoutingInformation::FinalHopRoutingInformation(address, identifier) => {
                ParsedView::Final { address: address@, identifier: identifier@ }
            },
        }
    }
}

/// The innermost layer, encrypted: flag, destination and identifier, padded
/// with zeros up to where the filler starts, XORed with the last hop's key
/// stream, and followed by the filler.
pub open spec fn spec_final_layer(destination: Destination, key: Seq<u8>, filler: Seq<u8>) -> Seq<
    u8,
> {
    let meta = seq![FINAL_HOP] + destination.address@ + destination.identifier@;
    let padded = meta + spec_zeros(
        (ENCRYPTED_ROUTING_INFO_SIZE - filler.len() - FINAL_NODE_META_INFO_LENGTH) as nat,
    );
    spec_xor(padded, spec_hop_stream(key)) + filler
}

/// A forwarding layer, encrypted: flag, next address, delay, the tag of the
/// next layer and that layer less its last step, XORed with the hop's key
/// stream.
pub open spec fn spec_forward_layer(
    address: Seq<u8>,
    delay: Seq<u8>,
    next: EncapsulatedView,
    key: Seq<u8>,
) -> Seq<u8> {
    let raw = seq![FORWARD_HOP] + address + delay + next.mac + next.enc.subrange(
        0,
        ENCRYPTED_ROUTING_INFO_SIZE - FILLER_STEP_SIZE_INCREASE,
    );
    spec_xor(raw, spec_hop_stream(key))
}

/// A blob with its tag under `mac_key`.
pub open spec fn spec_encapsulate(enc: Seq<u8>, mac_key: Seq<u8>) -> EncapsulatedView {
    EncapsulatedView { mac: spec_integrity_mac(mac_key, enc), enc }
}

/// The routing information that hop `i` (counted from 0) of the route receives.
pub open spec fn spec_layer(
    route: Seq<Node>,
    delays: Seq<Delay>,
    destination: Destination,
    keys: Seq<RoutingKeysView>,
    filler: Seq<u8>,
    i: nat,
) -> EncapsulatedView
    decreases route.len() - i,
{
    if i + 1 >= route.len() {
        spec_encapsulate(
            spec_final_layer(destination, keys[i as int].stream_cipher_key, filler),
            keys[i as int].header_integrity_hmac_key,
        )
    } else {
        spec_encapsulate(
            spec_forward_layer(
                route[i as int + 1].address@,
                delays[i as int]@,
                spec_layer(route, delays, destination, keys, filler, i + 1),
                keys[i as int].stream_cipher_key,
            ),
            keys[i as int].header_integrity_hmac_key,
        )
    }
}

/// What a decrypted layer of `STREAM_CIPHER_OUTPUT_LENGTH` bytes says.
pub open spec fn spec_parse(raw: Seq<u8>) -> Result<ParsedView, SphinxUnwrapError> {
    if raw.len() != STREAM_CIPHER_OUTPUT_LENGTH {
        Err(SphinxUnwrapError::ProcessingHeaderError)
    } else if raw[0] == FORWARD_HOP {
        Ok(
            ParsedView::Forward {
                address: raw.subrange(1, 1 + NODE_ADDRESS_LENGTH),
                delay: raw.subrange(1 + NODE_ADDRESS_LENGTH, NODE_META_INFO_SIZE as int),
                next: EncapsulatedView {
                    mac: raw.subrange(
                        NODE_META_INFO_SIZE as int,
                        FILLER_STEP_SIZE_INCREASE as int,
                    ),
                    enc: raw.subrange(
                        FILLER_STEP_SIZE_INCREASE as int,
                        STREAM_CIPHER_OUTPUT_LENGTH as int,
                    ),
                },
            },
        )
    } else if raw[0] == FINAL_HOP {
        Ok(
            ParsedView::Final {
                address: raw.subrange(1, 1 + DESTINATION_ADDRESS_LENGTH),
                identifier: raw.subrange(
                    1 + DESTINATION_ADDRESS_LENGTH,
                    FINAL_NODE_META_INFO_LENGTH as int,
                ),
            },
        )
    } else {
        Err(SphinxUnwrapError::RoutingFlagNotRecognized)
    }
}

/// What a hop with stream-cipher key `key` reads in the blob `enc`.
pub open spec fn spec_unwrap(enc: Seq<u8>, key: Seq<u8>) -> Result<ParsedView, SphinxUnwrapError> {
    spec_parse(
        spec_xor(enc + spec_zeros(FILLER_STEP_SIZE_INCREASE as nat), spec_hop_stream(key)),
    )
}

/// The view of the outcome of parsing.
pub open spec fn parsed_view(outcome: Result<ParsedRawRoutingInformation, SphinxUnwrapError>)
    -> Result<ParsedView, SphinxUnwrapError> {
    match outcome {
        Ok(parsed) => Ok(parsed@),
        Err(e) => Err(e),
    }
}

/// The wire form of a tag and its blob: the tag first.
pub open spec fn spec_encapsulated_to_bytes(info: EncapsulatedView) -> Seq<u8> {
    info.mac + info.enc
}

impl EncryptedRoutingInformation {
    pub fn from_bytes(bytes: [u8; ENCRYPTED_ROUTING_INFO_SIZE]) -> (enc: Self)
        ensures
            enc.value == bytes,
    {
        EncryptedRoutingInformation { value: bytes }
    }

    pub fn get_value_ref(&self) -> (bytes: &[u8])
        ensures
            bytes@ == self@,
    {
        self.value.as_slice()
    }

    /// Extends the blob by the step of zeros that stands for what the sender's
    /// filler holds there.
    pub fn add_zero_padding(self) -> (padded: PaddedEncryptedRoutingInformation)
        ensures
            padded.value@ == self@ + spec_zeros(FILLER_STEP_SIZE_INCREASE as nat),
    {
        let mut value: Vec<u8> = Vec::new();
        append(&mut value, self.value.as_slice());
        append_zeros(&mut value, FILLER_STEP_SIZE_INCREASE);
        PaddedEncryptedRoutingInformation { value }
    }
}

impl PaddedEncryptedRoutingInformation {
    /// Removes the hop's layer of encryption. A value that is longer than the
    /// hop's key stream is handed on as it is, and is rejected when parsed.
    pub fn decrypt(self, key: StreamCipherKey) -> (raw: RawRoutingInformation)
        ensures
            self.value@.len() <= STREAM_CIPHER_OUTPUT_LENGTH ==> raw.value@ == spec_xor(
                self.value@,
                spec_hop_stream(key@),
            ),
            self.value@.len() > STREAM_CIPHER_OUTPUT_LENGTH ==> raw.value@ == self.value@,
    {
        if self.value.len() > STREAM_CIPHER_OUTPUT_LENGTH {
            return RawRoutingInformation { value: self.value };
        }
        let stream = hop_stream(&key);
        RawRoutingInformation { value: xor(self.value.as_slice(), stream.as_slice()) }
    }
}

impl RawRoutingInformation {
    /// Reads a decrypted layer by its flag.
    pub fn parse(self) -> (outcome: Result<ParsedRawRoutingInformation, SphinxUnwrapError>)
        ensures
            parsed_view(outcome) == spec_parse(self.value@),
    {
        if self.value.len() != STREAM_CIPHER_OUTPUT_LENGTH {
            return Err(SphinxUnwrapError::ProcessingHeaderError);
        }
        let raw = self.value.as_slice();
        let flag: u8 = raw[0];
        if flag == FORWARD_HOP {
            let address = subrange(raw, 1, 1 + NODE_ADDRESS_LENGTH);
            let delay = subrange(raw, 1 + NODE_ADDRESS_LENGTH, NODE_META_INFO_SIZE);
            let mac = subrange(raw, NODE_META_INFO_SIZE, FILLER_STEP_SIZE_INCREASE);
            let enc = subrange(raw, FILLER_STEP_SIZE_INCREASE, STREAM_CIPHER_OUTPUT_LENGTH);
            Ok(
                ParsedRawRoutingInformation::ForwardHopRoutingInformation(
                    NodeAddressBytes(to_array(address.as_slice())),
                    Delay { value: to_array(delay.as_slice()) },
                    EncapsulatedRoutingInformation {
                        enc_routing_information: EncryptedRoutingInformation {
                            value: to_array(enc.as_slice()),
                        },
                        integrity_mac: HeaderIntegrityMac { value: to_array(mac.as_slice()) },
                    },
                ),
            )
        } else if flag == FINAL_HOP {
            let address = subrange(raw, 1, 1 + DESTINATION_ADDRESS_LENGTH);
            let identifier = subrange(
                raw,
                1 + DESTINATION_ADDRESS_LENGTH,
                FINAL_NODE_META_INFO_LENGTH,
            );
            Ok(
                ParsedRawRoutingInformation::FinalHopRoutingInformation(
                    DestinationAddressBytes(to_array(address.as_slice())),
                    to_array(identifier.as_slice()),
                ),
            )
        } else {
            Err(SphinxUnwrapError::RoutingFlagNotRecognized)
        }
    }
}

impl EncapsulatedRoutingInformation {
    /// Builds the routing information for the first hop of `route`: the
    /// innermost layer first, then one layer around it for every earlier hop.
    pub fn new(
        route: &[Node],
        destination: &Destination,
        delays: &[Delay],
        routing_keys: &[RoutingKeys],
        filler: Filler,
    ) -> (info: Self)
        requires
            1 <= route@.len() <= MAX_PATH_LENGTH,
            delays@.len() == route@.len(),
            routing_keys@.len() == route@.len(),
            filler@.len() == (route@.len() - 1) * FILLER_STEP_SIZE_INCREASE,
        ensures
            info@ == spec_layer(
                route@,
                delays@,
                *destination,
                keys_view(routing_keys@),
                filler@,
                0,
            ),
    {
        let ghost keys = keys_view(routing_keys@);
        let ghost tail = filler@;
        let last: usize = route.len() - 1;
        assert(keys[last as int] == routing_keys@[last as int]@);
        let mut info = Self::for_final_hop(destination, &routing_keys[last], filler);
        let mut i: usize = last;
        while i > 0
            invariant
                i <= last,
                last + 1 == route@.len(),
                delays@.len() == route@.len(),
                routing_keys@.len() == route@.len(),
                keys == keys_view(routing_keys@),
                info@ == spec_layer(route@, delays@, *destination, keys, tail, i as nat),
            decreases i,
        {
            i -= 1;
            assert(keys[i as int] == routing_keys@[i as int]@);
            info = Self::for_forward_hop(&route[i + 1].address, &delays[i], &info, &routing_keys[i]);
        }
        info
    }

    /// The layer of the last hop.
    pub fn for_final_hop(destination: &Destination, keys: &RoutingKeys, filler: Filler) -> (info:
        Self)
        requires
            filler@.len() <= ENCRYPTED_ROUTING_INFO_SIZE - FILLER_STEP_SIZE_INCREASE,
        ensures
            info@ == spec_encapsulate(
                spec_final_layer(*destination, keys@.stream_cipher_key, filler@),
                keys@.header_integrity_hmac_key,
            ),
    {
        let mut raw: Vec<u8> = Vec::new();
        raw.push(FINAL_HOP);
        append(&mut raw, destination.address.0.as_slice());
        append(&mut raw, destination.identifier.as_slice());
        assert(raw@ =~= seq![FINAL_HOP] + destination.address@ + destination.identifier@);
        append_zeros(
            &mut raw,
            ENCRYPTED_ROUTING_INFO_SIZE - filler.value.len() - FINAL_NODE_META_INFO_LENGTH,
        );
        let stream = hop_stream(&keys.stream_cipher_key);
        let mut enc = xor(raw.as_slice(), stream.as_slice());
        append(&mut enc, filler.value.as_slice());
        Self::encapsulate(to_array(enc.as_slice()), keys)
    }

    /// The layer of a hop that forwards to `next_address` after `delay`.
    pub fn for_forward_hop(
        next_address: &NodeAddressBytes,
        delay: &Delay,
        next: &EncapsulatedRoutingInformation,
        keys: &RoutingKeys,
    ) -> (info: Self)
        ensures
            info@ == spec_encapsulate(
                spec_forward_layer(next_address@, delay@, next@, keys@.stream_cipher_key),
                keys@.header_integrity_hmac_key,
            ),
    {
        let mut raw: Vec<u8> = Vec::new();
        raw.push(FORWARD_HOP);
        append(&mut raw, next_address.0.as_slice());
        append(&mut raw, delay.value.as_slice());
        append(&mut raw, next.integrity_mac.value.as_slice());
        let kept = subrange(
            next.enc_routing_information.value.as_slice(),
            0,
            ENCRYPTED_ROUTING_INFO_SIZE - FILLER_STEP_SIZE_INCREASE,
        );
        append(&mut raw, kept.as_slice());
        assert(raw@ =~= seq![FORWARD_HOP] + next_address@ + delay@ + next@.mac + next@.enc.subrange(
            0,
            ENCRYPTED_ROUTING_INFO_SIZE - FILLER_STEP_SIZE_INCREASE,
        ));
        let stream = hop_stream(&keys.stream_cipher_key);
        let enc = xor(raw.as_slice(), stream.as_slice());
        Self::encapsulate(to_array(enc.as_slice()), keys)
    }

    /// Puts the tag under the hop's integrity key on a blob.
    pub fn encapsulate(enc: [u8; ENCRYPTED_ROUTING_INFO_SIZE], keys: &RoutingKeys) -> (info: Self)
        ensures
            info@ == spec_encapsulate(enc@, keys@.header_integrity_hmac_key),
    {
        let integrity_mac = HeaderIntegrityMac::compute(
            keys.header_integrity_hmac_key,
            enc.as_slice(),
        );
        EncapsulatedRoutingInformation {
            enc_routing_information: EncryptedRoutingInformation { value: enc },
            integrity_mac,
        }
    }

    /// The tag followed by the blob.
    pub fn to_bytes(&self) -> (bytes: Vec<u8>)
        ensures
            bytes@ == spec_encapsulated_to_bytes(self@),
            bytes@.len() == ENCAPSULATED_ROUTING_INFO_SIZE,
    {
        let mut bytes: Vec<u8> = Vec::new();
        append(&mut bytes, self.integrity_mac.value.as_slice());
        append(&mut bytes, self.enc_routing_information.value.as_slice());
        bytes
    }

    /// Reads a tag and a blob from their wire form.
    pub fn from_bytes(bytes: Vec<u8>) -> (outcome: Result<Self, ProcessingError>)
        ensures
            bytes@.len() != ENCAPSULATED_ROUTING_INFO_SIZE ==> outcome == Err::<Self, ProcessingError>(
                ProcessingError::InvalidRoutingInformationLengthError,
            ),
            bytes@.len() == ENCAPSULATED_ROUTING_INFO_SIZE ==> outcome is Ok
                && spec_encapsulated_to_bytes(outcome.unwrap()@) == bytes@,
    {
        if bytes.len() != ENCAPSULATED_ROUTING_INFO_SIZE {
            return Err(ProcessingError::InvalidRoutingInformationLengthError);
        }
        let mac = subrange(bytes.as_slice(), 0, HEADER_INTEGRITY_MAC_SIZE);
        let enc = subrange(
            bytes.as_slice(),
            HEADER_INTEGRITY_MAC_SIZE,
            ENCAPSULATED_ROUTING_INFO_SIZE,
        );
        let info = EncapsulatedRoutingInformation {
            enc_routing_information: EncryptedRoutingInformation { value: to_array(enc.as_slice()) },
            integrity_mac: HeaderIntegrityMac { value: to_array(mac.as_slice()) },
        };
        assert(spec_encapsulated_to_bytes(info@) =~= bytes@);
        Ok(info)
    }
}

/// Routing information of fixed content: a tag of 1s over a blob of 5s.
pub fn encapsulated_routing_information_fixture() -> (info: EncapsulatedRoutingInformation)
    ensures
        info@.mac == Seq::new(HEADER_INTEGRITY_MAC_SIZE as nat, |i: int| 1u8),
        info@.enc == Seq::new(ENCRYPTED_ROUTING_INFO_SIZE as nat, |i: int| 5u8),
{
    let info = EncapsulatedRoutingInformation {
        enc_routing_information: EncryptedRoutingInformation {
            value: [5u8; ENCRYPTED_ROUTING_INFO_SIZE],
        },
        integrity_mac: HeaderIntegrityMac { value: [1u8; HEADER_INTEGRITY_MAC_SIZE] },
    };
    assert(info@.mac =~= Seq::new(HEADER_INTEGRITY_MAC_SIZE as nat, |i: int| 1u8));
    assert(info@.enc =~= Seq::new(ENCRYPTED_ROUTING_INFO_SIZE as nat, |i: int| 5u8));
    info
}

} // verus!
