//! The header: how it is built, peeled hop by hop, and put on the wire.
use vstd::prelude::*;
use vstd::slice::slice_subrange;
use crate::constants::{
    CURVE_POINT_SIZE, HEADER_INTEGRITY_MAC_SIZE, HEADER_SIZE, MAX_PATH_LENGTH,
};
use crate::crypto::{
    scalar_mul_point, spec_scalar_mul_base, spec_scalar_mul_point, PublicKey, Scalar, SharedKey,
    SharedSecret,
};
use crate::header::delays::Delay;
use crate::header::filler::{lemma_filler_prefix, spec_filler, Filler};
use crate::header::keys::{
    keys_view, route_keys, spec_blinding_factor, spec_key_schedule, spec_routing_keys,
    KeyMaterial, PayloadKey, RoutingKeys, StreamCipherKey,
};
use crate::header::mac::spec_integrity_mac;
use crate::header::routing::{
    parsed_view, spec_encapsulated_to_bytes, spec_layer, spec_unwrap,
    EncapsulatedRoutingInformation, EncapsulatedView, EncryptedRoutingInformation,
    ParsedRawRoutingInformation, ParsedView,
};
use crate::route::{Destination, DestinationAddressBytes, Node, NodeAddressBytes, SURBIdentifier};
use crate::utils::{append, subrange, to_array};
use crate::ProcessingError;

pub mod delays;
pub mod keys;
pub mod mac;
pub mod filler;
pub mod routing;
pub mod laws;

verus! {

/// A header: the group element for the next hop and the routing information.
#[derive(Clone, Copy, Debug, PartialEq, Eq)]
pub struct SphinxHeader {
    pub shared_secret: SharedSecret,
    pub routing_info: EncapsulatedRoutingInformation,
}

/// A header as byte strings.
pub struct SphinxHeaderView {
    pub shared_secret: Seq<u8>,
    pub routing_info: EncapsulatedView,
}

impl View for SphinxHeader {
    type V = SphinxHeaderView;

    open spec fn view(&self) -> SphinxHeaderView {
        SphinxHeaderView { shared_secret: self.shared_secret@, routing_info: self.routing_info@ }
    }
}

/// Why a hop could not process a header.
#[derive(Debug, Clone, Copy, PartialEq, Eq)]
pub enum SphinxUnwrapError {
    /// The tag does not belong to the routing blob under this hop's key.
    IntegrityMacError,
    /// The decrypted layer starts with an unknown flag.
    RoutingFlagNotRecognized,
    /// The decrypted layer has a size that no header gives.
    ProcessingHeaderError,
}

/// What a hop has after processing a header.
pub enum ProcessedHeader {
    /// The header to send on, where to, after which delay, and the key for
    /// the payload.
    ProcessedHeaderForwardHop(SphinxHeader, NodeAddressBytes, Delay, PayloadKey),
    /// The recipient, the reply-block identifier and the key for the payload.
    ProcessedHeaderFinalHop(DestinationAddressBytes, SURBIdentifier, PayloadKey),
}

/// A processed header as byte strings.
pub enum ProcessedView {
    Forward { header: SphinxHeaderView, address: Seq<u8>, delay: Seq<u8>, payload_key: Seq<u8> },
    Final { address: Seq<u8>, identifier: Seq<u8>, payload_key: Seq<u8> },
}

impl View for ProcessedHeader {
    type V = ProcessedView;

    open spec fn view(&self) -> ProcessedView {
        match *self {
            ProcessedHeader::ProcessedHeaderForwardHop(header, address, delay, payload_key) => {
                ProcessedView::Forward {
                    header: header@,
                    address: address@,
                    delay: delay@,
                    payload_key: payload_key@,
                }
            },
            ProcessedHeader::ProcessedHeaderFinalHop(address, identifier, payload_key) => {
                ProcessedView::Final {
                    address: address@,
                    identifier: identifier@,
                    payload_key: payload_key@,
                }
            },
        }
    }
}

/// The view of the outcome of processing.
pub open spec fn processed_view(outcome: Result<ProcessedHeader, SphinxUnwrapError>) -> Result<
    ProcessedView,
    SphinxUnwrapError,
> {
    match outcome {
        Ok(processed) => Ok(processed@),
        Err(e) => Err(e),
    }
}

/// The view of the outcome of reading a header.
pub open spec fn header_view(outcome: Result<SphinxHeader, ProcessingError>) -> Result<
    SphinxHeaderView,
    ProcessingError,
> {
    match outcome {
        Ok(header) => Ok(header@),
        Err(e) => Err(e),
    }
}

/// The views of a list of payload keys.
pub open spec fn payload_keys_view(keys: Seq<PayloadKey>) -> Seq<Seq<u8>> {
    keys.map_values(|k: PayloadKey| k@)
}

/// The header that a sender with secret `initial_secret` builds for a route.
pub open spec fn spec_create(
    route: Seq<Node>,
    delays: Seq<Delay>,
    destination: Destination,
    initial_secret: Seq<u8>,
) -> SphinxHeaderView {
    let keys = spec_key_schedule(route_keys(route), initial_secret);
    SphinxHeaderView {
        shared_secret: spec_scalar_mul_base(initial_secret),
        routing_info: spec_layer(
            route,
            delays,
            destination,
            keys,
            spec_filler(keys, (route.len() - 1) as nat),
            0,
        ),
    }
}

/// The payload keys of the hops of a route, in route order.
pub open spec fn spec_payload_keys(route: Seq<Node>, initial_secret: Seq<u8>) -> Seq<Seq<u8>> {
    Seq::new(
        route.len(),
        |i: int| spec_key_schedule(route_keys(route), initial_secret)[i].payload_key,
    )
}

/// The group element a hop passes on: the one it received, times its
/// blinding factor.
pub open spec fn spec_blind(shared_secret: Seq<u8>, shared_key: Seq<u8>) -> Seq<u8> {
    spec_scalar_mul_point(spec_blinding_factor(shared_secret, shared_key), shared_secret)
}

/// What the holder of `node_secret` makes of a header.
pub open spec fn spec_process(header: SphinxHeaderView, node_secret: Seq<u8>) -> Result<
    ProcessedView,
    SphinxUnwrapError,
> {
    let shared_key = spec_scalar_mul_point(node_secret, header.shared_secret);
    let keys = spec_routing_keys(shared_key);
    if header.routing_info.mac != spec_integrity_mac(
        keys.header_integrity_hmac_key,
        header.routing_info.enc,
    ) {
        Err(SphinxUnwrapError::IntegrityMacError)
    } else {
        match spec_unwrap(header.routing_info.enc, keys.stream_cipher_key) {
            Ok(ParsedView::Forward { address, delay, next }) => Ok(
                ProcessedView::Forward {
                    header: SphinxHeaderView {
                        shared_secret: spec_blind(header.shared_secret, shared_key),
                        routing_info: next,
                    },
                    address,
                    delay,
                    payload_key: keys.payload_key,
                },
            ),
            Ok(ParsedView::Final { address, identifier }) => Ok(
                ProcessedView::Final { address, identifier, payload_key: keys.payload_key },
            ),
            Err(e) => Err(e),
        }
    }
}

/// The wire form of a header: group element, tag, blob.
pub open spec fn spec_header_to_bytes(header: SphinxHeaderView) -> Seq<u8> {
    header.shared_secret + spec_encapsulated_to_bytes(header.routing_info)
}

/// The header that a byte string stands for.
pub open spec fn spec_header_from_bytes(bytes: Seq<u8>) -> Result<
    SphinxHeaderView,
    ProcessingError,
> {
    if bytes.len() != HEADER_SIZE {
        Err(ProcessingError::InvalidHeaderLengthError)
    } else {
        Ok(
            SphinxHeaderView {
                shared_secret: bytes.subrange(0, CURVE_POINT_SIZE as int),
                routing_info: EncapsulatedView {
                    mac: bytes.subrange(
                        CURVE_POINT_SIZE as int,
                        CURVE_POINT_SIZE + HEADER_INTEGRITY_MAC_SIZE,
                    ),
                    enc: bytes.subrange(
                        CURVE_POINT_SIZE + HEADER_INTEGRITY_MAC_SIZE,
                        HEADER_SIZE as int,
                    ),
                },
            },
        )
    }
}

impl SphinxHeader {
    /// Builds the header for a route and returns it with the payload key of
    /// every hop, in route order.
    pub fn new(
        initial_secret: Scalar,
        route: &[Node],
        delays: &[Delay],
        destination: &Destination,
    ) -> (created: (Self, Vec<PayloadKey>))
        requires
            2 <= route@.len() <= MAX_PATH_LENGTH,
            delays@.len() == route@.len(),
        ensures
            created.0@ == spec_create(route@, delays@, *destination, initial_secret@),
            payload_keys_view(created.1@) == spec_payload_keys(route@, initial_secret@),
    {
        let key_material = KeyMaterial::derive(route, initial_secret);
        let ghost keys = keys_view(key_material.routing_keys@);
        assert(keys.len() == route@.len());
        let all_keys = key_material.routing_keys.as_slice();
        let but_last = slice_subrange(all_keys, 0, route.len() - 1);
        let filler = Filler::new(but_last);
        proof {
            lemma_filler_prefix(keys_view(but_last@), keys, (route@.len() - 1) as nat);
        }
        let routing_info = EncapsulatedRoutingInformation::new(
            route,
            destination,
            delays,
            all_keys,
            filler,
        );
        let mut payload_keys: Vec<PayloadKey> = Vec::new();
        let mut i: usize = 0;
        while i < all_keys.len()
            invariant
                i <= all_keys@.len(),
                payload_keys@.len() == i,
                forall|j: int| 0 <= j < i ==> (#[trigger] payload_keys@[j])@ == all_keys@[j]@.payload_key,
            decreases all_keys@.len() - i,
        {
            payload_keys.push(all_keys[i].payload_key);
            i += 1;
        }
        assert(payload_keys_view(payload_keys@) =~= spec_payload_keys(route@, initial_secret@)) by {
            assert forall|j: int| 0 <= j < route@.len() implies payload_keys_view(
                payload_keys@,
            )[j] == spec_payload_keys(route@, initial_secret@)[j] by {
                assert(keys[j] == all_keys@[j]@);
            }
        }
        (SphinxHeader { shared_secret: key_material.initial_shared_secret, routing_info }, payload_keys)
    }

    /// Decrypts a routing blob with a hop's stream-cipher key and reads the
    /// layer that appears.
    pub fn unwrap_routing_information(
        enc_routing_information: EncryptedRoutingInformation,
        stream_cipher_key: StreamCipherKey,
    ) -> (outcome: Result<ParsedRawRoutingInformation, SphinxUnwrapError>)
        ensures
            parsed_view(outcome) == spec_unwrap(enc_routing_information@, stream_cipher_key@),
    {
        enc_routing_information.add_zero_padding().decrypt(stream_cipher_key).parse()
    }

    /// Processes the header at the node that holds `node_secret_key`.
    pub fn process(self, node_secret_key: Scalar) -> (outcome: Result<
        ProcessedHeader,
        SphinxUnwrapError,
    >)
        ensures
            processed_view(outcome) == spec_process(self@, node_secret_key@),
    {
        let shared_secret = self.shared_secret;
        let shared_key = KeyMaterial::compute_shared_key(shared_secret, &node_secret_key);
        let routing_keys = RoutingKeys::derive(shared_key);
        if !self.routing_info.integrity_mac.verify(
            routing_keys.header_integrity_hmac_key,
            self.routing_info.enc_routing_information.get_value_ref(),
        ) {
            return Err(SphinxUnwrapError::IntegrityMacError);
        }
        let new_shared_secret = self.blind_the_shared_secret(shared_secret, shared_key);
        let unwrapped = Self::unwrap_routing_information(
            self.routing_info.enc_routing_information,
            routing_keys.stream_cipher_key,
        );
        match unwrapped {
            Ok(
                ParsedRawRoutingInformation::ForwardHopRoutingInformation(
                    next_hop_address,
                    delay,
                    new_encapsulated_routing_info,
                ),
            ) => Ok(
                ProcessedHeader::ProcessedHeaderForwardHop(
                    SphinxHeader {
                        shared_secret: new_shared_secret,
                        routing_info: new_encapsulated_routing_info,
                    },
                    next_hop_address,
                    delay,
                    routing_keys.payload_key,
                ),
            ),
            Ok(
                ParsedRawRoutingInformation::FinalHopRoutingInformation(
                    destination_address,
                    identifier,
                ),
            ) => Ok(
                ProcessedHeader::ProcessedHeaderFinalHop(
                    destination_address,
                    identifier,
                    routing_keys.payload_key,
                ),
            ),
            Err(e) => Err(e),
        }
    }

    /// The header on the wire: `HEADER_SIZE` bytes.
    pub fn to_bytes(&self) -> (bytes: Vec<u8>)
        ensures
            bytes@ == spec_header_to_bytes(self@),
            bytes@.len() == HEADER_SIZE,
    {
        let mut bytes: Vec<u8> = Vec::new();
        append(&mut bytes, self.shared_secret.as_slice());
        let routing = self.routing_info.to_bytes();
        append(&mut bytes, routing.as_slice());
        bytes
    }

    /// Reads a header from the wire.
    pub fn from_bytes(bytes: Vec<u8>) -> (outcome: Result<Self, ProcessingError>)
        ensures
            header_view(outcome) == spec_header_from_bytes(bytes@),
    {
        if bytes.len() != HEADER_SIZE {
            return Err(ProcessingError::InvalidHeaderLengthError);
        }
        let shared_secret: SharedSecret = to_array(
            subrange(bytes.as_slice(), 0, CURVE_POINT_SIZE).as_slice(),
        );
        let rest = subrange(bytes.as_slice(), CURVE_POINT_SIZE, HEADER_SIZE);
        match EncapsulatedRoutingInformation::from_bytes(rest) {
            Ok(routing_info) => {
                let header = SphinxHeader { shared_secret, routing_info };
                proof {
                    let whole = spec_encapsulated_to_bytes(routing_info@);
                    let expected = spec_header_from_bytes(bytes@).unwrap();
                    assert(routing_info@.mac =~= whole.subrange(
                        0,
                        HEADER_INTEGRITY_MAC_SIZE as int,
                    ));
                    assert(routing_info@.enc =~= whole.subrange(
                        HEADER_INTEGRITY_MAC_SIZE as int,
                        whole.len() as int,
                    ));
                    assert(routing_info@.mac =~= expected.routing_info.mac);
                    assert(routing_info@.enc =~= expected.routing_info.enc);
                }
                Ok(header)
            },
            Err(e) => Err(e),
        }
    }

    /// The group element for the next hop.
    pub fn blind_the_shared_secret(&self, shared_secret: PublicKey, shared_key: SharedKey) -> (blinded:
        PublicKey)
        ensures
            blinded@ == spec_blind(shared_secret@, shared_key@),
    {
        let blinding_factor = KeyMaterial::compute_blinding_factor(&shared_secret, &shared_key);
        scalar_mul_point(&blinding_factor, &shared_secret)
    }
}

} // verus!
