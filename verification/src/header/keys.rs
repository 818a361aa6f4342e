//! The key schedule: the shared key of every hop of a route, and the keys
//! derived from it.
use vstd::prelude::*;
use crate::constants::{
    INTEGRITY_MAC_KEY_LABEL, INTEGRITY_MAC_KEY_SIZE, PAYLOAD_KEY_LABEL, PAYLOAD_KEY_SIZE,
    STREAM_CIPHER_KEY_LABEL, STREAM_CIPHER_KEY_SIZE,
};
use crate::crypto::{
    compute_keyed_hmac, hkdf_sha256, scalar_mul_base, scalar_mul_point, scalar_product,
    spec_hkdf_expand, spec_keyed_hmac, spec_scalar_mul_base, spec_scalar_mul_point,
    spec_scalar_product, Scalar, SharedKey, SharedSecret,
};
use crate::header::mac::HeaderIntegrityMacKey;
use crate::route::Node;

verus! {

pub type StreamCipherKey = [u8; STREAM_CIPHER_KEY_SIZE];

pub type PayloadKey = [u8; PAYLOAD_KEY_SIZE];

/// The keys one hop works with.
#[derive(Clone, Copy)]
pub struct RoutingKeys {
    pub stream_cipher_key: StreamCipherKey,
    pub header_integrity_hmac_key: HeaderIntegrityMacKey,
    pub payload_key: PayloadKey,
}

/// The keys of one hop as byte strings.
pub struct RoutingKeysView {
    pub stream_cipher_key: Seq<u8>,
    pub header_integrity_hmac_key: Seq<u8>,
    pub payload_key: Seq<u8>,
}

impl View for RoutingKeys {
    type V = RoutingKeysView;

    open spec fn view(&self) -> RoutingKeysView {
        RoutingKeysView {
            stream_cipher_key: self.stream_cipher_key@,
            header_integrity_hmac_key: self.header_integrity_hmac_key@,
            payload_key: self.payload_key@,
        }
    }
}

/// The keys derived from a shared key: one expansion per key, each under a
/// label of its own.
pub open spec fn spec_routing_keys(shared_key: Seq<u8>) -> RoutingKeysView {
    RoutingKeysView {
        stream_cipher_key: spec_hkdf_expand(
            shared_key,
            STREAM_CIPHER_KEY_LABEL@,
            STREAM_CIPHER_KEY_SIZE as nat,
        ),
        header_integrity_hmac_key: spec_hkdf_expand(
            shared_key,
            INTEGRITY_MAC_KEY_LABEL@,
            INTEGRITY_MAC_KEY_SIZE as nat,
        ),
        payload_key: spec_hkdf_expand(shared_key, PAYLOAD_KEY_LABEL@, PAYLOAD_KEY_SIZE as nat),
    }
}

/// The factor by which a hop blinds the group element `shared_secret` that it
/// received, given the shared key it computed from it.
pub open spec fn spec_blinding_factor(shared_secret: Seq<u8>, shared_key: Seq<u8>) -> Seq<u8> {
    spec_keyed_hmac(shared_key, shared_secret)
}

/// The public keys of a route, in order.
pub open spec fn route_keys(route: Seq<Node>) -> Seq<Seq<u8>> {
    route.map_values(|node: Node| node.pub_key@)
}

/// The sender's exponent at hop `i` (counted from 0): the initial secret
/// times the blinding factors of all hops before `i`.
pub open spec fn spec_exponent(keys: Seq<Seq<u8>>, initial_secret: Seq<u8>, i: nat) -> Seq<u8>
    decreases i,
{
    if i == 0 {
        initial_secret
    } else {
        let before = spec_exponent(keys, initial_secret, (i - 1) as nat);
        spec_scalar_product(
            before,
            spec_blinding_factor(
                spec_scalar_mul_base(before),
                spec_scalar_mul_point(before, keys[i - 1]),
            ),
        )
    }
}

/// The group element that hop `i` finds in the header.
pub open spec fn spec_hop_secret(keys: Seq<Seq<u8>>, initial_secret: Seq<u8>, i: nat) -> Seq<u8> {
    spec_scalar_mul_base(spec_exponent(keys, initial_secret, i))
}

/// The key that the sender shares with hop `i`.
pub open spec fn spec_shared_key(keys: Seq<Seq<u8>>, initial_secret: Seq<u8>, i: nat) -> Seq<u8> {
    spec_scalar_mul_point(spec_exponent(keys, initial_secret, i), keys[i as int])
}

/// The routing keys of every hop of a route with the given public keys.
pub open spec fn spec_key_schedule(keys: Seq<Seq<u8>>, initial_secret: Seq<u8>) -> Seq<
    RoutingKeysView,
> {
    Seq::new(
        keys.len(),
        |i: int| spec_routing_keys(spec_shared_key(keys, initial_secret, i as nat)),
    )
}

/// The views of a list of routing keys.
pub open spec fn keys_view(keys: Seq<RoutingKeys>) -> Seq<RoutingKeysView> {
    keys.map_values(|k: RoutingKeys| k@)
}

impl RoutingKeys {
    /// Derives the keys of a hop from the key shared with it.
    pub fn derive(shared_key: SharedKey) -> (keys: Self)
        ensures
            keys@ == spec_routing_keys(shared_key@),
    {
        let ikm = shared_key.as_slice();
        RoutingKeys {
            stream_cipher_key: hkdf_sha256(ikm, STREAM_CIPHER_KEY_LABEL.as_slice()),
            header_integrity_hmac_key: hkdf_sha256(ikm, INTEGRITY_MAC_KEY_LABEL.as_slice()),
            payload_key: hkdf_sha256(ikm, PAYLOAD_KEY_LABEL.as_slice()),
        }
    }
}

/// What the sender derives for a route.
pub struct KeyMaterial {
    pub initial_shared_secret: SharedSecret,
    pub routing_keys: Vec<RoutingKeys>,
}

impl KeyMaterial {
    /// The blinding factor of a hop that received `shared_secret` and
    /// computed `shared_key`.
    pub fn compute_blinding_factor(shared_secret: &SharedSecret, shared_key: &SharedKey) -> (factor:
        Scalar)
        ensures
            factor@ == spec_blinding_factor(shared_secret@, shared_key@),
    {
        compute_keyed_hmac(shared_key.as_slice(), shared_secret.as_slice())
    }

    /// The key shared between the holder of `exponent` and the holder of the
    /// secret behind `point`.
    pub fn compute_shared_key(point: SharedSecret, exponent: &Scalar) -> (key: SharedKey)
        ensures
            key@ == spec_scalar_mul_point(exponent@, point@),
    {
        scalar_mul_point(exponent, &point)
    }

    /// Derives the group element of the first hop and the keys of every hop.
    pub fn derive(route: &[Node], initial_secret: Scalar) -> (material: Self)
        requires
            route@.len() > 0,
        ensures
            material.initial_shared_secret@ == spec_scalar_mul_base(initial_secret@),
            keys_view(material.routing_keys@) == spec_key_schedule(
                route_keys(route@),
                initial_secret@,
            ),
    {
        let ghost keys = route_keys(route@);
        let initial_shared_secret = scalar_mul_base(&initial_secret);
        let mut routing_keys: Vec<RoutingKeys> = Vec::new();
        let mut exponent: Scalar = initial_secret;
        let mut i: usize = 0;
        while i < route.len()
            invariant
                i <= route@.len(),
                keys == route_keys(route@),
                routing_keys@.len() == i,
                i < route@.len() ==> exponent@ == spec_exponent(keys, initial_secret@, i as nat),
                forall|j: int|
                    0 <= j < i ==> (#[trigger] routing_keys@[j])@ == spec_routing_keys(
                        spec_shared_key(keys, initial_secret@, j as nat),
                    ),
            decreases route@.len() - i,
        {
            let shared_key = Self::compute_shared_key(route[i].pub_key, &exponent);
            assert(keys[i as int] == route@[i as int].pub_key@);
            routing_keys.push(RoutingKeys::derive(shared_key));
            if i + 1 < route.len() {
                let shared_secret = scalar_mul_base(&exponent);
                let factor = Self::compute_blinding_factor(&shared_secret, &shared_key);
                exponent = scalar_product(&exponent, &factor);
            }
            i += 1;
        }
        assert(keys_view(routing_keys@) =~= spec_key_schedule(keys, initial_secret@));
        KeyMaterial { initial_shared_secret, routing_keys }
    }
}

} // verus!
