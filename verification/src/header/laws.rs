//! What holds of headers across functions: the wire form can be read back, a
//! header with a changed tag is rejected, and peeling a layer that the sender
//! built gives the layer built for the next hop.
use vstd::prelude::*;
use crate::constants::{
    ENCRYPTED_ROUTING_INFO_SIZE, FILLER_STEP_SIZE_INCREASE, FINAL_HOP,
    FINAL_NODE_META_INFO_LENGTH, FORWARD_HOP,
    MAX_PATH_LENGTH, STREAM_CIPHER_OUTPUT_LENGTH,
};
use crate::crypto::{spec_scalar_mul_base, spec_scalar_mul_point, spec_scalar_product};
use crate::header::delays::Delay;
use crate::header::filler::{lemma_filler_len, spec_filler, spec_hop_stream};
use crate::header::keys::{
    route_keys, spec_blinding_factor, spec_exponent, spec_hop_secret, spec_key_schedule,
    spec_routing_keys, spec_shared_key, RoutingKeysView,
};
use crate::header::mac::spec_integrity_mac;
use crate::header::routing::{spec_layer, spec_unwrap, EncapsulatedView, ParsedView};
use crate::header::{
    spec_blind, spec_create, spec_header_from_bytes, spec_header_to_bytes, spec_payload_keys,
    spec_process, ProcessedView, SphinxHeader, SphinxHeaderView, SphinxUnwrapError,
};
use crate::route::{Destination, Node};
use crate::utils::{spec_xor, spec_zeros};
use crate::ProcessingError;

verus! {

/// XOR with the same byte twice gives the byte back, and XOR with zero
/// changes nothing.
pub proof fn lemma_xor_twice(a: u8, b: u8)
    ensures
        (a ^ b) ^ b == a,
        0u8 ^ b == b,
{
    assert((a ^ b) ^ b == a) by (bit_vector);
    assert(0u8 ^ b == b) by (bit_vector);
}

/// Reading the wire form of a header gives the header back.
pub proof fn lemma_header_round_trip(header: SphinxHeader)
    ensures
        spec_header_from_bytes(spec_header_to_bytes(header@)) == Ok::<
            SphinxHeaderView,
            ProcessingError,
        >(header@),
{
    let bytes = spec_header_to_bytes(header@);
    let read = spec_header_from_bytes(bytes).unwrap();
    assert(read.shared_secret =~= header@.shared_secret);
    assert(read.routing_info.mac =~= header@.routing_info.mac);
    assert(read.routing_info.enc =~= header@.routing_info.enc);
}

/// A header whose tag a hop accepts is rejected by that hop with an
/// integrity error once its tag is changed in any way.
pub proof fn lemma_changed_mac_is_rejected(
    header: SphinxHeaderView,
    changed: SphinxHeaderView,
    node_secret: Seq<u8>,
)
    requires
        spec_process(header, node_secret) != Err::<ProcessedView, SphinxUnwrapError>(
            SphinxUnwrapError::IntegrityMacError,
        ),
        changed.shared_secret == header.shared_secret,
        changed.routing_info.enc == header.routing_info.enc,
        changed.routing_info.mac != header.routing_info.mac,
    ensures
        spec_process(changed, node_secret) == Err::<ProcessedView, SphinxUnwrapError>(
            SphinxUnwrapError::IntegrityMacError,
        ),
{
}

/// A header whose tag a hop accepts is rejected by that hop with an
/// integrity error once its blob is changed, wherever the keyed hash tells
/// the changed blob from the one it was computed over.
pub proof fn lemma_changed_blob_is_rejected(
    header: SphinxHeaderView,
    changed: SphinxHeaderView,
    node_secret: Seq<u8>,
)
    requires
        spec_process(header, node_secret) != Err::<ProcessedView, SphinxUnwrapError>(
            SphinxUnwrapError::IntegrityMacError,
        ),
        changed.shared_secret == header.shared_secret,
        changed.routing_info.mac == header.routing_info.mac,
        ({
            let key = spec_routing_keys(
                spec_scalar_mul_point(node_secret, header.shared_secret),
            ).header_integrity_hmac_key;
            spec_integrity_mac(key, changed.routing_info.enc) != spec_integrity_mac(
                key,
                header.routing_info.enc,
            )
        }),
    ensures
        spec_process(changed, node_secret) == Err::<ProcessedView, SphinxUnwrapError>(
            SphinxUnwrapError::IntegrityMacError,
        ),
{
}

/// The routing information for hop `i` of a route is a blob of
/// `ENCRYPTED_ROUTING_INFO_SIZE` bytes that ends in the filler of the `i`
/// hops before it.
pub proof fn lemma_layer_ends_in_filler(
    route: Seq<Node>,
    delays: Seq<Delay>,
    destination: Destination,
    keys: Seq<RoutingKeysView>,
    i: nat,
)
    requires
        1 <= route.len() <= MAX_PATH_LENGTH,
        keys.len() == route.len(),
        i < route.len(),
    ensures
        ({
            let layer = spec_layer(
                route,
                delays,
                destination,
                keys,
                spec_filler(keys, (route.len() - 1) as nat),
                i,
            );
            &&& layer.enc.len() == ENCRYPTED_ROUTING_INFO_SIZE
            &&& layer.enc.subrange(
                ENCRYPTED_ROUTING_INFO_SIZE - i * FILLER_STEP_SIZE_INCREASE,
                ENCRYPTED_ROUTING_INFO_SIZE as int,
            ) == spec_filler(keys, i)
        }),
    decreases route.len() - i,
{
    let filler = spec_filler(keys, (route.len() - 1) as nat);
    lemma_filler_len(keys, (route.len() - 1) as nat);
    lemma_filler_len(keys, i);
    let layer = spec_layer(route, delays, destination, keys, filler, i);
    if i + 1 >= route.len() {
        assert(layer.enc.subrange(
            ENCRYPTED_ROUTING_INFO_SIZE - i * FILLER_STEP_SIZE_INCREASE,
            ENCRYPTED_ROUTING_INFO_SIZE as int,
        ) =~= filler);
    } else {
        lemma_layer_ends_in_filler(route, delays, destination, keys, i + 1);
        lemma_filler_len(keys, i + 1);
        let next = spec_layer(route, delays, destination, keys, filler, i + 1);
        let stream = spec_hop_stream(keys[i as int].stream_cipher_key);
        let raw = seq![FORWARD_HOP] + route[i as int + 1].address@ + delays[i as int]@ + next.mac
            + next.enc.subrange(0, ENCRYPTED_ROUTING_INFO_SIZE - FILLER_STEP_SIZE_INCREASE);
        assert(layer.enc == spec_xor(raw, stream));
        let before = spec_filler(keys, i);
        let after = spec_filler(keys, i + 1);
        let extended = before + spec_zeros(FILLER_STEP_SIZE_INCREASE as nat);
        let start = ENCRYPTED_ROUTING_INFO_SIZE - i * FILLER_STEP_SIZE_INCREASE;
        assert forall|k: int| 0 <= k < i * FILLER_STEP_SIZE_INCREASE implies layer.enc[start + k]
            == before[k] by {
            let p = start + k;
            assert(raw[p] == next.enc[p - FILLER_STEP_SIZE_INCREASE]);
            assert(next.enc[p - FILLER_STEP_SIZE_INCREASE] == next.enc.subrange(
                ENCRYPTED_ROUTING_INFO_SIZE - (i + 1) * FILLER_STEP_SIZE_INCREASE,
                ENCRYPTED_ROUTING_INFO_SIZE as int,
            )[k]);
            assert(after[k] == extended[k] ^ stream.subrange(
                STREAM_CIPHER_OUTPUT_LENGTH - extended.len(),
                STREAM_CIPHER_OUTPUT_LENGTH as int,
            )[k]);
            assert(extended[k] == before[k]);
            lemma_xor_twice(before[k], stream[p]);
        }
        assert(layer.enc.subrange(start, ENCRYPTED_ROUTING_INFO_SIZE as int) =~= before);
    }
}

/// A hop before the last that decrypts the routing information built for it,
/// with the stream-cipher key the sender used for it, reads the address of
/// the next hop, its own delay, and the routing information built for the
/// next hop.
pub proof fn lemma_forward_layer_unwraps(
    route: Seq<Node>,
    delays: Seq<Delay>,
    destination: Destination,
    keys: Seq<RoutingKeysView>,
    i: nat,
)
    requires
        2 <= route.len() <= MAX_PATH_LENGTH,
        delays.len() == route.len(),
        keys.len() == route.len(),
        i + 1 < route.len(),
    ensures
        ({
            let filler = spec_filler(keys, (route.len() - 1) as nat);
            spec_unwrap(
                spec_layer(route, delays, destination, keys, filler, i).enc,
                keys[i as int].stream_cipher_key,
            ) == Ok::<ParsedView, SphinxUnwrapError>(
                ParsedView::Forward {
                    address: route[i as int + 1].address@,
                    delay: delays[i as int]@,
                    next: spec_layer(route, delays, destination, keys, filler, i + 1),
                },
            )
        }),
{
    let filler = spec_filler(keys, (route.len() - 1) as nat);
    let layer = spec_layer(route, delays, destination, keys, filler, i);
    let next = spec_layer(route, delays, destination, keys, filler, i + 1);
    lemma_layer_ends_in_filler(route, delays, destination, keys, i);
    lemma_layer_ends_in_filler(route, delays, destination, keys, i + 1);
    lemma_filler_len(keys, i);
    lemma_filler_len(keys, i + 1);
    let stream = spec_hop_stream(keys[i as int].stream_cipher_key);
    let raw = seq![FORWARD_HOP] + route[i as int + 1].address@ + delays[i as int]@ + next.mac
        + next.enc.subrange(0, ENCRYPTED_ROUTING_INFO_SIZE - FILLER_STEP_SIZE_INCREASE);
    assert(layer.enc == spec_xor(raw, stream));
    let plain = spec_xor(layer.enc + spec_zeros(FILLER_STEP_SIZE_INCREASE as nat), stream);
    assert forall|p: int| 0 <= p < ENCRYPTED_ROUTING_INFO_SIZE implies plain[p] == raw[p] by {
        lemma_xor_twice(raw[p], stream[p]);
    }
    assert forall|p: int|
        ENCRYPTED_ROUTING_INFO_SIZE <= p < STREAM_CIPHER_OUTPUT_LENGTH implies plain[p]
        == stream[p] by {
        lemma_xor_twice(0u8, stream[p]);
    }
    let after = spec_filler(keys, i + 1);
    let extended = spec_filler(keys, i) + spec_zeros(FILLER_STEP_SIZE_INCREASE as nat);
    let tail_start = ENCRYPTED_ROUTING_INFO_SIZE - (i + 1) * FILLER_STEP_SIZE_INCREASE;
    assert forall|q: int|
        ENCRYPTED_ROUTING_INFO_SIZE - FILLER_STEP_SIZE_INCREASE <= q
            < ENCRYPTED_ROUTING_INFO_SIZE implies #[trigger] next.enc[q] == stream[q
        + FILLER_STEP_SIZE_INCREASE] by {
        let k = q - tail_start;
        assert(next.enc.subrange(tail_start, ENCRYPTED_ROUTING_INFO_SIZE as int)[k]
            == next.enc[tail_start + k]);
        assert(after[k] == extended[k] ^ stream.subrange(
            STREAM_CIPHER_OUTPUT_LENGTH - extended.len(),
            STREAM_CIPHER_OUTPUT_LENGTH as int,
        )[k]);
        assert(extended[k] == 0u8);
        lemma_xor_twice(0u8, stream[q + FILLER_STEP_SIZE_INCREASE]);
    }
    assert(plain[0] == FORWARD_HOP);
    assert(plain.subrange(1, 33) =~= route[i as int + 1].address@);
    assert(plain.subrange(33, 41) =~= delays[i as int]@);
    assert(plain.subrange(41, 57) =~= next.mac);
    assert(plain.subrange(57, 342) =~= next.enc);
}

/// The last hop that decrypts the routing information built for it, with
/// the stream-cipher key the sender used for it, reads the destination.
pub proof fn lemma_final_layer_unwraps(
    route: Seq<Node>,
    delays: Seq<Delay>,
    destination: Destination,
    keys: Seq<RoutingKeysView>,
)
    requires
        1 <= route.len() <= MAX_PATH_LENGTH,
        keys.len() == route.len(),
    ensures
        ({
            let last = (route.len() - 1) as nat;
            spec_unwrap(
                spec_layer(route, delays, destination, keys, spec_filler(keys, last), last).enc,
                keys[last as int].stream_cipher_key,
            ) == Ok::<ParsedView, SphinxUnwrapError>(
                ParsedView::Final {
                    address: destination.address@,
                    identifier: destination.identifier@,
                },
            )
        }),
{
    let last = (route.len() - 1) as nat;
    let filler = spec_filler(keys, last);
    lemma_filler_len(keys, last);
    let layer = spec_layer(route, delays, destination, keys, filler, last);
    lemma_layer_ends_in_filler(route, delays, destination, keys, last);
    let stream = spec_hop_stream(keys[last as int].stream_cipher_key);
    let meta = seq![FINAL_HOP] + destination.address@ + destination.identifier@;
    let padded = meta + spec_zeros(
        (ENCRYPTED_ROUTING_INFO_SIZE - filler.len() - FINAL_NODE_META_INFO_LENGTH) as nat,
    );
    assert(layer.enc == spec_xor(padded, stream) + filler);
    let plain = spec_xor(layer.enc + spec_zeros(FILLER_STEP_SIZE_INCREASE as nat), stream);
    assert forall|p: int| 0 <= p < meta.len() implies plain[p] == meta[p] by {
        assert(layer.enc[p] == padded[p] ^ stream[p]);
        assert(padded[p] == meta[p]);
        lemma_xor_twice(meta[p], stream[p]);
    }
    assert(plain[0] == FINAL_HOP);
    assert(plain.subrange(1, 33) =~= destination.address@);
    assert(plain.subrange(33, 41) =~= destination.identifier@);
}

/// The header that hop `i` (counted from 0) of a route receives when every
/// hop before it has done its part.
pub open spec fn spec_header_at(
    route: Seq<Node>,
    delays: Seq<Delay>,
    destination: Destination,
    initial_secret: Seq<u8>,
    i: nat,
) -> SphinxHeaderView {
    let keys = spec_key_schedule(route_keys(route), initial_secret);
    SphinxHeaderView {
        shared_secret: spec_hop_secret(route_keys(route), initial_secret, i),
        routing_info: spec_layer(
            route,
            delays,
            destination,
            keys,
            spec_filler(keys, (route.len() - 1) as nat),
            i,
        ),
    }
}

/// The exchange of the holder of `node_secret` on the group element of hop
/// `i` gives the key that the sender computed for that hop. The arithmetic
/// of the group makes this true of the secret behind the public key of
/// node `i`.
pub open spec fn exchange_agrees(
    route: Seq<Node>,
    initial_secret: Seq<u8>,
    i: nat,
    node_secret: Seq<u8>,
) -> bool {
    spec_scalar_mul_point(node_secret, spec_hop_secret(route_keys(route), initial_secret, i))
        == spec_shared_key(route_keys(route), initial_secret, i)
}

/// Blinding the group element of hop `i` gives the group element that the
/// sender computed for hop `i + 1`. The arithmetic of the group makes this
/// true.
pub open spec fn blinding_agrees(route: Seq<Node>, initial_secret: Seq<u8>, i: nat) -> bool {
    spec_blind(
        spec_hop_secret(route_keys(route), initial_secret, i),
        spec_shared_key(route_keys(route), initial_secret, i),
    ) == spec_hop_secret(route_keys(route), initial_secret, i + 1)
}

/// A hop before the last whose exchange and blinding agree with the sender's
/// accepts the header it receives, and gets from it the header the next hop
/// receives, the address of the next hop, its own delay, and the payload
/// key the sender holds for it.
pub proof fn lemma_hop_forwards(
    route: Seq<Node>,
    delays: Seq<Delay>,
    destination: Destination,
    initial_secret: Seq<u8>,
    i: nat,
    node_secret: Seq<u8>,
)
    requires
        2 <= route.len() <= MAX_PATH_LENGTH,
        delays.len() == route.len(),
        i + 1 < route.len(),
        exchange_agrees(route, initial_secret, i, node_secret),
        blinding_agrees(route, initial_secret, i),
    ensures
        spec_process(
            spec_header_at(route, delays, destination, initial_secret, i),
            node_secret,
        ) == Ok::<ProcessedView, SphinxUnwrapError>(
            ProcessedView::Forward {
                header: spec_header_at(route, delays, destination, initial_secret, i + 1),
                address: route[i as int + 1].address@,
                delay: delays[i as int]@,
                payload_key: spec_payload_keys(route, initial_secret)[i as int],
            },
        ),
{
    let keys = spec_key_schedule(route_keys(route), initial_secret);
    lemma_forward_layer_unwraps(route, delays, destination, keys, i);
}

/// The last hop, where its exchange agrees with the sender's, accepts the
/// header it receives, and gets from it the destination, the identifier and
/// the payload key the sender holds for it.
pub proof fn lemma_last_hop_delivers(
    route: Seq<Node>,
    delays: Seq<Delay>,
    destination: Destination,
    initial_secret: Seq<u8>,
    node_secret: Seq<u8>,
)
    requires
        1 <= route.len() <= MAX_PATH_LENGTH,
        exchange_agrees(route, initial_secret, (route.len() - 1) as nat, node_secret),
    ensures
        spec_process(
            spec_header_at(
                route,
                delays,
                destination,
                initial_secret,
                (route.len() - 1) as nat,
            ),
            node_secret,
        ) == Ok::<ProcessedView, SphinxUnwrapError>(
            ProcessedView::Final {
                address: destination.address@,
                identifier: destination.identifier@,
                payload_key: spec_payload_keys(route, initial_secret)[route.len() - 1],
            },
        ),
{
    let keys = spec_key_schedule(route_keys(route), initial_secret);
    lemma_final_layer_unwraps(route, delays, destination, keys);
}

/// The two identities of the group that sender and hops rely on: an exchange
/// gives both sides the same point, and multiplying a multiple of the base
/// point by a scalar gives the base point times the product of the two
/// scalars.
pub open spec fn group_laws_hold() -> bool {
    &&& forall|a: Seq<u8>, b: Seq<u8>| #[trigger]
        spec_scalar_mul_point(a, spec_scalar_mul_base(b)) == spec_scalar_mul_point(
            b,
            spec_scalar_mul_base(a),
        )
    &&& forall|a: Seq<u8>, b: Seq<u8>|
        spec_scalar_mul_point(b, spec_scalar_mul_base(a)) == spec_scalar_mul_base(
            #[trigger] spec_scalar_product(a, b),
        )
}

/// Whether `secrets` are the secrets behind the public keys of `route`.
pub open spec fn secrets_of(route: Seq<Node>, secrets: Seq<Seq<u8>>) -> bool {
    &&& secrets.len() == route.len()
    &&& forall|i: int|
        0 <= i < route.len() ==> (#[trigger] route[i]).pub_key@ == spec_scalar_mul_base(secrets[i])
}

/// Under the identities of the group, the holder of the secret behind the
/// public key of node `i` computes the key the sender computed for it, and
/// blinds the group element into the one the sender computed for the next
/// hop.
pub proof fn lemma_key_holder_agrees(
    route: Seq<Node>,
    initial_secret: Seq<u8>,
    i: nat,
    node_secret: Seq<u8>,
)
    requires
        group_laws_hold(),
        i < route.len(),
        route[i as int].pub_key@ == spec_scalar_mul_base(node_secret),
    ensures
        exchange_agrees(route, initial_secret, i, node_secret),
        blinding_agrees(route, initial_secret, i),
{
    let keys = route_keys(route);
    let exponent = spec_exponent(keys, initial_secret, i);
    let element = spec_scalar_mul_base(exponent);
    assert(keys[i as int] == route[i as int].pub_key@);
    assert(spec_scalar_mul_point(node_secret, spec_scalar_mul_base(exponent))
        == spec_scalar_mul_point(exponent, spec_scalar_mul_base(node_secret)));
    let shared_key = spec_shared_key(keys, initial_secret, i);
    let factor = spec_blinding_factor(element, shared_key);
    assert(spec_scalar_mul_point(factor, spec_scalar_mul_base(exponent)) == spec_scalar_mul_base(
        spec_scalar_product(exponent, factor),
    ));
    assert(spec_exponent(keys, initial_secret, i + 1) == spec_scalar_product(exponent, factor));
}

/// Under the identities of the group, a header built for a route is walked
/// by the holders of the nodes' secrets in route order: every hop before the
/// last accepts the header it receives and gets from it the header for the
/// next hop, that hop's address, its own delay and its payload key; the last
/// hop gets the destination, the identifier and its payload key. The payload
/// keys are the ones the sender was given.
pub proof fn lemma_route_is_walked(
    route: Seq<Node>,
    delays: Seq<Delay>,
    destination: Destination,
    initial_secret: Seq<u8>,
    secrets: Seq<Seq<u8>>,
)
    requires
        2 <= route.len() <= MAX_PATH_LENGTH,
        delays.len() == route.len(),
        secrets_of(route, secrets),
        group_laws_hold(),
    ensures
        spec_header_at(route, delays, destination, initial_secret, 0) == spec_create(
            route,
            delays,
            destination,
            initial_secret,
        ),
        forall|i: nat|
            i + 1 < route.len() ==> #[trigger] spec_process(
                spec_header_at(route, delays, destination, initial_secret, i),
                secrets[i as int],
            ) == Ok::<ProcessedView, SphinxUnwrapError>(
                ProcessedView::Forward {
                    header: spec_header_at(route, delays, destination, initial_secret, i + 1),
                    address: route[i as int + 1].address@,
                    delay: delays[i as int]@,
                    payload_key: spec_payload_keys(route, initial_secret)[i as int],
                },
            ),
        spec_process(
            spec_header_at(
                route,
                delays,
                destination,
                initial_secret,
                (route.len() - 1) as nat,
            ),
            secrets[route.len() - 1],
        ) == Ok::<ProcessedView, SphinxUnwrapError>(
            ProcessedView::Final {
                address: destination.address@,
                identifier: destination.identifier@,
                payload_key: spec_payload_keys(route, initial_secret)[route.len() - 1],
            },
        ),
{
    assert forall|i: nat| i + 1 < route.len() implies #[trigger] spec_process(
        spec_header_at(route, delays, destination, initial_secret, i),
        secrets[i as int],
    ) == Ok::<ProcessedView, SphinxUnwrapError>(
        ProcessedView::Forward {
            header: spec_header_at(route, delays, destination, initial_secret, i + 1),
            address: route[i as int + 1].address@,
            delay: delays[i as int]@,
            payload_key: spec_payload_keys(route, initial_secret)[i as int],
        },
    ) by {
        assert(route[i as int].pub_key@ == spec_scalar_mul_base(secrets[i as int]));
        lemma_key_holder_agrees(route, initial_secret, i, secrets[i as int]);
        lemma_hop_forwards(route, delays, destination, initial_secret, i, secrets[i as int]);
    }
    let last = (route.len() - 1) as nat;
    assert(route[last as int].pub_key@ == spec_scalar_mul_base(secrets[last as int]));
    lemma_key_holder_agrees(route, initial_secret, last, secrets[last as int]);
    lemma_last_hop_delivers(route, delays, destination, initial_secret, secrets[last as int]);
}

} // verus!
