//! The filler: the bytes that the hops of a route append, one step each, as
//! they peel their layers, computed ahead by the sender.
use vstd::prelude::*;
use crate::constants::{
    FILLER_STEP_SIZE_INCREASE, MAX_PATH_LENGTH, STREAM_CIPHER_INIT_VECTOR,
    STREAM_CIPHER_OUTPUT_LENGTH,
};
use crate::crypto::{generate_pseudorandom_bytes, spec_key_stream};
use crate::header::keys::{keys_view, RoutingKeys, RoutingKeysView, StreamCipherKey};
use crate::utils::{append_zeros, spec_xor, spec_zeros, subrange, xor};

verus! {

/// The key stream of a hop with stream-cipher key `key`:
/// `STREAM_CIPHER_OUTPUT_LENGTH` bytes.
pub open spec fn spec_hop_stream(key: Seq<u8>) -> Seq<u8> {
    Seq::new(
        STREAM_CIPHER_OUTPUT_LENGTH as nat,
        |i: int|
            spec_key_stream(
                key,
                STREAM_CIPHER_INIT_VECTOR@,
                STREAM_CIPHER_OUTPUT_LENGTH as nat,
            )[i],
    )
}

/// The key stream of a hop, drawn from the cipher.
pub fn hop_stream(key: &StreamCipherKey) -> (stream: Vec<u8>)
    ensures
        stream@ == spec_hop_stream(key@),
{
    let stream = generate_pseudorandom_bytes(
        key,
        &STREAM_CIPHER_INIT_VECTOR,
        STREAM_CIPHER_OUTPUT_LENGTH,
    );
    assert(stream@ =~= spec_hop_stream(key@));
    stream
}

/// One step: the filler so far, extended by a step of zeros, XORed with the
/// end of the hop's key stream.
pub open spec fn spec_filler_step(filler: Seq<u8>, stream: Seq<u8>) -> Seq<u8> {
    let extended = filler + spec_zeros(FILLER_STEP_SIZE_INCREASE as nat);
    spec_xor(
        extended,
        stream.subrange(
            STREAM_CIPHER_OUTPUT_LENGTH - extended.len(),
            STREAM_CIPHER_OUTPUT_LENGTH as int,
        ),
    )
}

/// The filler after the first `n` hops.
pub open spec fn spec_filler(keys: Seq<RoutingKeysView>, n: nat) -> Seq<u8>
    decreases n,
{
    if n == 0 {
        Seq::empty()
    } else {
        spec_filler_step(
            spec_filler(keys, (n - 1) as nat),
            spec_hop_stream(keys[n - 1].stream_cipher_key),
        )
    }
}

/// The length of a filler is one step per hop.
pub proof fn lemma_filler_len(keys: Seq<RoutingKeysView>, n: nat)
    ensures
        spec_filler(keys, n).len() == n * FILLER_STEP_SIZE_INCREASE,
    decreases n,
{
    if n > 0 {
        lemma_filler_len(keys, (n - 1) as nat);
        assert((n - 1) * FILLER_STEP_SIZE_INCREASE + FILLER_STEP_SIZE_INCREASE == n
            * FILLER_STEP_SIZE_INCREASE) by (nonlinear_arith);
    }
}

/// The filler after `n` hops depends on the keys of those hops only.
pub proof fn lemma_filler_prefix(a: Seq<RoutingKeysView>, b: Seq<RoutingKeysView>, n: nat)
    requires
        n <= a.len(),
        n <= b.len(),
        forall|j: int| 0 <= j < n ==> a[j] == b[j],
    ensures
        spec_filler(a, n) == spec_filler(b, n),
    decreases n,
{
    if n > 0 {
        lemma_filler_prefix(a, b, (n - 1) as nat);
    }
}

pub struct Filler {
    pub value: Vec<u8>,
}

impl View for Filler {
    type V = Seq<u8>;

    open spec fn view(&self) -> Seq<u8> {
        self.value@
    }
}

impl Filler {
    /// The filler for the hops with the given keys: all hops of a route but
    /// the last.
    pub fn new(routing_keys: &[RoutingKeys]) -> (filler: Self)
        requires
            routing_keys@.len() <= MAX_PATH_LENGTH,
        ensures
            filler@ == spec_filler(keys_view(routing_keys@), routing_keys@.len()),
            filler@.len() == routing_keys@.len() * FILLER_STEP_SIZE_INCREASE,
    {
        let ghost keys = keys_view(routing_keys@);
        let mut value: Vec<u8> = Vec::new();
        let mut i: usize = 0;
        while i < routing_keys.len()
            invariant
                i <= routing_keys@.len() <= MAX_PATH_LENGTH,
                keys == keys_view(routing_keys@),
                value@ == spec_filler(keys, i as nat),
                value@.len() == i * FILLER_STEP_SIZE_INCREASE,
            decreases routing_keys@.len() - i,
        {
            let stream = hop_stream(&routing_keys[i].stream_cipher_key);
            assert(keys[i as int] == routing_keys@[i as int]@);
            value = Self::filler_step(value, i + 1, stream);
            i += 1;
        }
        Filler { value }
    }

    /// Extends the filler of `i - 1` hops by the step of hop `i`, whose key
    /// stream is `pseudorandom_bytes`.
    pub fn filler_step(filler: Vec<u8>, i: usize, pseudorandom_bytes: Vec<u8>) -> (extended: Vec<u8>)
        requires
            1 <= i <= MAX_PATH_LENGTH,
            pseudorandom_bytes@.len() == STREAM_CIPHER_OUTPUT_LENGTH,
            filler@.len() == (i - 1) * FILLER_STEP_SIZE_INCREASE,
        ensures
            extended@ == spec_filler_step(filler@, pseudorandom_bytes@),
            extended@.len() == i * FILLER_STEP_SIZE_INCREASE,
    {
        let mut extended = filler;
        append_zeros(&mut extended, FILLER_STEP_SIZE_INCREASE);
        let tail = subrange(
            pseudorandom_bytes.as_slice(),
            STREAM_CIPHER_OUTPUT_LENGTH - i * FILLER_STEP_SIZE_INCREASE,
            STREAM_CIPHER_OUTPUT_LENGTH,
        );
        xor(extended.as_slice(), tail.as_slice())
    }

    pub fn get_value(self) -> (bytes: Vec<u8>)
        ensures
            bytes@ == self@,
    {
        self.value
    }

    pub fn from_raw(raw_value: Vec<u8>) -> (filler: Self)
        ensures
            filler@ == raw_value@,
    {
        Filler { value: raw_value }
    }
}

} // verus!
