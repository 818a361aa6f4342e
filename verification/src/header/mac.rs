//! The integrity tag over an encrypted routing blob.
use vstd::prelude::*;
use crate::constants::{HEADER_INTEGRITY_MAC_SIZE, INTEGRITY_MAC_KEY_SIZE};
use crate::crypto::{compute_keyed_hmac, spec_keyed_hmac};
use crate::utils::{constant_time_eq, subrange, to_array};

verus! {

pub type HeaderIntegrityMacKey = [u8; INTEGRITY_MAC_KEY_SIZE];

/// The tag of `data` under `key`: the keyed hash, cut to
/// `HEADER_INTEGRITY_MAC_SIZE` bytes.
pub open spec fn spec_integrity_mac(key: Seq<u8>, data: Seq<u8>) -> Seq<u8> {
    Seq::new(HEADER_INTEGRITY_MAC_SIZE as nat, |i: int| spec_keyed_hmac(key, data)[i])
}

#[derive(Clone, Copy, Debug, PartialEq, Eq)]
pub struct HeaderIntegrityMac {
    pub value: [u8; HEADER_INTEGRITY_MAC_SIZE],
}

impl View for HeaderIntegrityMac {
    type V = Seq<u8>;

    open spec fn view(&self) -> Seq<u8> {
        self.value@
    }
}

impl HeaderIntegrityMac {
    /// The tag of `header_data` under `key`.
    pub fn compute(key: HeaderIntegrityMacKey, header_data: &[u8]) -> (mac: Self)
        ensures
            mac@ == spec_integrity_mac(key@, header_data@),
    {
        let full = compute_keyed_hmac(key.as_slice(), header_data);
        let cut = subrange(full.as_slice(), 0, HEADER_INTEGRITY_MAC_SIZE);
        assert(cut@ =~= spec_integrity_mac(key@, header_data@));
        HeaderIntegrityMac { value: to_array(cut.as_slice()) }
    }

    /// Whether this is the tag of `header_data` under `key`. The comparison
    /// takes the same time whether or not the tags agree.
    pub fn verify(&self, key: HeaderIntegrityMacKey, header_data: &[u8]) -> (valid: bool)
        ensures
            valid == (self@ == spec_integrity_mac(key@, header_data@)),
    {
        let expected = Self::compute(key, header_data);
        constant_time_eq(self.value.as_slice(), expected.value.as_slice())
    }

    pub fn get_value(self) -> (bytes: [u8; HEADER_INTEGRITY_MAC_SIZE])
        ensures
            bytes == self.value,
    {
        self.value
    }

    pub fn from_bytes(bytes: [u8; HEADER_INTEGRITY_MAC_SIZE]) -> (mac: Self)
        ensures
            mac.value == bytes,
    {
        HeaderIntegrityMac { value: bytes }
    }
}

} // verus!
