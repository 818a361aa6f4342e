use sphinx::constants::{DESTINATION_ADDRESS_LENGTH, IDENTIFIER_LENGTH, NODE_ADDRESS_LENGTH};
use sphinx::crypto::{
    compute_keyed_hmac, generate_pseudorandom_bytes, generate_random_curve_point, generate_secret,
    keygen, keygen_from, public_half, public_key,
};
use sphinx::header::keys::KeyMaterial;
use sphinx::route::{
    destination_address_fixture, node_address_fixture, random_node, random_node_from,
    surb_identifier_fixture,
    DestinationAddressBytes, Node, NodeAddressBytes,
};
use sphinx::utils::{append, append_zeros, constant_time_eq, subrange, to_array, xor};

#[test]
fn it_is_possible_to_encode_and_decode_address() {
    let dummy_address = NodeAddressBytes([42u8; 32]);
    let dummy_address_str = dummy_address.to_base58_string();
    let recovered = NodeAddressBytes::from_base58_string(dummy_address_str);
    assert_eq!(dummy_address, recovered)
}

#[test]
fn destination_address_survives_base58() {
    let address = DestinationAddressBytes([42u8; 32]);
    let text = address.to_base58_string();
    assert_eq!(DestinationAddressBytes::from_base58_string(text.clone()), address);
    assert_eq!(DestinationAddressBytes::try_from_base58_string(text), Some(address));
}

#[test]
fn base58_of_zero_bytes_is_all_ones() {
    let text = node_address_fixture().to_base58_string();
    assert_eq!(text, "1".repeat(32));
    assert_eq!(destination_address_fixture().to_base58_string(), "1".repeat(32));
}

#[test]
fn text_that_is_no_address_gives_none() {
    assert_eq!(NodeAddressBytes::try_from_base58_string(String::from("he11owor1d")), None);
    assert_eq!(NodeAddressBytes::try_from_base58_string(String::from("0OIl")), None);
    assert_eq!(NodeAddressBytes::try_from_base58_string(String::new()), None);
    assert_eq!(DestinationAddressBytes::try_from_base58_string(String::from("he11owor1d")), None);
    assert_eq!(DestinationAddressBytes::try_from_base58_string(String::from("not base58!")), None);
    let text = NodeAddressBytes([9u8; 32]).to_base58_string();
    assert_eq!(
        NodeAddressBytes::try_from_base58_string(text),
        Some(NodeAddressBytes([9u8; 32]))
    );
}

#[test]
fn addresses_give_back_their_bytes() {
    let node = NodeAddressBytes::from_bytes([6u8; NODE_ADDRESS_LENGTH]);
    assert_eq!(node.as_bytes(), &[6u8; NODE_ADDRESS_LENGTH]);
    assert_eq!(node.to_bytes(), [6u8; NODE_ADDRESS_LENGTH]);
    let destination = DestinationAddressBytes::from_bytes([8u8; DESTINATION_ADDRESS_LENGTH]);
    assert_eq!(destination.as_bytes(), &[8u8; DESTINATION_ADDRESS_LENGTH]);
    assert_eq!(destination.to_bytes(), [8u8; DESTINATION_ADDRESS_LENGTH]);
}

#[test]
fn fixtures_have_their_fixed_bytes() {
    assert_eq!(destination_address_fixture().to_bytes(), [0u8; DESTINATION_ADDRESS_LENGTH]);
    assert_eq!(node_address_fixture().to_bytes(), [0u8; NODE_ADDRESS_LENGTH]);
    assert_eq!(surb_identifier_fixture(), [0u8; IDENTIFIER_LENGTH]);
    let node = random_node().unwrap();
    assert_eq!(node.address.to_bytes(), [2u8; NODE_ADDRESS_LENGTH]);
    let other = random_node().unwrap();
    assert_ne!(node.pub_key, other.pub_key);
    let made = Node::new(node.address, node.pub_key);
    assert_eq!(made, node);
}

#[test]
fn base_point_times_one_is_the_base_point() {
    let mut one = [0u8; 32];
    one[0] = 1;
    let mut base = [0u8; 32];
    base[0] = 9;
    assert_eq!(public_key(&one), base);
    let mut two = [0u8; 32];
    two[0] = 2;
    assert_ne!(public_key(&two), two);
    assert_eq!(KeyMaterial::compute_shared_key(base, &two), public_key(&two));
}

#[test]
fn both_sides_compute_the_same_shared_key() {
    let (a_secret, a_public) = keygen().unwrap();
    let (b_secret, b_public) = keygen().unwrap();
    assert_ne!(a_secret, b_secret);
    assert_eq!(public_key(&a_secret), a_public);
    assert_eq!(
        KeyMaterial::compute_shared_key(b_public, &a_secret),
        KeyMaterial::compute_shared_key(a_public, &b_secret)
    );
    assert_ne!(KeyMaterial::compute_shared_key(b_public, &a_secret), b_public);
}

#[test]
fn key_pair_is_made_from_what_was_drawn() {
    assert_eq!(keygen_from(None), None);
    let mut three = [0u8; 32];
    three[0] = 3;
    assert_eq!(keygen_from(Some(three)), Some((three, public_key(&three))));
    assert_ne!(generate_secret().unwrap(), generate_secret().unwrap());
}

#[test]
fn keyed_hmac_matches_the_published_vector() {
    let tag = compute_keyed_hmac(b"Jefe", b"what do ya want for nothing?");
    let expected: [u8; 32] = [
        0x5b, 0xdc, 0xc1, 0x46, 0xbf, 0x60, 0x75, 0x4e, 0x6a, 0x04, 0x24, 0x26, 0x08, 0x95, 0x75,
        0xc7, 0x5a, 0x00, 0x3f, 0x08, 0x9d, 0x27, 0x39, 0x83, 0x9d, 0xec, 0x58, 0xb9, 0x64, 0xec,
        0x38, 0x43,
    ];
    assert_eq!(tag, expected);
}

#[test]
fn key_stream_starts_with_the_cipher_of_the_zero_block() {
    let stream = generate_pseudorandom_bytes(&[0u8; 16], &[0u8; 16], 40);
    let expected: [u8; 16] = [
        0x66, 0xe9, 0x4b, 0xd4, 0xef, 0x8a, 0x2c, 0x3b, 0x88, 0x4c, 0xfa, 0x59, 0xca, 0x34, 0x2b,
        0x2e,
    ];
    assert_eq!(stream.len(), 40);
    assert_eq!(&stream[..16], &expected);
    let shorter = generate_pseudorandom_bytes(&[0u8; 16], &[0u8; 16], 7);
    assert_eq!(&shorter[..], &expected[..7]);
}

#[test]
fn xor_is_taken_byte_by_byte() {
    assert_eq!(xor(&[0x0f, 0xf0, 0xff], &[0xff, 0xff, 0x0f]), vec![0xf0, 0x0f, 0xf0]);
    assert_eq!(xor(&[1, 2], &[3, 4, 5]), vec![2, 6]);
    assert_eq!(xor(&[], &[]), Vec::<u8>::new());
}

#[test]
fn byte_helpers_cut_and_join() {
    assert_eq!(subrange(&[1, 2, 3, 4], 1, 3), vec![2, 3]);
    assert_eq!(subrange(&[1, 2, 3, 4], 2, 2), Vec::<u8>::new());
    let mut buf = vec![1u8];
    append(&mut buf, &[2, 3]);
    append_zeros(&mut buf, 2);
    assert_eq!(buf, vec![1, 2, 3, 0, 0]);
    let array: [u8; 3] = to_array(&[7, 8, 9]);
    assert_eq!(array, [7, 8, 9]);
}

#[test]
fn equality_in_constant_time_agrees_with_equality() {
    assert!(constant_time_eq(&[1, 2, 3], &[1, 2, 3]));
    assert!(!constant_time_eq(&[1, 2, 3], &[1, 2, 4]));
    assert!(!constant_time_eq(&[0, 2, 3], &[1, 2, 3]));
    assert!(constant_time_eq(&[], &[]));
}

#[test]
fn random_point_and_node_are_made_from_what_was_drawn() {
    let mut three = [0u8; 32];
    three[0] = 3;
    let key = public_key(&three);
    assert_eq!(public_half(None), None);
    assert_eq!(public_half(Some((three, key))), Some(key));
    assert_eq!(random_node_from(None), None);
    assert_eq!(
        random_node_from(Some(key)),
        Some(Node::new(NodeAddressBytes::from_bytes([2u8; NODE_ADDRESS_LENGTH]), key))
    );
    assert_ne!(generate_random_curve_point().unwrap(), generate_random_curve_point().unwrap());
}
