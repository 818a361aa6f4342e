use sphinx::constants::{
    DELAY_LENGTH, DESTINATION_ADDRESS_LENGTH, ENCRYPTED_ROUTING_INFO_SIZE, FILLER_STEP_SIZE_INCREASE,
    FINAL_HOP, FORWARD_HOP, HEADER_INTEGRITY_MAC_SIZE, HEADER_SIZE, IDENTIFIER_LENGTH,
    MAX_PATH_LENGTH, NODE_ADDRESS_LENGTH, NODE_META_INFO_SIZE, PAYLOAD_KEY_SIZE,
    STREAM_CIPHER_INIT_VECTOR, STREAM_CIPHER_KEY_SIZE, STREAM_CIPHER_OUTPUT_LENGTH,
};
use sphinx::crypto::{
    generate_pseudorandom_bytes, generate_random_curve_point, keygen, public_key, Scalar,
};
use sphinx::header::delays::Delay;
use sphinx::header::filler::Filler;
use sphinx::header::keys::{KeyMaterial, RoutingKeys};
use sphinx::header::mac::HeaderIntegrityMac;
use sphinx::header::routing::{
    encapsulated_routing_information_fixture, EncapsulatedRoutingInformation,
    EncryptedRoutingInformation, ParsedRawRoutingInformation, RawRoutingInformation,
};
use sphinx::header::{ProcessedHeader, SphinxHeader, SphinxUnwrapError};
use sphinx::route::{destination_fixture, Destination, DestinationAddressBytes, Node, NodeAddressBytes};
use sphinx::utils::xor;
use sphinx::ProcessingError;

fn secret(seed: u8) -> Scalar {
    let mut bytes = [0u8; 32];
    for (i, b) in bytes.iter_mut().enumerate() {
        *b = seed.wrapping_mul(31).wrapping_add(i as u8 * 7);
    }
    bytes[31] &= 0x0f;
    bytes
}

fn delay(seed: u8) -> Delay {
    Delay::from_bytes([seed; DELAY_LENGTH])
}

fn fixed_route(len: usize) -> (Vec<Scalar>, Vec<Node>, Vec<Delay>) {
    let mut secrets = Vec::new();
    let mut route = Vec::new();
    let mut delays = Vec::new();
    for i in 0..len {
        let sk = secret(i as u8 + 1);
        secrets.push(sk);
        route.push(Node::new(
            NodeAddressBytes::from_bytes([10 + i as u8; NODE_ADDRESS_LENGTH]),
            public_key(&sk),
        ));
        delays.push(delay(100 + i as u8));
    }
    (secrets, route, delays)
}

fn walk_route(len: usize) {
    let (secrets, route, delays) = fixed_route(len);
    let destination = destination_fixture();
    let (mut header, payload_keys) = SphinxHeader::new(secret(77), &route, &delays, &destination);
    assert_eq!(payload_keys.len(), len);
    for i in 0..len - 1 {
        assert_eq!(header.to_bytes().len(), HEADER_SIZE);
        match header.process(secrets[i]).unwrap() {
            ProcessedHeader::ProcessedHeaderForwardHop(next, address, hop_delay, payload_key) => {
                assert_eq!(address, route[i + 1].address);
                assert_eq!(hop_delay, delays[i]);
                assert_eq!(payload_key, payload_keys[i]);
                header = next;
            }
            _ => panic!(),
        }
    }
    match header.process(secrets[len - 1]).unwrap() {
        ProcessedHeader::ProcessedHeaderFinalHop(address, identifier, payload_key) => {
            assert_eq!(address, destination.address);
            assert_eq!(identifier, destination.identifier);
            assert_eq!(payload_key, payload_keys[len - 1]);
        }
        _ => panic!(),
    }
}

#[test]
fn it_returns_correct_routing_information_at_each_hop_for_route_of_3_mixnodes() {
    let (node1_sk, node1_pk) = keygen().unwrap();
    let node1 = Node {
        address: NodeAddressBytes::from_bytes([5u8; NODE_ADDRESS_LENGTH]),
        pub_key: node1_pk,
    };
    let (node2_sk, node2_pk) = keygen().unwrap();
    let node2 = Node {
        address: NodeAddressBytes::from_bytes([4u8; NODE_ADDRESS_LENGTH]),
        pub_key: node2_pk,
    };
    let (node3_sk, node3_pk) = keygen().unwrap();
    let node3 = Node {
        address: NodeAddressBytes::from_bytes([2u8; NODE_ADDRESS_LENGTH]),
        pub_key: node3_pk,
    };
    let route = [node1, node2, node3];
    let destination = destination_fixture();
    let initial_secret = sphinx::crypto::generate_secret().unwrap();
    let delays = [delay(1), delay(2), delay(3)];
    let (sphinx_header, _) = SphinxHeader::new(initial_secret, &route, &delays, &destination);

    let new_header = match sphinx_header.process(node1_sk).unwrap() {
        ProcessedHeader::ProcessedHeaderForwardHop(new_header, next_hop_address, delay, _) => {
            assert_eq!([4u8; NODE_ADDRESS_LENGTH], next_hop_address.to_bytes());
            assert_eq!(delays[0].to_bytes(), delay.to_bytes());
            new_header
        }
        _ => panic!(),
    };

    let new_header2 = match new_header.process(node2_sk).unwrap() {
        ProcessedHeader::ProcessedHeaderForwardHop(new_header, next_hop_address, delay, _) => {
            assert_eq!([2u8; NODE_ADDRESS_LENGTH], next_hop_address.to_bytes());
            assert_eq!(delays[1].to_bytes(), delay.to_bytes());
            new_header
        }
        _ => panic!(),
    };
    match new_header2.process(node3_sk).unwrap() {
        ProcessedHeader::ProcessedHeaderFinalHop(final_destination, identifier, _) => {
            assert_eq!(destination.address, final_destination);
            assert_eq!([3u8; DESTINATION_ADDRESS_LENGTH], final_destination.to_bytes());
            assert_eq!([4u8; IDENTIFIER_LENGTH], identifier);
        }
        _ => panic!(),
    };
}

#[test]
fn it_returns_correct_unwrapped_routing_information() {
    let mut routing_info = [9u8; ENCRYPTED_ROUTING_INFO_SIZE];
    routing_info[0] = FORWARD_HOP;
    let stream_cipher_key = [1u8; STREAM_CIPHER_KEY_SIZE];
    let pseudorandom_bytes = generate_pseudorandom_bytes(
        &stream_cipher_key,
        &STREAM_CIPHER_INIT_VECTOR,
        STREAM_CIPHER_OUTPUT_LENGTH,
    );
    let encrypted_routing_info_vec = xor(
        &routing_info,
        &pseudorandom_bytes[..ENCRYPTED_ROUTING_INFO_SIZE],
    );
    let mut encrypted_routing_info_array = [0u8; ENCRYPTED_ROUTING_INFO_SIZE];
    encrypted_routing_info_array.copy_from_slice(&encrypted_routing_info_vec);

    let enc_routing_info = EncryptedRoutingInformation::from_bytes(encrypted_routing_info_array);

    println!("{:?}", routing_info.len());
    println!("{:?}", pseudorandom_bytes.len());
    let expected_next_hop_encrypted_routing_information = [
        routing_info[NODE_META_INFO_SIZE + HEADER_INTEGRITY_MAC_SIZE..].to_vec(),
        pseudorandom_bytes
            [NODE_META_INFO_SIZE + HEADER_INTEGRITY_MAC_SIZE + ENCRYPTED_ROUTING_INFO_SIZE..]
            .to_vec(),
    ]
    .concat();
    let next_hop_encapsulated_routing_info =
        match SphinxHeader::unwrap_routing_information(enc_routing_info, stream_cipher_key)
            .unwrap()
        {
            ParsedRawRoutingInformation::ForwardHopRoutingInformation(
                next_hop_address,
                _delay,
                next_hop_encapsulated_routing_info,
            ) => {
                assert_eq!(routing_info[1..1 + NODE_ADDRESS_LENGTH], next_hop_address.to_bytes());
                assert_eq!(
                    routing_info
                        [NODE_ADDRESS_LENGTH..NODE_ADDRESS_LENGTH + HEADER_INTEGRITY_MAC_SIZE],
                    next_hop_encapsulated_routing_info.integrity_mac.get_value()
                );
                next_hop_encapsulated_routing_info
            }
            _ => panic!(),
        };

    let next_hop_encrypted_routing_information = next_hop_encapsulated_routing_info
        .enc_routing_information
        .get_value_ref();

    for i in 0..expected_next_hop_encrypted_routing_information.len() {
        assert_eq!(
            expected_next_hop_encrypted_routing_information[i],
            next_hop_encrypted_routing_information[i]
        );
    }
}

#[test]
fn it_is_possible_to_convert_back_and_forth() {
    let encapsulated_routing_info = encapsulated_routing_information_fixture();
    let header = SphinxHeader {
        shared_secret: generate_random_curve_point().unwrap(),
        routing_info: encapsulated_routing_info,
    };

    let header_bytes = header.to_bytes();
    let recovered_header = SphinxHeader::from_bytes(header_bytes).unwrap();

    assert_eq!(header.shared_secret, recovered_header.shared_secret);
    assert_eq!(
        header.routing_info.to_bytes(),
        recovered_header.routing_info.to_bytes()
    );
}

#[test]
fn header_bytes_are_point_then_mac_then_blob() {
    let header = SphinxHeader {
        shared_secret: [7u8; 32],
        routing_info: encapsulated_routing_information_fixture(),
    };
    let bytes = header.to_bytes();
    assert_eq!(bytes.len(), HEADER_SIZE);
    assert_eq!(HEADER_SIZE, 333);
    assert_eq!(&bytes[..32], &[7u8; 32]);
    assert_eq!(&bytes[32..48], &[1u8; HEADER_INTEGRITY_MAC_SIZE]);
    assert_eq!(&bytes[48..], &[5u8; ENCRYPTED_ROUTING_INFO_SIZE]);
    assert_eq!(SphinxHeader::from_bytes(bytes).unwrap(), header);
}

#[test]
fn from_bytes_rejects_every_other_length() {
    for len in [0usize, 1, 32, 48, HEADER_SIZE - 1, HEADER_SIZE + 1, 2 * HEADER_SIZE] {
        assert_eq!(
            SphinxHeader::from_bytes(vec![3u8; len]),
            Err(ProcessingError::InvalidHeaderLengthError)
        );
    }
    assert!(SphinxHeader::from_bytes(vec![3u8; HEADER_SIZE]).is_ok());
}

#[test]
fn routing_information_from_bytes_rejects_wrong_length() {
    assert_eq!(
        EncapsulatedRoutingInformation::from_bytes(vec![0u8; 300]),
        Err(ProcessingError::InvalidRoutingInformationLengthError)
    );
    let info = encapsulated_routing_information_fixture();
    assert_eq!(EncapsulatedRoutingInformation::from_bytes(info.to_bytes()), Ok(info));
}

#[test]
fn route_of_two_hops_is_walked() {
    walk_route(2);
}

#[test]
fn route_of_three_hops_is_walked() {
    walk_route(3);
}

#[test]
fn route_of_maximum_length_is_walked() {
    walk_route(MAX_PATH_LENGTH);
}

#[test]
fn header_size_does_not_depend_on_route_length() {
    for len in 2..=MAX_PATH_LENGTH {
        let (_, route, delays) = fixed_route(len);
        let (header, _) = SphinxHeader::new(secret(9), &route, &delays, &destination_fixture());
        assert_eq!(header.to_bytes().len(), HEADER_SIZE);
    }
}

#[test]
fn create_is_deterministic() {
    let (_, route, delays) = fixed_route(3);
    let destination = destination_fixture();
    let (a, keys_a) = SphinxHeader::new(secret(9), &route, &delays, &destination);
    let (b, keys_b) = SphinxHeader::new(secret(9), &route, &delays, &destination);
    assert_eq!(a, b);
    assert_eq!(keys_a, keys_b);
    let (c, _) = SphinxHeader::new(secret(10), &route, &delays, &destination);
    assert_ne!(a, c);
}

#[test]
fn header_carries_the_public_key_of_the_initial_secret() {
    let (_, route, delays) = fixed_route(2);
    let (header, _) = SphinxHeader::new(secret(9), &route, &delays, &destination_fixture());
    assert_eq!(header.shared_secret, public_key(&secret(9)));
}

#[test]
fn tampered_mac_is_rejected() {
    let (secrets, route, delays) = fixed_route(3);
    let (mut header, _) = SphinxHeader::new(secret(9), &route, &delays, &destination_fixture());
    header.routing_info.integrity_mac.value[0] ^= 1;
    assert!(matches!(
        header.process(secrets[0]),
        Err(SphinxUnwrapError::IntegrityMacError)
    ));
}

#[test]
fn tampered_blob_is_rejected() {
    let (secrets, route, delays) = fixed_route(3);
    let (mut header, _) = SphinxHeader::new(secret(9), &route, &delays, &destination_fixture());
    header.routing_info.enc_routing_information.value[200] ^= 0x80;
    assert!(matches!(
        header.process(secrets[0]),
        Err(SphinxUnwrapError::IntegrityMacError)
    ));
}

#[test]
fn wrong_key_is_rejected() {
    let (secrets, route, delays) = fixed_route(3);
    let (header, _) = SphinxHeader::new(secret(9), &route, &delays, &destination_fixture());
    assert!(matches!(
        header.process(secrets[1]),
        Err(SphinxUnwrapError::IntegrityMacError)
    ));
}

#[test]
fn header_read_from_the_wire_processes_like_the_one_in_memory() {
    let (secrets, route, delays) = fixed_route(3);
    let (header, _) = SphinxHeader::new(secret(9), &route, &delays, &destination_fixture());
    let recovered = SphinxHeader::from_bytes(header.to_bytes()).unwrap();
    assert_eq!(recovered, header);
    let direct = match header.process(secrets[0]).unwrap() {
        ProcessedHeader::ProcessedHeaderForwardHop(_, address, _, _) => address,
        _ => panic!(),
    };
    let through_wire = match recovered.process(secrets[0]).unwrap() {
        ProcessedHeader::ProcessedHeaderForwardHop(_, address, _, _) => address,
        _ => panic!(),
    };
    assert_eq!(direct, through_wire);
    assert_eq!(direct, route[1].address);
}

#[test]
fn unknown_flag_is_reported() {
    let key = [1u8; STREAM_CIPHER_KEY_SIZE];
    let stream =
        generate_pseudorandom_bytes(&key, &STREAM_CIPHER_INIT_VECTOR, STREAM_CIPHER_OUTPUT_LENGTH);
    let mut plain = [9u8; ENCRYPTED_ROUTING_INFO_SIZE];
    plain[0] = 0;
    let enc: [u8; ENCRYPTED_ROUTING_INFO_SIZE] = xor(&plain, &stream).try_into().unwrap();
    let outcome = SphinxHeader::unwrap_routing_information(
        EncryptedRoutingInformation::from_bytes(enc),
        key,
    );
    assert!(matches!(outcome, Err(SphinxUnwrapError::RoutingFlagNotRecognized)));
}

#[test]
fn final_flag_gives_destination_and_identifier() {
    let mut plain = vec![0u8; STREAM_CIPHER_OUTPUT_LENGTH];
    plain[0] = FINAL_HOP;
    for i in 1..STREAM_CIPHER_OUTPUT_LENGTH {
        plain[i] = i as u8;
    }
    match (RawRoutingInformation { value: plain.clone() }).parse().unwrap() {
        ParsedRawRoutingInformation::FinalHopRoutingInformation(address, identifier) => {
            assert_eq!(&address.to_bytes()[..], &plain[1..33]);
            assert_eq!(&identifier[..], &plain[33..41]);
        }
        _ => panic!(),
    }
}

#[test]
fn forward_flag_gives_address_delay_mac_and_blob() {
    let mut plain = vec![0u8; STREAM_CIPHER_OUTPUT_LENGTH];
    for i in 0..STREAM_CIPHER_OUTPUT_LENGTH {
        plain[i] = (i % 251) as u8;
    }
    plain[0] = FORWARD_HOP;
    match (RawRoutingInformation { value: plain.clone() }).parse().unwrap() {
        ParsedRawRoutingInformation::ForwardHopRoutingInformation(address, delay, next) => {
            assert_eq!(&address.to_bytes()[..], &plain[1..33]);
            assert_eq!(&delay.to_bytes()[..], &plain[33..41]);
            assert_eq!(&next.integrity_mac.get_value()[..], &plain[41..57]);
            assert_eq!(next.enc_routing_information.get_value_ref(), &plain[57..342]);
        }
        _ => panic!(),
    }
}

#[test]
fn layer_of_wrong_size_is_a_processing_error() {
    let outcome = (RawRoutingInformation { value: vec![FORWARD_HOP; 100] }).parse();
    assert!(matches!(outcome, Err(SphinxUnwrapError::ProcessingHeaderError)));
    let outcome = (RawRoutingInformation { value: Vec::new() }).parse();
    assert!(matches!(outcome, Err(SphinxUnwrapError::ProcessingHeaderError)));
}

#[test]
fn filler_grows_by_one_step_per_hop() {
    let keys: Vec<RoutingKeys> = (0..4u8).map(|i| RoutingKeys::derive([i; 32])).collect();
    assert_eq!(Filler::new(&keys[..0]).get_value().len(), 0);
    assert_eq!(Filler::new(&keys[..1]).get_value().len(), FILLER_STEP_SIZE_INCREASE);
    assert_eq!(Filler::new(&keys).get_value().len(), 4 * FILLER_STEP_SIZE_INCREASE);
    assert_eq!(FILLER_STEP_SIZE_INCREASE, 57);
    assert_eq!(Filler::from_raw(vec![1, 2, 3]).get_value(), vec![1, 2, 3]);
}

#[test]
fn first_filler_step_is_the_end_of_the_key_stream() {
    let keys = [RoutingKeys::derive([3u8; 32])];
    let stream = generate_pseudorandom_bytes(
        &keys[0].stream_cipher_key,
        &STREAM_CIPHER_INIT_VECTOR,
        STREAM_CIPHER_OUTPUT_LENGTH,
    );
    assert_eq!(Filler::new(&keys).get_value(), stream[ENCRYPTED_ROUTING_INFO_SIZE..].to_vec());
    let stepped = Filler::filler_step(vec![0xffu8; 57], 2, stream.clone());
    assert_eq!(stepped.len(), 114);
    assert_eq!(stepped[0], 0xff ^ stream[228]);
    assert_eq!(stepped[57], stream[285]);
}

#[test]
fn routing_keys_are_separated_by_label() {
    let keys = RoutingKeys::derive([3u8; 32]);
    assert_ne!(keys.stream_cipher_key, keys.header_integrity_hmac_key);
    assert_ne!(&keys.payload_key[..16], &keys.stream_cipher_key[..]);
    assert_ne!(&keys.payload_key[..16], &[3u8; 16][..]);
    assert_eq!(keys.payload_key.len(), PAYLOAD_KEY_SIZE);
    let again = RoutingKeys::derive([3u8; 32]);
    assert_eq!(keys.payload_key, again.payload_key);
    let other = RoutingKeys::derive([4u8; 32]);
    assert_ne!(keys.stream_cipher_key, other.stream_cipher_key);
}

#[test]
fn key_material_follows_the_route() {
    let (secrets, route, _) = fixed_route(3);
    let x0 = secret(50);
    let material = KeyMaterial::derive(&route, x0);
    assert_eq!(material.initial_shared_secret, public_key(&x0));
    assert_eq!(material.routing_keys.len(), 3);
    let first = KeyMaterial::compute_shared_key(material.initial_shared_secret, &secrets[0]);
    assert_eq!(
        RoutingKeys::derive(first).payload_key,
        material.routing_keys[0].payload_key
    );
}

#[test]
fn mac_verifies_only_its_own_data_and_key() {
    let key = [7u8; 16];
    let mac = HeaderIntegrityMac::compute(key, &[1, 2, 3]);
    assert!(mac.verify(key, &[1, 2, 3]));
    assert!(!mac.verify(key, &[1, 2, 4]));
    assert!(!mac.verify([8u8; 16], &[1, 2, 3]));
    assert_eq!(HeaderIntegrityMac::from_bytes(mac.get_value()), mac);
}

#[test]
fn destination_is_kept_as_given() {
    let destination = Destination::new(
        DestinationAddressBytes::from_bytes([3u8; DESTINATION_ADDRESS_LENGTH]),
        [4u8; IDENTIFIER_LENGTH],
    );
    assert_eq!(destination, destination_fixture());
    assert_eq!(IDENTIFIER_LENGTH, 8);
}
