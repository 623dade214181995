use cube_renderer::{Message, MessageError, MessagePool, Scalar, Serializable, Transform, Vec3};

fn s(x: f32) -> Scalar {
    Scalar::from_bits(x.to_bits())
}

fn v3(x: f32, y: f32, z: f32) -> Vec3 {
    Vec3::new(s(x), s(y), s(z))
}

fn floats(v: Vec3) -> (f32, f32, f32) {
    (f32::from_bits(v.x.bits), f32::from_bits(v.y.bits), f32::from_bits(v.z.bits))
}

#[test]
fn vector_is_twelve_bytes_least_significant_first() {
    let bytes = v3(1.0, 2.0, 3.0).to_bytes();
    assert_eq!(bytes, vec![0, 0, 0x80, 0x3f, 0, 0, 0, 0x40, 0, 0, 0x40, 0x40]);
    let mut expected = Vec::new();
    expected.extend_from_slice(&1.0f32.to_le_bytes());
    expected.extend_from_slice(&2.0f32.to_le_bytes());
    expected.extend_from_slice(&3.0f32.to_le_bytes());
    assert_eq!(bytes, expected);
    let odd = Vec3::new(Scalar::from_bits(0x0102_0304), Scalar::from_bits(0xfffe_fdfc), Scalar::from_bits(0));
    assert_eq!(odd.to_bytes(), vec![4, 3, 2, 1, 0xfc, 0xfd, 0xfe, 0xff, 0, 0, 0, 0]);
}

#[test]
fn vector_comes_back_bit_for_bit() {
    for v in [
        v3(1.0, 2.0, 3.0),
        v3(-0.0, f32::INFINITY, f32::MIN_POSITIVE),
        v3(f32::NAN, -1.5e-40, 3.4e38),
        Vec3::new(Scalar::from_bits(0xdead_beef), Scalar::from_bits(0x7fc0_0001), Scalar::from_bits(u32::MAX)),
    ] {
        assert_eq!(Vec3::from_bytes(&v.to_bytes()), Ok(v));
    }
    let back = Vec3::from_bytes(&[0, 0, 0x80, 0x3f, 0, 0, 0, 0x40, 0, 0, 0x40, 0x40]).unwrap();
    assert_eq!(floats(back), (1.0, 2.0, 3.0));
}

#[test]
fn vector_of_another_length_is_refused() {
    assert_eq!(Vec3::from_bytes(&[]), Err(MessageError::InvalidMessageLength));
    assert_eq!(Vec3::from_bytes(&[0; 11]), Err(MessageError::InvalidMessageLength));
    assert_eq!(Vec3::from_bytes(&[0; 13]), Err(MessageError::InvalidMessageLength));
}

#[test]
fn transform_is_type_kind_and_vector() {
    let vector = v3(1.0, 2.0, 3.0).to_bytes();
    for (transform, kind) in [
        (Transform::Rotate(v3(1.0, 2.0, 3.0)), 0u8),
        (Transform::Translate(v3(1.0, 2.0, 3.0)), 1),
        (Transform::Scale(v3(1.0, 2.0, 3.0)), 2),
    ] {
        let bytes = transform.to_bytes();
        assert_eq!(bytes.len(), 14);
        assert_eq!(&bytes[..2], &[2, kind]);
        assert_eq!(&bytes[2..], &vector[..]);
        assert_eq!(transform.vector(), v3(1.0, 2.0, 3.0));
    }
}

#[test]
fn transform_is_read_by_its_kind_byte() {
    let mut bytes = vec![2u8, 0];
    bytes.extend(v3(1.0, 2.0, 3.0).to_bytes());
    assert_eq!(Transform::from_bytes(&bytes), Ok(Transform::Rotate(v3(1.0, 2.0, 3.0))));
    bytes[1] = 1;
    assert_eq!(Transform::from_bytes(&bytes), Ok(Transform::Translate(v3(1.0, 2.0, 3.0))));
    bytes[1] = 2;
    assert_eq!(Transform::from_bytes(&bytes), Ok(Transform::Scale(v3(1.0, 2.0, 3.0))));
    bytes[1] = 3;
    assert_eq!(Transform::from_bytes(&bytes), Err(MessageError::InvalidTransformType));
    bytes[1] = 255;
    assert_eq!(Transform::from_bytes(&bytes), Err(MessageError::InvalidTransformType));
}

#[test]
fn transform_must_begin_with_the_type_of_a_change() {
    for first in [0u8, 1, 3, 77, 255] {
        let mut bytes = vec![first, 0];
        bytes.extend(v3(1.0, 2.0, 3.0).to_bytes());
        assert_eq!(Transform::from_bytes(&bytes), Err(MessageError::InvalidMessageType));
    }
    assert_eq!(Transform::from_bytes(&[0, 0]), Err(MessageError::InvalidMessageType));
    assert_eq!(Transform::from_bytes(&[1, 9, 9]), Err(MessageError::InvalidMessageType));
}

#[test]
fn transform_of_a_wrong_length_is_refused() {
    assert_eq!(Transform::from_bytes(&[]), Err(MessageError::InvalidMessageLength));
    assert_eq!(Transform::from_bytes(&[2]), Err(MessageError::InvalidMessageLength));
    assert_eq!(Transform::from_bytes(&[2, 0]), Err(MessageError::InvalidMessageLength));
    assert_eq!(Transform::from_bytes(&[2, 1, 0]), Err(MessageError::InvalidMessageLength));
    assert_eq!(Transform::from_bytes(&[2; 13]), Err(MessageError::InvalidMessageLength));
    assert_eq!(Transform::from_bytes(&[2; 15]), Err(MessageError::InvalidMessageLength));
    assert_eq!(Transform::from_bytes(&[2, 9, 0]), Err(MessageError::InvalidTransformType));
    let mut bytes = vec![2u8, 9];
    bytes.extend(v3(1.0, 2.0, 3.0).to_bytes());
    assert_eq!(Transform::from_bytes(&bytes), Err(MessageError::InvalidTransformType));
}

#[test]
fn rotation_comes_back_as_it_went() {
    let sent = Transform::Rotate(v3(1.0, 2.0, 3.0));
    let back = Transform::from_bytes(&sent.to_bytes()).unwrap();
    assert_eq!(back, Transform::Rotate(v3(1.0, 2.0, 3.0)));
    assert_eq!(floats(back.vector()), (1.0, 2.0, 3.0));
    let message = Message::Transform(sent);
    let bytes = message.to_bytes();
    assert_eq!(bytes.len(), 15);
    assert_eq!(&bytes[..3], &[2, 2, 0]);
    assert_eq!(Message::from_bytes(&bytes), Ok(Message::Transform(Transform::Rotate(v3(1.0, 2.0, 3.0)))));
    match Message::from_bytes(&bytes) {
        Ok(Message::Transform(Transform::Rotate(v))) => assert_eq!(floats(v), (1.0, 2.0, 3.0)),
        other => panic!("{:?}", other),
    }
}

#[test]
fn every_transform_comes_back_as_it_went() {
    let vectors = [
        v3(1.0, 2.0, 3.0),
        v3(-0.0, f32::INFINITY, f32::MIN_POSITIVE),
        v3(f32::NAN, -1.5e-40, 3.4e38),
        Vec3::new(Scalar::from_bits(0xdead_beef), Scalar::from_bits(0x7fc0_0001), Scalar::from_bits(u32::MAX)),
    ];
    for v in vectors {
        for sent in [Transform::Rotate(v), Transform::Translate(v), Transform::Scale(v)] {
            assert_eq!(Transform::from_bytes(&sent.to_bytes()), Ok(sent));
            let message = Message::Transform(sent);
            assert_eq!(Message::from_bytes(&message.to_bytes()), Ok(message));
            let message = Message::Sync(sent);
            assert_eq!(Message::from_bytes(&message.to_bytes()), Ok(message));
        }
    }
    assert!(Transform::Rotate(vectors[0]).to_bytes() != Transform::Translate(vectors[0]).to_bytes());
    assert!(Transform::Rotate(vectors[0]).to_bytes() != Transform::Rotate(vectors[1]).to_bytes());
    assert!(
        Message::Sync(Transform::Scale(vectors[0])).to_bytes()
            != Message::Transform(Transform::Scale(vectors[0])).to_bytes()
    );
}

#[test]
fn handshake_carries_its_name() {
    let message = Message::Handshake("caf\u{e9} \u{1f600}".to_string());
    let bytes = message.to_bytes();
    assert_eq!(bytes[0], 0);
    assert_eq!(&bytes[1..], "caf\u{e9} \u{1f600}".as_bytes());
    assert_eq!(Message::from_bytes(&bytes), Ok(message));
    assert_eq!(Message::from_bytes(&[0]), Ok(Message::Handshake(String::new())));
    assert_eq!(Message::from_bytes(&[0, b'h', b'i']), Ok(Message::Handshake("hi".to_string())));
}

#[test]
fn handshake_that_is_not_text_is_refused() {
    assert_eq!(Message::from_bytes(&[0, 0xff]), Err(MessageError::InvalidText));
    assert_eq!(Message::from_bytes(&[0, b'a', 0xc3]), Err(MessageError::InvalidText));
    assert_eq!(Message::from_bytes(&[0, 0xed, 0xa0, 0x80]), Err(MessageError::InvalidText));
}

#[test]
fn message_of_no_known_type_is_refused() {
    assert_eq!(Message::from_bytes(&[]), Err(MessageError::InvalidMessageLength));
    assert_eq!(Message::from_bytes(&[3]), Err(MessageError::InvalidMessageType));
    assert_eq!(Message::from_bytes(&[255, 0, 0]), Err(MessageError::InvalidMessageType));
    assert_eq!(Message::from_bytes(&[1]), Err(MessageError::InvalidMessageLength));
    assert_eq!(Message::from_bytes(&[2, 0]), Err(MessageError::InvalidMessageLength));
    assert_eq!(Message::from_bytes(&[1, 2, 7]), Err(MessageError::InvalidTransformType));
    assert_eq!(Message::from_bytes(&[1, 7, 0]), Err(MessageError::InvalidMessageType));
    assert_eq!(Message::from_bytes(&[2, 0, 0]), Err(MessageError::InvalidMessageType));
    let mut bytes = vec![1u8, 2, 1];
    bytes.extend(v3(1.0, 2.0, 3.0).to_bytes());
    assert_eq!(Message::from_bytes(&bytes), Ok(Message::Sync(Transform::Translate(v3(1.0, 2.0, 3.0)))));
}

#[test]
fn pool_hands_over_all_that_waits_once() {
    let mut pool = MessagePool::new();
    assert!(pool.poll().is_empty());
    let first = Message::Handshake("peer".to_string());
    let second = Message::Transform(Transform::Scale(v3(1.0, 2.0, 3.0)));
    assert_eq!(pool.deliver(&first.to_bytes()), Ok(()));
    assert_eq!(pool.deliver(&[7, 7]), Err(MessageError::InvalidMessageType));
    assert_eq!(pool.deliver(&[]), Err(MessageError::InvalidMessageLength));
    assert_eq!(pool.deliver(&second.to_bytes()), Ok(()));
    assert_eq!(pool.messages.len(), 2);
    assert_eq!(pool.poll(), vec![first, second]);
    assert!(pool.messages.is_empty());
    assert!(pool.poll().is_empty());
}
