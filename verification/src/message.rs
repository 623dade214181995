//! Messages between peers and their layout in bytes.
//!
//! The first byte of a message is its type. A handshake carries a name as
//! UTF-8 text; the other two carry a transform. A transform is laid out as
//! the type byte of a change, the byte of its kind and a vector; a vector
//! is its three numbers, each as the four bytes of its bit pattern, least
//! significant byte first.

use vstd::prelude::*;
use vstd::slice::slice_subrange;
use vstd::utf8::{decode_utf8, encode_utf8, encode_utf8_decode_utf8, encode_utf8_valid_utf8, valid_utf8};
use crate::scalar::{Scalar, Vec3};

verus! {

/// The type byte of a handshake.
pub const HANDSHAKE: u8 = 0;

/// The type byte of a message that brings a peer up to date.
pub const SYNC: u8 = 1;

/// The type byte of a message that reports a change.
pub const TRANSFORM: u8 = 2;

/// The kind byte of a rotation.
pub const ROTATE: u8 = 0;

/// The kind byte of a translation.
pub const TRANSLATE: u8 = 1;

/// The kind byte of a scaling.
pub const SCALE: u8 = 2;

/// A change to an object: about, along or by the three axes.
#[derive(Clone, Copy, Debug, PartialEq, Eq, Structural)]
pub enum Transform {
    Rotate(Vec3),
    Translate(Vec3),
    Scale(Vec3),
}

/// What peers say to each other.
#[derive(Clone, Debug, PartialEq, Eq)]
pub enum Message {
    /// The first message of a peer: its name.
    Handshake(String),
    /// The state of the other side, to take over.
    Sync(Transform),
    /// A change on the other side.
    Transform(Transform),
}

/// A [`Message`] as contracts see it, with the name as its characters.
pub enum MessageView {
    Handshake(Seq<char>),
    Sync(Transform),
    Transform(Transform),
}

/// Why bytes are no message.
#[derive(Clone, Copy, Debug, PartialEq, Eq, Structural)]
pub enum MessageError {
    /// The type byte of a message is none of the three, or that of a
    /// transform is not the type byte of a change.
    InvalidMessageType,
    /// The kind byte of a transform is none of the three.
    InvalidTransformType,
    /// There are too few bytes, or a vector is not twelve bytes long.
    InvalidMessageLength,
    /// The name of a handshake is not UTF-8.
    InvalidText,
}

/// The four bytes of a bit pattern, least significant first.
pub open spec fn le_bytes(bits: u32) -> Seq<u8> {
    seq![
        (bits & 0xff) as u8,
        ((bits >> 8) & 0xff) as u8,
        ((bits >> 16) & 0xff) as u8,
        ((bits >> 24) & 0xff) as u8,
    ]
}

/// The bit pattern whose bytes, least significant first, are the four bytes
/// of `bytes` from `at` on.
pub open spec fn le_bits(bytes: Seq<u8>, at: int) -> u32 {
    (bytes[at] as u32) | (bytes[at + 1] as u32) << 8 | (bytes[at + 2] as u32) << 16 | (bytes[at + 3] as u32) << 24
}

/// The twelve bytes of a vector.
pub open spec fn vec3_encoding(v: Vec3) -> Seq<u8> {
    le_bytes(v.x.bits) + le_bytes(v.y.bits) + le_bytes(v.z.bits)
}

/// The vector that twelve bytes hold; any other number of bytes is refused.
pub open spec fn vec3_decoding(bytes: Seq<u8>) -> Result<Vec3, MessageError> {
    if bytes.len() != 12 {
        Err(MessageError::InvalidMessageLength)
    } else {
        Ok(
            Vec3 {
                x: Scalar { bits: le_bits(bytes, 0) },
                y: Scalar { bits: le_bits(bytes, 4) },
                z: Scalar { bits: le_bits(bytes, 8) },
            },
        )
    }
}

impl Transform {
    /// The vector that the transform carries.
    pub open spec fn spec_vector(&self) -> Vec3 {
        match *self {
            Transform::Rotate(v) => v,
            Transform::Translate(v) => v,
            Transform::Scale(v) => v,
        }
    }

    /// The kind byte of the transform.
    pub open spec fn kind(&self) -> u8 {
        match *self {
            Transform::Rotate(_) => ROTATE,
            Transform::Translate(_) => TRANSLATE,
            Transform::Scale(_) => SCALE,
        }
    }

    /// The vector that the transform carries.
    #[verifier::when_used_as_spec(spec_vector)]
    pub fn vector(&self) -> (v: Vec3)
        ensures
            v == self.spec_vector(),
    {
        match *self {
            Transform::Rotate(v) => v,
            Transform::Translate(v) => v,
            Transform::Scale(v) => v,
        }
    }
}

/// The bytes of a transform: the type byte of a change, the kind byte, and
/// the vector.
pub open spec fn transform_encoding(t: Transform) -> Seq<u8> {
    seq![TRANSFORM, t.kind()] + vec3_encoding(t.spec_vector())
}

/// The transform that bytes hold: the first byte is the type byte of a
/// change, the second says the kind, and the rest is the vector. Fewer
/// than two bytes are refused for their length, then a first byte that is
/// not the type byte of a change, then a kind that is none of the three,
/// then a vector that is not twelve bytes long.
pub open spec fn transform_decoding(bytes: Seq<u8>) -> Result<Transform, MessageError> {
    if bytes.len() < 2 {
        Err(MessageError::InvalidMessageLength)
    } else if bytes[0] != TRANSFORM {
        Err(MessageError::InvalidMessageType)
    } else if bytes[1] == ROTATE {
        match vec3_decoding(bytes.skip(2)) {
            Ok(v) => Ok(Transform::Rotate(v)),
            Err(e) => Err(e),
        }
    } else if bytes[1] == TRANSLATE {
        match vec3_decoding(bytes.skip(2)) {
            Ok(v) => Ok(Transform::Translate(v)),
            Err(e) => Err(e),
        }
    } else if bytes[1] == SCALE {
        match vec3_decoding(bytes.skip(2)) {
            Ok(v) => Ok(Transform::Scale(v)),
            Err(e) => Err(e),
        }
    } else {
        Err(MessageError::InvalidTransformType)
    }
}

/// The bytes of a message: its type byte, then the name as UTF-8 or the
/// bytes of the transform.
pub open spec fn message_encoding(m: MessageView) -> Seq<u8> {
    match m {
        MessageView::Handshake(name) => seq![HANDSHAKE] + encode_utf8(name),
        MessageView::Sync(t) => seq![SYNC] + transform_encoding(t),
        MessageView::Transform(t) => seq![TRANSFORM] + transform_encoding(t),
    }
}

/// The message that bytes hold.
pub open spec fn message_decoding(bytes: Seq<u8>) -> Result<MessageView, MessageError> {
    if bytes.len() < 1 {
        Err(MessageError::InvalidMessageLength)
    } else if bytes[0] == HANDSHAKE {
        if valid_utf8(bytes.skip(1)) {
            Ok(MessageView::Handshake(decode_utf8(bytes.skip(1))))
        } else {
            Err(MessageError::InvalidText)
        }
    } else if bytes[0] == SYNC {
        match transform_decoding(bytes.skip(1)) {
            Ok(t) => Ok(MessageView::Sync(t)),
            Err(e) => Err(e),
        }
    } else if bytes[0] == TRANSFORM {
        match transform_decoding(bytes.skip(1)) {
            Ok(t) => Ok(MessageView::Transform(t)),
            Err(e) => Err(e),
        }
    } else {
        Err(MessageError::InvalidMessageType)
    }
}

/// A value with a layout in bytes.
pub trait Serializable: Sized + View {
    /// The bytes of a value.
    spec fn encoding(value: Self::V) -> Seq<u8>;

    /// The value that bytes hold, or why they hold none.
    spec fn decoding(bytes: Seq<u8>) -> Result<Self::V, MessageError>;

    fn to_bytes(&self) -> (bytes: Vec<u8>)
        ensures
            bytes@ == Self::encoding(self@),
    ;

    fn from_bytes(bytes: &[u8]) -> (value: Result<Self, MessageError>)
        ensures
            match value {
                Ok(v) => Self::decoding(bytes@) == Ok::<Self::V, MessageError>(v@),
                Err(e) => Self::decoding(bytes@) == Err::<Self::V, MessageError>(e),
            },
    ;
}

impl View for Transform {
    type V = Transform;

    open spec fn view(&self) -> Transform {
        *self
    }
}

impl View for Message {
    type V = MessageView;

    open spec fn view(&self) -> MessageView {
        match self {
            Message::Handshake(name) => MessageView::Handshake(name@),
            Message::Sync(t) => MessageView::Sync(*t),
            Message::Transform(t) => MessageView::Transform(*t),
        }
    }
}

/// Appends the four bytes of a bit pattern.
fn push_le(bytes: &mut Vec<u8>, bits: u32)
    ensures
        final(bytes)@ == old(bytes)@ + le_bytes(bits),
{
    bytes.push((bits & 0xff) as u8);
    bytes.push(((bits >> 8) & 0xff) as u8);
    bytes.push(((bits >> 16) & 0xff) as u8);
    bytes.push(((bits >> 24) & 0xff) as u8);
    assert(bytes@ =~= old(bytes)@ + le_bytes(bits));
}

/// Reads a bit pattern from four bytes.
fn read_le(bytes: &[u8], at: usize) -> (bits: u32)
    requires
        at + 4 <= bytes@.len(),
    ensures
        bits == le_bits(bytes@, at as int),
{
    (bytes[at] as u32) | (bytes[at + 1] as u32) << 8 | (bytes[at + 2] as u32) << 16 | (bytes[at + 3] as u32) << 24
}

impl Serializable for Vec3 {
    open spec fn encoding(value: Vec3) -> Seq<u8> {
        vec3_encoding(value)
    }

    open spec fn decoding(bytes: Seq<u8>) -> Result<Vec3, MessageError> {
        vec3_decoding(bytes)
    }

    fn to_bytes(&self) -> (bytes: Vec<u8>) {
        let mut bytes = Vec::new();
        push_le(&mut bytes, self.x.bits);
        push_le(&mut bytes, self.y.bits);
        push_le(&mut bytes, self.z.bits);
        assert(bytes@ =~= vec3_encoding(*self));
        bytes
    }

    fn from_bytes(bytes: &[u8]) -> (value: Result<Vec3, MessageError>) {
        if bytes.len() != 12 {
            return Err(MessageError::InvalidMessageLength);
        }
        let x = read_le(bytes, 0);
        let y = read_le(bytes, 4);
        let z = read_le(bytes, 8);
        Ok(Vec3 { x: Scalar { bits: x }, y: Scalar { bits: y }, z: Scalar { bits: z } })
    }
}

impl Serializable for Transform {
    open spec fn encoding(value: Transform) -> Seq<u8> {
        transform_encoding(value)
    }

    open spec fn decoding(bytes: Seq<u8>) -> Result<Transform, MessageError> {
        transform_decoding(bytes)
    }

    fn to_bytes(&self) -> (bytes: Vec<u8>) {
        let mut bytes = Vec::new();
        match self {
            Transform::Rotate(vec) => {
                bytes.push(TRANSFORM);
                bytes.push(ROTATE);
                let mut rest = vec.to_bytes();
                bytes.append(&mut rest);
            },
            Transform::Translate(vec) => {
                bytes.push(TRANSFORM);
                bytes.push(TRANSLATE);
                let mut rest = vec.to_bytes();
                bytes.append(&mut rest);
            },
            Transform::Scale(vec) => {
                bytes.push(TRANSFORM);
                bytes.push(SCALE);
                let mut rest = vec.to_bytes();
                bytes.append(&mut rest);
            },
        }
        assert(bytes@ =~= transform_encoding(*self));
        bytes
    }

    fn from_bytes(bytes: &[u8]) -> (value: Result<Transform, MessageError>) {
        if bytes.len() < 2 {
            return Err(MessageError::InvalidMessageLength);
        }
        if bytes[0] != TRANSFORM {
            return Err(MessageError::InvalidMessageType);
        }
        let rest = slice_subrange(bytes, 2, bytes.len());
        assert(rest@ =~= bytes@.skip(2));
        let kind = bytes[1];
        if kind == ROTATE {
            match Vec3::from_bytes(rest) {
                Ok(vec) => Ok(Transform::Rotate(vec)),
                Err(e) => Err(e),
            }
        } else if kind == TRANSLATE {
            match Vec3::from_bytes(rest) {
                Ok(vec) => Ok(Transform::Translate(vec)),
                Err(e) => Err(e),
            }
        } else if kind == SCALE {
            match Vec3::from_bytes(rest) {
                Ok(vec) => Ok(Transform::Scale(vec)),
                Err(e) => Err(e),
            }
        } else {
            Err(MessageError::InvalidTransformType)
        }
    }
}

/// `String::from_utf8`: the text that the bytes encode where they are valid
/// UTF-8, and nothing where they are not.
#[verifier::external_body]
fn text_from_utf8(bytes: Vec<u8>) -> (text: Option<String>)
    ensures
        text is Some <==> valid_utf8(bytes@),
        text is Some ==> text->0@ == decode_utf8(bytes@),
{
    String::from_utf8(bytes).ok()
}

impl Serializable for Message {
    open spec fn encoding(value: MessageView) -> Seq<u8> {
        message_encoding(value)
    }

    open spec fn decoding(bytes: Seq<u8>) -> Result<MessageView, MessageError> {
        message_decoding(bytes)
    }

    fn to_bytes(&self) -> (bytes: Vec<u8>) {
        let mut bytes = Vec::new();
        match self {
            Message::Handshake(name) => {
                bytes.push(HANDSHAKE);
                bytes.extend_from_slice(name.as_str().as_bytes());
            },
            Message::Sync(transform) => {
                bytes.push(SYNC);
                let mut rest = transform.to_bytes();
                bytes.append(&mut rest);
            },
            Message::Transform(transform) => {
                bytes.push(TRANSFORM);
                let mut rest = transform.to_bytes();
                bytes.append(&mut rest);
            },
        }
        assert(bytes@ =~= message_encoding(self@));
        bytes
    }

    fn from_bytes(bytes: &[u8]) -> (value: Result<Message, MessageError>) {
        if bytes.len() < 1 {
            return Err(MessageError::InvalidMessageLength);
        }
        let rest = slice_subrange(bytes, 1, bytes.len());
        assert(rest@ =~= bytes@.skip(1));
        let kind = bytes[0];
        if kind == HANDSHAKE {
            let mut name: Vec<u8> = Vec::new();
            name.extend_from_slice(rest);
            assert(name@ =~= rest@);
            match text_from_utf8(name) {
                Some(name) => Ok(Message::Handshake(name)),
                None => Err(MessageError::InvalidText),
            }
        } else if kind == SYNC {
            match Transform::from_bytes(rest) {
                Ok(transform) => Ok(Message::Sync(transform)),
                Err(e) => Err(e),
            }
        } else if kind == TRANSFORM {
            match Transform::from_bytes(rest) {
                Ok(transform) => Ok(Message::Transform(transform)),
                Err(e) => Err(e),
            }
        } else {
            Err(MessageError::InvalidMessageType)
        }
    }
}

/// Four bytes, read back, give the bit pattern that they were made from.
pub proof fn le_round_trip(bits: u32)
    ensures
        le_bytes(bits).len() == 4,
        le_bits(le_bytes(bits), 0) == bits,
{
    let b0 = (bits & 0xff) as u8;
    let b1 = ((bits >> 8) & 0xff) as u8;
    let b2 = ((bits >> 16) & 0xff) as u8;
    let b3 = ((bits >> 24) & 0xff) as u8;
    assert((b0 as u32) | (b1 as u32) << 8 | (b2 as u32) << 16 | (b3 as u32) << 24 == bits) by (bit_vector)
        requires
            b0 == (bits & 0xff) as u8,
            b1 == ((bits >> 8) & 0xff) as u8,
            b2 == ((bits >> 16) & 0xff) as u8,
            b3 == ((bits >> 24) & 0xff) as u8,
    ;
}

/// A vector comes back from its bytes as it went in, bit for bit.
pub proof fn vec3_round_trip(v: Vec3)
    ensures
        vec3_encoding(v).len() == 12,
        vec3_decoding(vec3_encoding(v)) == Ok::<Vec3, MessageError>(v),
{
    le_round_trip(v.x.bits);
    le_round_trip(v.y.bits);
    le_round_trip(v.z.bits);
    let bytes = vec3_encoding(v);
    assert(bytes.subrange(0, 4) =~= le_bytes(v.x.bits));
    assert(bytes.subrange(4, 8) =~= le_bytes(v.y.bits));
    assert(bytes.subrange(8, 12) =~= le_bytes(v.z.bits));
    assert(le_bits(bytes, 0) == le_bits(bytes.subrange(0, 4), 0));
    assert(le_bits(bytes, 4) == le_bits(bytes.subrange(4, 8), 0));
    assert(le_bits(bytes, 8) == le_bits(bytes.subrange(8, 12), 0));
}

/// A transform comes back from its bytes as it went in: of the same kind,
/// with the same vector, bit for bit.
pub proof fn transform_round_trip(t: Transform)
    ensures
        transform_encoding(t).len() == 14,
        transform_decoding(transform_encoding(t)) == Ok::<Transform, MessageError>(t),
{
    vec3_round_trip(t.spec_vector());
    let bytes = transform_encoding(t);
    assert(bytes.skip(2) =~= vec3_encoding(t.spec_vector()));
}

/// A message comes back from its bytes as it went in: a handshake with its
/// name, the other two with their transform.
pub proof fn message_round_trip(m: MessageView)
    ensures
        message_decoding(message_encoding(m)) == Ok::<MessageView, MessageError>(m),
{
    let bytes = message_encoding(m);
    match m {
        MessageView::Handshake(name) => {
            assert(bytes.skip(1) =~= encode_utf8(name));
            encode_utf8_valid_utf8(name);
            encode_utf8_decode_utf8(name);
        },
        MessageView::Sync(t) => {
            assert(bytes.skip(1) =~= transform_encoding(t));
            transform_round_trip(t);
        },
        MessageView::Transform(t) => {
            assert(bytes.skip(1) =~= transform_encoding(t));
            transform_round_trip(t);
        },
    }
}

/// No two transforms have the same bytes.
pub proof fn bytes_tell_transforms_apart(a: Transform, b: Transform)
    requires
        transform_encoding(a) == transform_encoding(b),
    ensures
        a == b,
{
    transform_round_trip(a);
    transform_round_trip(b);
}

/// No two messages have the same bytes.
pub proof fn bytes_tell_messages_apart(a: MessageView, b: MessageView)
    requires
        message_encoding(a) == message_encoding(b),
    ensures
        a == b,
{
    message_round_trip(a);
    message_round_trip(b);
}

} // verus!
