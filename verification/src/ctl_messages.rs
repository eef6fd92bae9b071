//! The messages between the controller and the daemon on the control
//! channel.
//!
//! A message starts with one byte, the opcode. A health message is that
//! byte alone, and is answered with the one byte of `HEALTH_REPLY`. A reload
//! message goes on with the length of its payload, two bytes with the high
//! byte first, and with the payload: a configuration as JSON text, or
//! nothing where the daemon is to read its configuration again from where
//! it first read it.

use vstd::prelude::*;

verus! {

/// `byteorder::BigEndian`: the byte order with the high byte first.
#[verifier::external_type_specification]
#[verifier::external_body]
pub struct ExBigEndian(byteorder::BigEndian);

/// The order of the bytes of a number on the control channel.
pub type ByteOrder = byteorder::BigEndian;

/// The byte that answers a health message.
pub const HEALTH_REPLY: [u8; 1] = [42];

/// Why a byte is no opcode.
#[derive(Clone, Copy, Debug, PartialEq, Eq, Structural)]
pub enum OpcodeError {
    /// The byte stands for no opcode.
    UnknownValue { raw: u8 },
}

/// What the controller asks of the daemon.
#[derive(Clone, Copy, Debug, PartialEq, Eq, Hash, Structural)]
pub enum Opcode {
    /// Asks whether the daemon is alive.
    Health,
    /// Asks the daemon to take a new configuration.
    Reload,
}

impl Opcode {
    /// The byte that stands for the opcode.
    pub open spec fn byte(self) -> u8 {
        match self {
            Opcode::Health => 0,
            Opcode::Reload => 1,
        }
    }

    /// The opcode that a byte stands for.
    pub open spec fn of_byte(value: u8) -> Result<Opcode, OpcodeError> {
        if value == 0 {
            Ok(Opcode::Health)
        } else if value == 1 {
            Ok(Opcode::Reload)
        } else {
            Err(OpcodeError::UnknownValue { raw: value })
        }
    }
}

impl TryFrom<u8> for Opcode {
    type Error = OpcodeError;

    fn try_from(value: u8) -> (r: Result<Opcode, OpcodeError>)
        ensures
            r == Opcode::of_byte(value),
    {
        if value == u8::from(Opcode::Health) {
            Ok(Opcode::Health)
        } else if value == u8::from(Opcode::Reload) {
            Ok(Opcode::Reload)
        } else {
            Err(OpcodeError::UnknownValue { raw: value })
        }
    }
}

impl vstd::std_specs::convert::TryFromSpecImpl<u8> for Opcode {
    open spec fn obeys_try_from_spec() -> bool {
        true
    }

    open spec fn try_from_spec(value: u8) -> Result<Opcode, OpcodeError> {
        Opcode::of_byte(value)
    }
}

impl From<Opcode> for u8 {
    fn from(value: Opcode) -> (r: u8)
        ensures
            r == value.byte(),
    {
        match value {
            Opcode::Health => 0,
            Opcode::Reload => 1,
        }
    }
}

impl vstd::std_specs::convert::FromSpecImpl<Opcode> for u8 {
    open spec fn obeys_from_spec() -> bool {
        true
    }

    open spec fn from_spec(value: Opcode) -> u8 {
        value.byte()
    }
}

/// A byte that is decoded and encoded again is the same byte, and an
/// opcode that is encoded and decoded again is the same opcode.
pub proof fn law_opcode_round_trip(value: u8, opcode: Opcode)
    ensures
        Opcode::of_byte(value) matches Ok(decoded) ==> decoded.byte() == value,
        Opcode::of_byte(value) is Ok <==> value == 0 || value == 1,
        Opcode::of_byte(opcode.byte()) == Ok::<Opcode, OpcodeError>(opcode),
{
}

/// The number that two bytes spell, the high byte first.
pub open spec fn be16(high: u8, low: u8) -> u16 {
    (high as int * 256 + low as int) as u16
}

/// `byteorder::ByteOrder::read_u16` of `byteorder::BigEndian`: the number
/// that the first two bytes of the buffer spell, the high byte first.
#[verifier::external_body]
fn read_u16(buf: &[u8]) -> (n: u16)
    requires
        buf@.len() >= 2,
    ensures
        n == be16(buf@[0], buf@[1]),
{
    <ByteOrder as byteorder::ByteOrder>::read_u16(buf)
}

/// `byteorder::ByteOrder::write_u16` of `byteorder::BigEndian`, on a buffer
/// of two bytes: the two bytes that spell the number, the high byte first.
#[verifier::external_body]
fn write_u16(n: u16) -> (buf: [u8; 2])
    ensures
        buf@[0] == n / 256,
        buf@[1] == n % 256,
{
    let mut buf: [u8; 2] = [0; 2];
    <ByteOrder as byteorder::ByteOrder>::write_u16(&mut buf, n);
    buf
}

/// The length that the header of a reload message spells; nothing where
/// the header is not two bytes long.
pub open spec fn length_of(header: Seq<u8>) -> Option<u16> {
    if header.len() == 2 {
        Some(be16(header[0], header[1]))
    } else {
        None
    }
}

/// A health message.
pub open spec fn health_frame() -> Seq<u8> {
    seq![Opcode::Health.byte()]
}

/// The reload message with this payload; nothing where the payload is too
/// long for its length to be spelled in two bytes.
pub open spec fn reload_frame(payload: Seq<u8>) -> Option<Seq<u8>> {
    if payload.len() > 0xFFFF {
        None
    } else {
        Some(
            seq![
                Opcode::Reload.byte(),
                (payload.len() / 256) as u8,
                (payload.len() % 256) as u8,
            ] + payload,
        )
    }
}

/// Reads the length of the payload from the header of a reload message.
pub fn decode_length(header: &[u8]) -> (r: Option<u16>)
    ensures
        r == length_of(header@),
{
    if header.len() == 2 {
        Some(read_u16(header))
    } else {
        None
    }
}

/// Writes a health message.
pub fn encode_health() -> (r: Vec<u8>)
    ensures
        r@ == health_frame(),
{
    let mut r: Vec<u8> = Vec::new();
    r.push(u8::from(Opcode::Health));
    r
}

/// Tells whether these bytes are the answer to a health message: the one
/// byte of `HEALTH_REPLY`, and nothing else.
pub fn is_health_reply(reply: &[u8]) -> (r: bool)
    ensures
        r == (reply@ == HEALTH_REPLY@),
{
    let r = reply.len() == 1 && reply[0] == HEALTH_REPLY[0];
    assert(r == (reply@ =~= HEALTH_REPLY@));
    r
}

/// Writes the reload message with this payload.
pub fn encode_reload(payload: &[u8]) -> (r: Option<Vec<u8>>)
    ensures
        match r {
            Some(frame) => reload_frame(payload@) == Some(frame@),
            None => reload_frame(payload@) is None,
        },
{
    if payload.len() > 0xFFFF {
        return None;
    }
    let length: [u8; 2] = write_u16(payload.len() as u16);
    let mut r: Vec<u8> = Vec::new();
    r.push(u8::from(Opcode::Reload));
    r.push(length[0]);
    r.push(length[1]);
    let ghost head = r@;
    r.extend_from_slice(payload);
    assert(r@ == head + payload@);
    Some(r)
}

/// The header of a reload message spells the length of its payload.
pub proof fn law_reload_frame_length(payload: Seq<u8>)
    requires
        payload.len() <= 0xFFFF,
    ensures
        reload_frame(payload) matches Some(frame) && frame.len() == 3 + payload.len()
            && frame[0] == Opcode::Reload.byte() && length_of(frame.subrange(1, 3)) == Some(
            payload.len() as u16,
        ) && frame.subrange(3, frame.len() as int) == payload,
{
    let frame = reload_frame(payload).unwrap();
    let header = frame.subrange(1, 3);
    assert(header[0] == (payload.len() / 256) as u8);
    assert(header[1] == (payload.len() % 256) as u8);
}

} // verus!
