//! The frame that a weather station sends: a magic number and one set of
//! readings, all little endian, 36 bytes in a fixed layout.
//!
//! Readings that the station sends as IEEE 754 single precision numbers are
//! kept as the 32 bits that came.

use byteorder::{ByteOrder, LittleEndian};
use vstd::prelude::*;
use vstd::slice::slice_subrange;

verus! {

/// What every frame starts with.
pub const MAGIC_NUMBER: u32 = 0x12345678;

/// The magic number as it reads where the sender has the other byte order.
pub const MAGIC_NUMBER_SWAPPED: u32 = 0x78563412;

/// Bytes in a frame.
pub const MESSAGE_LENGTH: usize = 36;

pub struct SensorMessageHeader {
    pub magic_number: u32,
}

#[allow(non_snake_case)]
pub struct SensorMessagePayload {
    /// Seconds since the epoch at which the readings were taken.
    pub posix_time: i64,
    /// Bits of a single precision number.
    pub bme_temperature: u32,
    /// Bits of a single precision number.
    pub bme_pressure: u32,
    /// Bits of a single precision number.
    pub bme_humidity: u32,
    pub sgp30_eCO2: u16,
    pub sgp30_TVOC: u16,
    /// Bits of a single precision number.
    pub dht22_temperature: u32,
    /// Bits of a single precision number.
    pub dht22_humidity: u32,
}

pub struct SensorMessage {
    pub header: SensorMessageHeader,
    pub payload: SensorMessagePayload,
}

/// Why bytes are no frame.
#[derive(Clone, Copy, Debug, PartialEq, Eq)]
pub enum MessageError {
    /// Fewer bytes than a frame has.
    Truncated,
    /// The magic number reads byte-swapped.
    WrongEndianness,
    /// The frame starts with this in place of the magic number.
    BadMagic(u32),
}

/// The number that `bytes` spell, lowest byte first.
pub open spec fn le_value(bytes: Seq<u8>) -> nat
    decreases bytes.len(),
{
    if bytes.len() == 0 {
        0
    } else {
        bytes[0] as nat + 256 * le_value(bytes.drop_first())
    }
}

/// The unsigned number that the `width` bytes of `data` from `at` on spell.
pub open spec fn field(data: Seq<u8>, at: int, width: int) -> nat {
    le_value(data.subrange(at, at + width))
}

/// The signed 64-bit number with the bits of `value`.
pub open spec fn as_signed(value: nat) -> int {
    if value < 0x8000_0000_0000_0000 {
        value as int
    } else {
        value - 0x1_0000_0000_0000_0000
    }
}

/// The frame that the first 36 bytes of `data` hold.
pub open spec fn decode(data: Seq<u8>) -> SensorMessage {
    SensorMessage {
        header: SensorMessageHeader { magic_number: field(data, 0, 4) as u32 },
        payload: SensorMessagePayload {
            posix_time: as_signed(field(data, 4, 8)) as i64,
            bme_temperature: field(data, 12, 4) as u32,
            bme_pressure: field(data, 16, 4) as u32,
            bme_humidity: field(data, 20, 4) as u32,
            sgp30_eCO2: field(data, 24, 2) as u16,
            sgp30_TVOC: field(data, 26, 2) as u16,
            dht22_temperature: field(data, 28, 4) as u32,
            dht22_humidity: field(data, 32, 4) as u32,
        },
    }
}

/// What `data` parse to: the frame at their start, or the reason why there
/// is none.
pub open spec fn parse(data: Seq<u8>) -> Result<SensorMessage, MessageError> {
    if data.len() < MESSAGE_LENGTH {
        Err(MessageError::Truncated)
    } else if decode(data).header.magic_number == MAGIC_NUMBER {
        Ok(decode(data))
    } else if decode(data).header.magic_number == MAGIC_NUMBER_SWAPPED {
        Err(MessageError::WrongEndianness)
    } else {
        Err(MessageError::BadMagic(decode(data).header.magic_number))
    }
}

/// `byteorder::LittleEndian::read_u16`: the number that the first two bytes
/// of `buf` spell, lowest byte first. It panics on a shorter slice.
#[verifier::external_body]
fn read_u16(buf: &[u8]) -> (value: u16)
    requires
        buf@.len() >= 2,
    ensures
        value == le_value(buf@.subrange(0, 2)),
{
    LittleEndian::read_u16(buf)
}

/// `byteorder::LittleEndian::read_u32`: the number that the first four bytes
/// of `buf` spell, lowest byte first. It panics on a shorter slice.
#[verifier::external_body]
fn read_u32(buf: &[u8]) -> (value: u32)
    requires
        buf@.len() >= 4,
    ensures
        value == le_value(buf@.subrange(0, 4)),
{
    LittleEndian::read_u32(buf)
}

/// `byteorder::LittleEndian::read_i64`: the signed number whose bits the
/// first eight bytes of `buf` spell, lowest byte first. It panics on a
/// shorter slice.
#[verifier::external_body]
fn read_i64(buf: &[u8]) -> (value: i64)
    requires
        buf@.len() >= 8,
    ensures
        value == as_signed(le_value(buf@.subrange(0, 8))),
{
    LittleEndian::read_i64(buf)
}

/// Bytes spell a number below 256 to the power of their count.
pub proof fn lemma_le_value_bound(bytes: Seq<u8>)
    ensures
        bytes.len() == 2 ==> le_value(bytes) <= u16::MAX,
        bytes.len() == 4 ==> le_value(bytes) <= u32::MAX,
        bytes.len() == 8 ==> le_value(bytes) <= u64::MAX,
{
    reveal_with_fuel(le_value, 9);
}

/// Only the first 36 bytes count: what follows them changes neither the frame
/// nor whether there is one.
pub proof fn lemma_parse_ignores_rest(data: Seq<u8>)
    requires
        data.len() >= MESSAGE_LENGTH,
    ensures
        parse(data) == parse(data.take(MESSAGE_LENGTH as int)),
        parse(data) is Ok <==> field(data, 0, 4) == MAGIC_NUMBER,
{
    let head = data.take(MESSAGE_LENGTH as int);
    assert(head.subrange(0, 4) =~= data.subrange(0, 4));
    assert(head.subrange(4, 12) =~= data.subrange(4, 12));
    assert(head.subrange(12, 16) =~= data.subrange(12, 16));
    assert(head.subrange(16, 20) =~= data.subrange(16, 20));
    assert(head.subrange(20, 24) =~= data.subrange(20, 24));
    assert(head.subrange(24, 26) =~= data.subrange(24, 26));
    assert(head.subrange(26, 28) =~= data.subrange(26, 28));
    assert(head.subrange(28, 32) =~= data.subrange(28, 32));
    assert(head.subrange(32, 36) =~= data.subrange(32, 36));
    lemma_le_value_bound(data.subrange(0, 4));
}

impl SensorMessagePayload {
    /// Readings made up for trying out what follows the reader: temperatures
    /// of 100.0 and 95.0, a pressure of 101325.0 and humidities of 20.0,
    /// each as the bits of its single precision number.
    pub fn create_dummy() -> (payload: Self)
        ensures
            payload == (SensorMessagePayload {
                posix_time: 1742069972,
                bme_temperature: 0x42C8_0000,
                bme_pressure: 0x47C5_E680,
                bme_humidity: 0x41A0_0000,
                sgp30_eCO2: 450,
                sgp30_TVOC: 25,
                dht22_temperature: 0x42BE_0000,
                dht22_humidity: 0x41A0_0000,
            }),
    {
        Self {
            posix_time: 1742069972,
            bme_temperature: 0x42C8_0000,
            bme_pressure: 0x47C5_E680,
            bme_humidity: 0x41A0_0000,
            sgp30_eCO2: 450,
            sgp30_TVOC: 25,
            dht22_temperature: 0x42BE_0000,
            dht22_humidity: 0x41A0_0000,
        }
    }
}

impl SensorMessage {
    /// Reads the frame at the start of `data`. Bytes beyond the frame are
    /// ignored.
    pub fn from_bytes(data: &[u8]) -> (message: Result<SensorMessage, MessageError>)
        ensures
            message == parse(data@),
    {
        if data.len() < MESSAGE_LENGTH {
            return Err(MessageError::Truncated);
        }
        proof {
            lemma_le_value_bound(data@.subrange(0, 4));
            lemma_le_value_bound(data@.subrange(4, 12));
            lemma_le_value_bound(data@.subrange(12, 16));
            lemma_le_value_bound(data@.subrange(16, 20));
            lemma_le_value_bound(data@.subrange(20, 24));
            lemma_le_value_bound(data@.subrange(24, 26));
            lemma_le_value_bound(data@.subrange(26, 28));
            lemma_le_value_bound(data@.subrange(28, 32));
            lemma_le_value_bound(data@.subrange(32, 36));
        }
        let message = SensorMessage {
            header: SensorMessageHeader { magic_number: Self::u32_at(data, 0) },
            payload: SensorMessagePayload {
                posix_time: Self::i64_at(data, 4),
                bme_temperature: Self::u32_at(data, 12),
                bme_pressure: Self::u32_at(data, 16),
                bme_humidity: Self::u32_at(data, 20),
                sgp30_eCO2: Self::u16_at(data, 24),
                sgp30_TVOC: Self::u16_at(data, 26),
                dht22_temperature: Self::u32_at(data, 28),
                dht22_humidity: Self::u32_at(data, 32),
            },
        };

        match message.header.magic_number {
            MAGIC_NUMBER => Ok(message),
            MAGIC_NUMBER_SWAPPED => Err(MessageError::WrongEndianness),
            val => Err(MessageError::BadMagic(val)),
        }
    }

    fn u16_at(data: &[u8], at: usize) -> (value: u16)
        requires
            at + 2 <= data@.len(),
            at < MESSAGE_LENGTH,
        ensures
            value == field(data@, at as int, 2),
    {
        let bytes = slice_subrange(data, at, at + 2);
        assert(bytes@.subrange(0, 2) =~= data@.subrange(at as int, at + 2));
        read_u16(bytes)
    }

    fn u32_at(data: &[u8], at: usize) -> (value: u32)
        requires
            at + 4 <= data@.len(),
            at < MESSAGE_LENGTH,
        ensures
            value == field(data@, at as int, 4),
    {
        let bytes = slice_subrange(data, at, at + 4);
        assert(bytes@.subrange(0, 4) =~= data@.subrange(at as int, at + 4));
        read_u32(bytes)
    }

    fn i64_at(data: &[u8], at: usize) -> (value: i64)
        requires
            at + 8 <= data@.len(),
            at < MESSAGE_LENGTH,
        ensures
            value == as_signed(field(data@, at as int, 8)),
    {
        let bytes = slice_subrange(data, at, at + 8);
        assert(bytes@.subrange(0, 8) =~= data@.subrange(at as int, at + 8));
        read_i64(bytes)
    }
}

} // verus!
