use vstd::prelude::*;
use vstd::slice::slice_subrange;
use vstd::slice::slice_to_vec;
use vstd::utf8::decode_utf8;
use vstd::utf8::valid_utf8;
use byteorder::ByteOrder;
use byteorder::LittleEndian;
use std::string::FromUtf8Error;

verus! {

/// Number of bytes of a cartridge header.
pub const HEADER_LEN: usize = 16;

/// The value of two bytes read as a little-endian number.
pub open spec fn le_u16(b: Seq<u8>) -> u16 {
    (b[0] + 0x100 * b[1]) as u16
}

/// The value of four bytes read as a little-endian number.
pub open spec fn le_u32(b: Seq<u8>) -> u32 {
    (b[0] + 0x100 * b[1] + 0x1_0000 * b[2] + 0x100_0000 * b[3]) as u32
}

/// `std::string::FromUtf8Error`, the error of `String::from_utf8`. It is
/// only passed on; nothing is read from it.
#[verifier::external_type_specification]
#[verifier::external_body]
pub struct ExFromUtf8Error(FromUtf8Error);

/// `byteorder::LittleEndian::read_u16`. It reads the first two bytes of
/// `buf`, the low byte first, and panics on a shorter buffer.
#[verifier::external_body]
fn read_u16_le(buf: &[u8]) -> (v: u16)
    requires
        buf@.len() >= 2,
    ensures
        v == le_u16(buf@),
{
    LittleEndian::read_u16(buf)
}

/// `byteorder::LittleEndian::read_u32`. It reads the first four bytes of
/// `buf`, the lowest byte first, and panics on a shorter buffer.
#[verifier::external_body]
fn read_u32_le(buf: &[u8]) -> (v: u32)
    requires
        buf@.len() >= 4,
    ensures
        v == le_u32(buf@),
{
    LittleEndian::read_u32(buf)
}

/// `String::from_utf8` of the standard library. It succeeds exactly on
/// well-formed UTF-8, and the string then holds the characters that the
/// bytes encode.
#[verifier::external_body]
fn string_from_utf8(bytes: Vec<u8>) -> (r: Result<String, FromUtf8Error>)
    ensures
        r is Ok <==> valid_utf8(bytes@),
        r matches Ok(s) ==> s@ == decode_utf8(bytes@),
{
    String::from_utf8(bytes)
}

/// Why a cartridge image cannot be loaded.
#[derive(Clone, Copy, Debug, PartialEq, Eq, Structural)]
pub enum LoadFault {
    /// The image is shorter than a header.
    HeaderTruncated,
    /// The magic tag is not well-formed UTF-8 text.
    MagicNotText,
    /// The header declares more payload bytes than follow it.
    PayloadTruncated,
    /// The header declares more payload bytes than memory holds.
    PayloadTooLarge,
}

/// The header of a cartridge image.
#[derive(Debug)]
pub struct CH16Header {
    pub magic: String,
    pub reserved: u8,
    pub version: u8,
    pub size: u32,
    pub start: u16,
    pub crc32: u32,
}

impl CH16Header {
    /// Whether this header holds what the first sixteen bytes of `bytes`
    /// say: the magic tag in bytes 0 to 3, the reserved byte, the version
    /// byte, then the payload size, the start address and the checksum,
    /// each little-endian.
    pub open spec fn is_header_of(&self, bytes: Seq<u8>) -> bool {
        &&& self.magic@ == decode_utf8(bytes.subrange(0, 4))
        &&& self.reserved == bytes[4]
        &&& self.version == bytes[5]
        &&& self.size == le_u32(bytes.subrange(6, 10))
        &&& self.start == le_u16(bytes.subrange(10, 12))
        &&& self.crc32 == le_u32(bytes.subrange(12, 16))
    }

    /// What reading a header from `bytes` reports when it fails, or `None`
    /// when it succeeds.
    pub open spec fn fault_of(bytes: Seq<u8>) -> Option<LoadFault> {
        if bytes.len() < HEADER_LEN {
            Some(LoadFault::HeaderTruncated)
        } else if !valid_utf8(bytes.subrange(0, 4)) {
            Some(LoadFault::MagicNotText)
        } else {
            None
        }
    }

    /// Reads the header that the first sixteen bytes of `val` hold.
    pub fn parse(val: &[u8]) -> (r: Result<CH16Header, LoadFault>)
        ensures
            match r {
                Ok(h) => CH16Header::fault_of(val@) is None && h.is_header_of(val@),
                Err(fault) => CH16Header::fault_of(val@) == Some(fault),
            },
    {
        if val.len() < HEADER_LEN {
            return Err(LoadFault::HeaderTruncated);
        }
        let magic = match string_from_utf8(slice_to_vec(slice_subrange(val, 0x00, 0x04))) {
            Ok(text) => text,
            Err(_) => {
                return Err(LoadFault::MagicNotText);
            },
        };
        Ok(
            CH16Header {
                magic,
                reserved: val[0x04],
                version: val[0x05],
                size: read_u32_le(slice_subrange(val, 0x06, 0x0A)),
                start: read_u16_le(slice_subrange(val, 0x0A, 0x0C)),
                crc32: read_u32_le(slice_subrange(val, 0x0C, 0x10)),
            },
        )
    }
}

} // verus!
