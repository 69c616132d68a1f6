use chip16::machine::MEMORY;
use chip16::CH16Header;
use chip16::LoadFault;
use chip16::CHIP16;

fn header_bytes(magic: &[u8; 4], size: u32, start: u16, crc32: u32) -> Vec<u8> {
    let mut bytes = magic.to_vec();
    bytes.push(0x7E);
    bytes.push(0x11);
    bytes.extend_from_slice(&size.to_le_bytes());
    bytes.extend_from_slice(&start.to_le_bytes());
    bytes.extend_from_slice(&crc32.to_le_bytes());
    bytes
}

#[test]
fn header_fields_are_little_endian() {
    let bytes = header_bytes(b"CH16", 0x0403_0201, 0xBEEF, 0xDEAD_C0DE);
    assert_eq!(bytes.len(), 16);
    let header = CH16Header::parse(&bytes).expect("a well-formed header");
    assert_eq!(header.magic, "CH16");
    assert_eq!(header.reserved, 0x7E);
    assert_eq!(header.version, 0x11);
    assert_eq!(header.size, 0x0403_0201);
    assert_eq!(header.start, 0xBEEF);
    assert_eq!(header.crc32, 0xDEAD_C0DE);
}

#[test]
fn header_ignores_what_follows_it() {
    let mut bytes = header_bytes(b"CH16", 2, 0x0102, 5);
    bytes.extend_from_slice(&[0xFF; 40]);
    let header = CH16Header::parse(&bytes).expect("a well-formed header");
    assert_eq!(header.size, 2);
    assert_eq!(header.start, 0x0102);
    assert_eq!(header.crc32, 5);
}

#[test]
fn header_magic_may_be_any_text() {
    let bytes = header_bytes(&[b'a', 0xC3, 0xA9, b'z'], 0, 0, 0);
    let header = CH16Header::parse(&bytes).expect("a well-formed header");
    assert_eq!(header.magic, "a\u{e9}z");
}

#[test]
fn short_header_is_truncated() {
    let bytes = header_bytes(b"CH16", 0, 0, 0);
    assert_eq!(CH16Header::parse(&bytes[..15]).err(), Some(LoadFault::HeaderTruncated));
    assert_eq!(CH16Header::parse(&[]).err(), Some(LoadFault::HeaderTruncated));
    assert_eq!(CHIP16::load(&bytes[..15]).err(), Some(LoadFault::HeaderTruncated));
}

#[test]
fn magic_must_be_text() {
    let bytes = header_bytes(&[b'C', b'H', 0xFF, b'6'], 0, 0, 0);
    assert_eq!(CH16Header::parse(&bytes).err(), Some(LoadFault::MagicNotText));
    assert_eq!(CHIP16::load(&bytes).err(), Some(LoadFault::MagicNotText));
    // A short, malformed header is reported as short.
    assert_eq!(CH16Header::parse(&bytes[..8]).err(), Some(LoadFault::HeaderTruncated));
}

#[test]
fn payload_shorter_than_declared() {
    let mut image = header_bytes(b"CH16", 5, 0, 0);
    image.extend_from_slice(&[1, 2, 3, 4]);
    assert_eq!(CHIP16::load(&image).err(), Some(LoadFault::PayloadTruncated));
    image.push(5);
    assert!(CHIP16::load(&image).is_ok());
}

#[test]
fn payload_larger_than_memory() {
    let mut image = header_bytes(b"CH16", 0x1_0000, 0, 0);
    image.extend_from_slice(&vec![0u8; 0x1_0000]);
    assert_eq!(CHIP16::load(&image).err(), Some(LoadFault::PayloadTooLarge));
    // Too large and too short at once is reported as too short.
    image.truncate(20);
    assert_eq!(CHIP16::load(&image).err(), Some(LoadFault::PayloadTruncated));
}

#[test]
fn payload_may_fill_memory() {
    let mut image = header_bytes(b"CH16", MEMORY as u32, 0x0020, 0);
    image.extend_from_slice(&vec![0xA5u8; MEMORY]);
    let machine = match CHIP16::load(&image) {
        Ok(machine) => machine,
        Err(fault) => panic!("load failed: {:?}", fault),
    };
    assert_eq!(machine.pc(), 0x0020);
    assert!(machine.memory().iter().all(|b| *b == 0xA5));
}

#[test]
fn load_copies_only_the_declared_size() {
    let mut image = header_bytes(b"CH16", 2, 0x0004, 0);
    image.extend_from_slice(&[9, 8, 7, 6]);
    let machine = match CHIP16::load(&image) {
        Ok(machine) => machine,
        Err(fault) => panic!("load failed: {:?}", fault),
    };
    assert_eq!(&machine.memory()[..4], &[9, 8, 0, 0]);
    assert_eq!(machine.pc(), 4);
}

#[test]
fn new_takes_header_and_payload() {
    let header = CH16Header {
        magic: String::from("CH16"),
        reserved: 0,
        version: 0,
        size: 3,
        start: 0x0100,
        crc32: 0,
    };
    let machine = CHIP16::new(&header, &[1, 2, 3, 4, 5]);
    assert_eq!(machine.pc(), 0x0100);
    assert_eq!(&machine.memory()[..5], &[1, 2, 3, 0, 0]);
    assert_eq!(machine.peek(2), 3);
    assert_eq!(machine.peek(3), 0);
}
