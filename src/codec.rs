use vstd::prelude::*;

verus! {

/// The plaintext byte that the device mixes into each position before
/// transmission: the ASCII text `Htemp99e`.
pub open spec fn magic_byte(i: int) -> u8 {
    if i == 0 {
        0x48u8
    } else if i == 1 {
        0x74u8
    } else if i == 2 {
        0x65u8
    } else if i == 3 {
        0x6du8
    } else if i == 4 {
        0x70u8
    } else if i == 5 {
        0x39u8
    } else if i == 6 {
        0x39u8
    } else {
        0x65u8
    }
}

/// A byte with its two nibbles exchanged.
pub open spec fn nibble_swap(b: u8) -> u8 {
    ((b << 4u8) | (b >> 4u8)) as u8
}

/// The position of the received frame that lands at position `i` once the
/// device's byte permutation is undone.
pub open spec fn source_position(i: int) -> int {
    if i == 0 {
        2
    } else if i == 1 {
        4
    } else if i == 2 {
        0
    } else if i == 3 {
        7
    } else if i == 4 {
        1
    } else if i == 5 {
        6
    } else if i == 6 {
        5
    } else {
        3
    }
}

/// Byte `i` after the permutation is undone and the key is XORed out.
pub open spec fn keyed_byte(raw: Seq<u8>, key: Seq<u8>, i: int) -> u8 {
    (raw[source_position(i)] ^ key[i]) as u8
}

/// Undoes the three-bit rotation across neighbouring bytes and the offset
/// of one position.
pub open spec fn unmix(cur: u8, prev: u8, offset: u8) -> u8 {
    ((((cur >> 3u8) | (prev << 5u8)) as u8 as int - offset as int) % 256) as u8
}

/// The plaintext of an eight-byte frame received from the device, given the
/// key that the device was opened with.
pub open spec fn deobfuscate(raw: Seq<u8>, key: Seq<u8>) -> Seq<u8> {
    Seq::new(
        8,
        |i: int|
            unmix(
                keyed_byte(raw, key, i),
                keyed_byte(raw, key, (i + 7) % 8),
                nibble_swap(magic_byte(i)),
            ),
    )
}

fn unmix_byte(cur: u8, prev: u8, magic: u8) -> (r: u8)
    ensures
        r == unmix(cur, prev, nibble_swap(magic)),
{
    let rotated: u8 = (cur >> 3u8) | (prev << 5u8);
    let offset: u8 = (magic << 4u8) | (magic >> 4u8);
    rotated.wrapping_sub(offset)
}

/// Recovers the plaintext of a frame: undoes the byte permutation, XORs out
/// the key, undoes the bit rotation and subtracts the fixed offsets.
pub fn decrypt(raw: &[u8; 8], key: &[u8; 8]) -> (r: [u8; 8])
    ensures
        r@ == deobfuscate(raw@, key@),
{
    let k0: u8 = raw[2] ^ key[0];
    let k1: u8 = raw[4] ^ key[1];
    let k2: u8 = raw[0] ^ key[2];
    let k3: u8 = raw[7] ^ key[3];
    let k4: u8 = raw[1] ^ key[4];
    let k5: u8 = raw[6] ^ key[5];
    let k6: u8 = raw[5] ^ key[6];
    let k7: u8 = raw[3] ^ key[7];
    let r: [u8; 8] = [
        unmix_byte(k0, k7, 0x48),
        unmix_byte(k1, k0, 0x74),
        unmix_byte(k2, k1, 0x65),
        unmix_byte(k3, k2, 0x6d),
        unmix_byte(k4, k3, 0x70),
        unmix_byte(k5, k4, 0x39),
        unmix_byte(k6, k5, 0x39),
        unmix_byte(k7, k6, 0x65),
    ];
    assert(r@ =~= deobfuscate(raw@, key@));
    r
}


/// The end-of-message marker that closes every valid packet.
pub const END_MARKER: u8 = 0x0d;

/// Packet tag of a relative humidity value (`A`).
pub const TAG_HUMIDITY: u8 = 0x41;

/// Packet tag of a temperature value (`B`).
pub const TAG_TEMPERATURE: u8 = 0x42;

/// Packet tag of a CO2 concentration (`P`).
pub const TAG_CO2: u8 = 0x50;

/// What the sensor protocol reports for one five-byte packet; the physical
/// values of humidity and temperature are read from the packet's value bytes.
#[derive(Debug, Clone, Copy, PartialEq, Eq, Structural)]
pub enum Packet {
    Humidity,
    Temperature,
    Co2(u16),
    Unknown(u8, u16),
}

/// Why a packet could not be decoded.
#[derive(Debug, Clone, Copy, PartialEq, Eq, Structural)]
pub enum DecodeError {
    /// The packet did not end with the end-of-message marker, or the frame
    /// was malformed.
    InvalidMessage,
    /// The checksum byte did not match the three bytes before it.
    Checksum,
}

/// One measurement field carried by a frame. Temperatures are kept in the
/// sensor's raw unit: sixteenths of a kelvin.
#[derive(Debug, Clone, Copy, PartialEq, Eq, Structural)]
pub enum DecodedField {
    Co2(u16),
    Temperature(u16),
    Unknown,
}

/// The 16-bit big-endian value held in bytes 1 and 2 of a packet.
pub open spec fn packet_value(p: Seq<u8>) -> u16 {
    (p[1] as int * 256 + p[2] as int) as u16
}

/// The checksum of a packet: the sum of its first three bytes, modulo 256.
pub open spec fn packet_checksum(p: Seq<u8>) -> u8 {
    ((p[0] as int + p[1] as int + p[2] as int) % 256) as u8
}

/// What the sensor protocol makes of a five-byte packet: the end marker is
/// checked first, then the checksum in byte 3, then byte 0 tells the kind.
pub open spec fn packet_result(p: Seq<u8>) -> Result<Packet, DecodeError> {
    if p[4] != END_MARKER {
        Err(DecodeError::InvalidMessage)
    } else if packet_checksum(p) != p[3] {
        Err(DecodeError::Checksum)
    } else if p[0] == TAG_HUMIDITY {
        Ok(Packet::Humidity)
    } else if p[0] == TAG_TEMPERATURE {
        Ok(Packet::Temperature)
    } else if p[0] == TAG_CO2 {
        Ok(Packet::Co2(packet_value(p)))
    } else {
        Ok(Packet::Unknown(p[0], packet_value(p)))
    }
}

/// The measurement field that a five-byte packet carries.
pub open spec fn packet_field(p: Seq<u8>) -> Result<DecodedField, DecodeError> {
    match packet_result(p) {
        Ok(Packet::Co2(v)) => Ok(DecodedField::Co2(v)),
        Ok(Packet::Temperature) => Ok(DecodedField::Temperature(packet_value(p))),
        Ok(_) => Ok(DecodedField::Unknown),
        Err(e) => Err(e),
    }
}

/// The measurement field that an eight-byte frame from the device carries:
/// the first five bytes of its plaintext form the packet.
pub open spec fn frame_field(raw: Seq<u8>, key: Seq<u8>) -> Result<DecodedField, DecodeError> {
    packet_field(deobfuscate(raw, key).take(5))
}

/// Relies on `zg_co2::decode`: it rejects a packet whose byte 4 is not 0x0d
/// with `InvalidMessage`, then one whose byte 3 is not the wrapping sum of
/// bytes 0 to 2 with `Checksum`, and otherwise classifies it by byte 0
/// (`A`, `B`, `P`, other), the value being bytes 1 and 2, big-endian.
/// The floating-point humidity and temperature it computes are not kept;
/// both enums are non-exhaustive, and the last arm serves only this version's
/// `InvalidMessage`.
#[verifier::external_body]
fn sensor_decode(packet: [u8; 5]) -> (r: Result<Packet, DecodeError>)
    ensures
        r == packet_result(packet@),
{
    match zg_co2::decode(packet) {
        Ok(zg_co2::SingleReading::Humidity(_)) => Ok(Packet::Humidity),
        Ok(zg_co2::SingleReading::Temperature(_)) => Ok(Packet::Temperature),
        Ok(zg_co2::SingleReading::CO2(value)) => Ok(Packet::Co2(value)),
        Ok(zg_co2::SingleReading::Unknown(tag, value)) => Ok(Packet::Unknown(tag, value)),
        Err(zg_co2::Error::Checksum) => Err(DecodeError::Checksum),
        _ => Err(DecodeError::InvalidMessage),
    }
}

/// Decodes a five-byte plaintext packet into the measurement field it carries.
pub fn decode_packet(packet: [u8; 5]) -> (r: Result<DecodedField, DecodeError>)
    ensures
        r == packet_field(packet@),
{
    match sensor_decode(packet) {
        Ok(Packet::Co2(value)) => Ok(DecodedField::Co2(value)),
        Ok(Packet::Temperature) => {
            let value: u16 = (packet[1] as u16) * 256 + packet[2] as u16;
            Ok(DecodedField::Temperature(value))
        },
        Ok(_) => Ok(DecodedField::Unknown),
        Err(e) => Err(e),
    }
}

/// Decodes one eight-byte frame received from the device opened with `key`.
pub fn decode_frame(raw: &[u8; 8], key: &[u8; 8]) -> (r: Result<DecodedField, DecodeError>)
    ensures
        r == frame_field(raw@, key@),
{
    let plain = decrypt(raw, key);
    let packet: [u8; 5] = [plain[0], plain[1], plain[2], plain[3], plain[4]];
    assert(packet@ =~= plain@.take(5));
    decode_packet(packet)
}


/// Decoding is a function of its inputs alone: the same frame, decoded with
/// the same key, gives the same field or the same error every time.
pub proof fn lemma_decode_deterministic(raw1: Seq<u8>, raw2: Seq<u8>, key: Seq<u8>)
    requires
        raw1 == raw2,
    ensures
        frame_field(raw1, key) == frame_field(raw2, key),
{
}

proof fn lemma_flip_changes(x: u8, bit: u8)
    requires
        bit < 8,
    ensures
        x ^ (1u8 << bit) != x,
{
    assert(x ^ (1u8 << bit) != x) by (bit_vector)
        requires
            bit < 8u8,
    ;
}

/// The checksum covers bytes 0 to 3 of the plaintext packet: flipping any
/// single bit there in a packet that decodes makes decoding fail with
/// `Checksum`. (Byte 4 is the end marker, checked first; bytes 5 to 7 of a
/// frame are padding and not covered.)
pub proof fn lemma_bit_flip_fails_checksum(p: Seq<u8>, i: int, bit: u8)
    requires
        p.len() == 5,
        packet_result(p) is Ok,
        0 <= i < 4,
        bit < 8,
    ensures
        packet_result(p.update(i, p[i] ^ (1u8 << bit))) == Err::<Packet, DecodeError>(
            DecodeError::Checksum,
        ),
{
    let q = p.update(i, p[i] ^ (1u8 << bit));
    lemma_flip_changes(p[i], bit);
    assert(q[4] == p[4]);
    if i < 3 {
        assert(q[3] == p[3]);
        assert(packet_checksum(q) != packet_checksum(p));
    } else {
        assert(packet_checksum(q) == packet_checksum(p));
    }
}

} // verus!
