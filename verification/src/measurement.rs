//! The telemetry record and its fixed 14-byte, big-endian wire form.
//!
//! The wire form is a byte-exact contract with any consumer:
//!
//! | offset  | field              | type  |
//! |---------|--------------------|-------|
//! | 0..2    | id                 | `u16` |
//! | 2..6    | moisture_frequency | `u32` |
//! | 6..10   | temperature        | `i32` |
//! | 10..12  | capacitor_voltage  | `i16` |
//! | 12..14  | sequence           | `u16` |

use vstd::prelude::*;

verus! {

/// One immutable telemetry record, created once per timing cycle and
/// consumed at most once by the radio publisher.
#[derive(Copy, Clone, Debug, PartialEq, Eq, Structural)]
pub struct Measurement {
    /// Fixed per-device identifier, constant for the device's lifetime.
    pub id: u16,
    /// Pulse count accumulated during the counting window; proportional
    /// to the probe oscillator's frequency.
    pub moisture_frequency: u32,
    /// Raw signed temperature reading; scaling to physical units is a
    /// downstream concern.
    pub temperature: i32,
    /// Raw signed ADC reading of the energy-storage capacitor.
    pub capacitor_voltage: i16,
    /// Per-cycle counter, wrapping silently from 65535 to 0; lets a
    /// consumer detect dropped or duplicated records.
    pub sequence: u16,
}

/// The wire form of one record: exactly 14 bytes, big-endian fields.
pub type Serialized = [u8; 14];

/// How a byte string can fail to be a record.
#[derive(Copy, Clone, Debug, PartialEq, Eq, Structural)]
pub enum MeasurementError {
    /// The data does not have the 14-byte wire length; holds the length seen.
    DataLength(usize),
}

/// The 14 bytes that encode a record, big-endian field by field.
pub open spec fn spec_serialized(m: Measurement) -> Seq<u8> {
    seq![
        ((m.id >> 8) & 0xff) as u8,
        (m.id & 0xff) as u8,
        ((m.moisture_frequency >> 24) & 0xff) as u8,
        ((m.moisture_frequency >> 16) & 0xff) as u8,
        ((m.moisture_frequency >> 8) & 0xff) as u8,
        (m.moisture_frequency & 0xff) as u8,
        (((m.temperature as u32) >> 24) & 0xff) as u8,
        (((m.temperature as u32) >> 16) & 0xff) as u8,
        (((m.temperature as u32) >> 8) & 0xff) as u8,
        ((m.temperature as u32) & 0xff) as u8,
        (((m.capacitor_voltage as u16) >> 8) & 0xff) as u8,
        ((m.capacitor_voltage as u16) & 0xff) as u8,
        ((m.sequence >> 8) & 0xff) as u8,
        (m.sequence & 0xff) as u8,
    ]
}

/// The record that 14 wire bytes stand for.
pub open spec fn spec_parsed(b: Seq<u8>) -> Measurement {
    Measurement {
        id: (b[0] as u16) << 8 | (b[1] as u16),
        moisture_frequency: (b[2] as u32) << 24 | (b[3] as u32) << 16 | (b[4] as u32) << 8
            | (b[5] as u32),
        temperature: ((b[6] as u32) << 24 | (b[7] as u32) << 16 | (b[8] as u32) << 8
            | (b[9] as u32)) as i32,
        capacitor_voltage: ((b[10] as u16) << 8 | (b[11] as u16)) as i16,
        sequence: (b[12] as u16) << 8 | (b[13] as u16),
    }
}

impl Measurement {
    /// Encodes the record into its 14-byte wire form.
    pub fn to_bytes(&self) -> (r: Serialized)
        ensures
            r@ == spec_serialized(*self),
    {
        let r: Serialized = [
            ((self.id >> 8) & 0xff) as u8,
            (self.id & 0xff) as u8,
            ((self.moisture_frequency >> 24) & 0xff) as u8,
            ((self.moisture_frequency >> 16) & 0xff) as u8,
            ((self.moisture_frequency >> 8) & 0xff) as u8,
            (self.moisture_frequency & 0xff) as u8,
            (((self.temperature as u32) >> 24) & 0xff) as u8,
            (((self.temperature as u32) >> 16) & 0xff) as u8,
            (((self.temperature as u32) >> 8) & 0xff) as u8,
            ((self.temperature as u32) & 0xff) as u8,
            (((self.capacitor_voltage as u16) >> 8) & 0xff) as u8,
            ((self.capacitor_voltage as u16) & 0xff) as u8,
            ((self.sequence >> 8) & 0xff) as u8,
            (self.sequence & 0xff) as u8,
        ];
        proof {
            assert(r@ =~= spec_serialized(*self));
        }
        r
    }

    /// Decodes 14 wire bytes into the record they stand for.
    pub fn from_bytes(bytes: Serialized) -> (m: Measurement)
        ensures
            m == spec_parsed(bytes@),
    {
        Measurement {
            id: (bytes[0] as u16) << 8 | (bytes[1] as u16),
            moisture_frequency: (bytes[2] as u32) << 24 | (bytes[3] as u32) << 16
                | (bytes[4] as u32) << 8 | (bytes[5] as u32),
            temperature: #[verifier::truncate] (((bytes[6] as u32) << 24 | (bytes[7] as u32) << 16
                | (bytes[8] as u32) << 8 | (bytes[9] as u32)) as i32),
            capacitor_voltage: #[verifier::truncate] (((bytes[10] as u16) << 8
                | (bytes[11] as u16)) as i16),
            sequence: (bytes[12] as u16) << 8 | (bytes[13] as u16),
        }
    }

    /// Decodes a record from a byte string of arbitrary length, as a
    /// consumer of the wire format receives it; rejects any length other
    /// than the fixed 14 bytes.
    pub fn from_slice(data: &[u8]) -> (r: Result<Measurement, MeasurementError>)
        ensures
            data@.len() == 14 ==> r == Ok::<Measurement, MeasurementError>(spec_parsed(data@)),
            data@.len() != 14 ==> r == Err::<Measurement, MeasurementError>(
                MeasurementError::DataLength(data@.len() as usize),
            ),
    {
        if data.len() != 14 {
            return Err(MeasurementError::DataLength(data.len()));
        }
        let bytes: Serialized = [
            data[0], data[1], data[2], data[3], data[4], data[5], data[6], data[7], data[8],
            data[9], data[10], data[11], data[12], data[13],
        ];
        proof {
            assert(bytes@ =~= data@);
        }
        Ok(Measurement::from_bytes(bytes))
    }
}

/// Law: decoding inverts encoding. Every record, including every boundary
/// value of every field, comes back unchanged from its wire form.
pub proof fn lemma_record_round_trip(m: Measurement)
    ensures
        spec_parsed(spec_serialized(m)) == m,
{
    let id = m.id;
    assert(((((id >> 8) & 0xff) as u8) as u16) << 8 | (((id & 0xff) as u8) as u16) == id)
        by (bit_vector);
    let f = m.moisture_frequency;
    assert((((((f >> 24) & 0xff) as u8) as u32) << 24 | ((((f >> 16) & 0xff) as u8) as u32) << 16
        | ((((f >> 8) & 0xff) as u8) as u32) << 8 | (((f & 0xff) as u8) as u32)) == f)
        by (bit_vector);
    let t = m.temperature;
    let tu = t as u32;
    assert((((((tu >> 24) & 0xff) as u8) as u32) << 24 | ((((tu >> 16) & 0xff) as u8) as u32) << 16
        | ((((tu >> 8) & 0xff) as u8) as u32) << 8 | (((tu & 0xff) as u8) as u32)) == tu)
        by (bit_vector);
    assert((t as u32) as i32 == t) by (bit_vector);
    let v = m.capacitor_voltage;
    let vu = v as u16;
    assert(((((vu >> 8) & 0xff) as u8) as u16) << 8 | (((vu & 0xff) as u8) as u16) == vu)
        by (bit_vector);
    assert((v as u16) as i16 == v) by (bit_vector);
    let s = m.sequence;
    assert(((((s >> 8) & 0xff) as u8) as u16) << 8 | (((s & 0xff) as u8) as u16) == s)
        by (bit_vector);
}

/// Law: encoding inverts decoding. Any 14 bytes re-encode to themselves,
/// so the wire form carries no slack and no two byte strings decode to
/// the same record.
pub proof fn lemma_bytes_round_trip(b: Seq<u8>)
    requires
        b.len() == 14,
    ensures
        spec_serialized(spec_parsed(b)) == b,
{
    let b0 = b[0];
    let b1 = b[1];
    let x = (b0 as u16) << 8 | (b1 as u16);
    assert(((x >> 8) & 0xff) as u8 == b0 && (x & 0xff) as u8 == b1) by (bit_vector)
        requires
            x == (b0 as u16) << 8 | (b1 as u16),
    ;
    let c0 = b[2];
    let c1 = b[3];
    let c2 = b[4];
    let c3 = b[5];
    let y = (c0 as u32) << 24 | (c1 as u32) << 16 | (c2 as u32) << 8 | (c3 as u32);
    assert(((y >> 24) & 0xff) as u8 == c0 && ((y >> 16) & 0xff) as u8 == c1 && ((y >> 8) & 0xff)
        as u8 == c2 && (y & 0xff) as u8 == c3) by (bit_vector)
        requires
            y == (c0 as u32) << 24 | (c1 as u32) << 16 | (c2 as u32) << 8 | (c3 as u32),
    ;
    let d0 = b[6];
    let d1 = b[7];
    let d2 = b[8];
    let d3 = b[9];
    let z = (d0 as u32) << 24 | (d1 as u32) << 16 | (d2 as u32) << 8 | (d3 as u32);
    let zi = z as i32;
    assert((((zi as u32) >> 24) & 0xff) as u8 == d0 && (((zi as u32) >> 16) & 0xff) as u8 == d1
        && (((zi as u32) >> 8) & 0xff) as u8 == d2 && ((zi as u32) & 0xff) as u8 == d3)
        by (bit_vector)
        requires
            z == (d0 as u32) << 24 | (d1 as u32) << 16 | (d2 as u32) << 8 | (d3 as u32),
            zi == z as i32,
    ;
    let e0 = b[10];
    let e1 = b[11];
    let w = (e0 as u16) << 8 | (e1 as u16);
    let wi = w as i16;
    assert((((wi as u16) >> 8) & 0xff) as u8 == e0 && ((wi as u16) & 0xff) as u8 == e1)
        by (bit_vector)
        requires
            w == (e0 as u16) << 8 | (e1 as u16),
            wi == w as i16,
    ;
    let g0 = b[12];
    let g1 = b[13];
    let u = (g0 as u16) << 8 | (g1 as u16);
    assert(((u >> 8) & 0xff) as u8 == g0 && (u & 0xff) as u8 == g1) by (bit_vector)
        requires
            u == (g0 as u16) << 8 | (g1 as u16),
    ;
    assert(spec_serialized(spec_parsed(b)) =~= b);
}

} // verus!
