//! The payload decoder.
//!
//! A validated frame's type tag selects one of a fixed table of payload
//! layouts. Each layout is a sequence of big-endian integer fields at fixed
//! offsets; the decoder reads them into a typed record of raw protocol
//! units. Scale factors to physical units (degrees, metres per second,
//! volts) are fractional and are applied by the caller; the raw fields and
//! the integer offsets of the protocol are decoded here exactly.

use vstd::prelude::*;

verus! {

/// GPS position, speed and heading.
pub const TYPE_GPS: u8 = 0x02;

/// Vertical speed.
pub const TYPE_VARIO: u8 = 0x07;

/// Battery voltage, current, consumed charge and remaining capacity.
pub const TYPE_BATTERY: u8 = 0x08;

/// Barometric altitude.
pub const TYPE_BARO_ALT: u8 = 0x09;

/// Radio link quality statistics.
pub const TYPE_LINK_STATISTICS: u8 = 0x14;

/// Vehicle attitude.
pub const TYPE_ATTITUDE: u8 = 0x1E;

/// A 16-bit big-endian unsigned read.
pub open spec fn be_u16(hi: u8, lo: u8) -> int {
    hi * 256 + lo
}

/// A 16-bit big-endian two's-complement read.
pub open spec fn be_i16(hi: u8, lo: u8) -> int {
    if hi >= 128 {
        hi * 256 + lo - 65536
    } else {
        hi * 256 + lo
    }
}

/// A single byte as a two's-complement signed value.
pub open spec fn sbyte(b: u8) -> int {
    if b >= 128 {
        b - 256
    } else {
        b as int
    }
}

/// A 24-bit big-endian unsigned read.
pub open spec fn be_u24(b0: u8, b1: u8, b2: u8) -> int {
    b0 * 65536 + b1 * 256 + b2
}

/// A 32-bit big-endian two's-complement read.
pub open spec fn be_i32(b0: u8, b1: u8, b2: u8, b3: u8) -> int {
    if b0 >= 128 {
        b0 * 16777216 + b1 * 65536 + b2 * 256 + b3 - 4294967296
    } else {
        b0 * 16777216 + b1 * 65536 + b2 * 256 + b3
    }
}

/// Reads a 16-bit big-endian two's-complement value.
pub fn read_be_i16(hi: u8, lo: u8) -> (r: i16)
    ensures
        r as int == be_i16(hi, lo),
{
    let v: u32 = (hi as u32) * 256 + (lo as u32);
    if v >= 32768 {
        ((v as i32) - 65536) as i16
    } else {
        v as i16
    }
}

/// Reads a single byte as a two's-complement signed value.
pub fn read_sbyte(b: u8) -> (r: i16)
    ensures
        r as int == sbyte(b),
{
    if b >= 128 {
        (b as i16) - 256
    } else {
        b as i16
    }
}

/// Reads a 24-bit big-endian unsigned value.
pub fn read_be_u24(b0: u8, b1: u8, b2: u8) -> (r: u32)
    ensures
        r as int == be_u24(b0, b1, b2),
{
    (b0 as u32) * 65536 + (b1 as u32) * 256 + (b2 as u32)
}

/// Reads a 32-bit big-endian two's-complement value.
pub fn read_be_i32(b0: u8, b1: u8, b2: u8, b3: u8) -> (r: i32)
    ensures
        r as int == be_i32(b0, b1, b2, b3),
{
    let v: u64 = (b0 as u64) * 16777216 + (b1 as u64) * 65536 + (b2 as u64) * 256 + (b3 as u64);
    if v >= 2147483648 {
        ((v as i64) - 4294967296) as i32
    } else {
        v as i32
    }
}

/// One decoded telemetry record. Fields named `*_raw` are in protocol units;
/// the protocol's fractional scale factor to physical units is given beside
/// each. Integer offsets (barometric reference, sign conventions) are already
/// applied.
#[derive(Clone, Copy, PartialEq, Eq, Structural, Debug)]
pub enum DecodedRecord {
    /// Latitude and longitude raw units are 1e-7 degree; ground speed raw
    /// units are 1/36 m/s; heading raw units are 1/100 degree; altitude is
    /// in whole metres (the wire value minus 1000); satellite count is a
    /// plain count.
    Gps {
        latitude_raw: i32,
        longitude_raw: i32,
        groundspeed_raw: i16,
        heading_raw: i16,
        altitude_m: i32,
        satellites: u8,
    },
    /// Vertical speed raw units are 1/10 m/s.
    Vario { vertical_speed_raw: i16 },
    /// Voltage and current raw units are 1/10 V and 1/10 A; consumed charge
    /// is in mAh; remaining capacity is in percent.
    Battery { voltage_raw: i16, current_raw: i16, consumed_mah: u32, percent: u8 },
    /// Altitude raw units are 1/100 m.
    BaroAltitude { altitude_raw: i32 },
    /// Both RSSI values and the SNR are two's-complement signed bytes in
    /// dBm and dB; link quality is a plain percentage byte.
    LinkStatistics { uplink_rssi_1: i16, uplink_rssi_2: i16, link_quality: u8, uplink_snr: i16 },
    /// Pitch, roll and yaw raw units are 1/10000 radian.
    Attitude { pitch_raw: i16, roll_raw: i16, yaw_raw: i16 },
}

/// What decoding one frame yields: a record, or the reason none was made.
/// An unknown tag is a normal outcome kept for forward compatibility, not a
/// failure of the stream.
#[derive(Clone, Copy, PartialEq, Eq, Structural, Debug)]
pub enum DecodeOutcome {
    Record { record: DecodedRecord },
    TruncatedPayload { tag: u8 },
    UnknownType { tag: u8 },
}

/// Whether the decoder has a layout for a type tag.
pub open spec fn known_tag(tag: u8) -> bool {
    ||| tag == TYPE_GPS
    ||| tag == TYPE_VARIO
    ||| tag == TYPE_BATTERY
    ||| tag == TYPE_BARO_ALT
    ||| tag == TYPE_LINK_STATISTICS
    ||| tag == TYPE_ATTITUDE
}

/// How many payload bytes a known tag's layout reads.
pub open spec fn required_payload_len(tag: u8) -> int
    recommends
        known_tag(tag),
{
    if tag == TYPE_GPS {
        15
    } else if tag == TYPE_VARIO {
        2
    } else if tag == TYPE_BATTERY {
        8
    } else if tag == TYPE_BARO_ALT {
        4
    } else if tag == TYPE_LINK_STATISTICS {
        4
    } else {
        6
    }
}

/// The payload of a whole frame: everything between the type byte and the
/// checksum byte.
pub open spec fn payload_of(f: Seq<u8>) -> Seq<u8>
    recommends
        f.len() >= 4,
{
    f.subrange(3, f.len() - 1)
}

/// The record a known tag's layout reads from payload `p`.
pub open spec fn decode_record(tag: u8, p: Seq<u8>) -> DecodedRecord
    recommends
        known_tag(tag),
        p.len() >= required_payload_len(tag),
{
    if tag == TYPE_GPS {
        DecodedRecord::Gps {
            latitude_raw: be_i32(p[0], p[1], p[2], p[3]) as i32,
            longitude_raw: be_i32(p[4], p[5], p[6], p[7]) as i32,
            groundspeed_raw: be_i16(p[8], p[9]) as i16,
            heading_raw: be_i16(p[10], p[11]) as i16,
            altitude_m: (be_i16(p[12], p[13]) - 1000) as i32,
            satellites: p[14],
        }
    } else if tag == TYPE_VARIO {
        DecodedRecord::Vario { vertical_speed_raw: be_i16(p[0], p[1]) as i16 }
    } else if tag == TYPE_BATTERY {
        DecodedRecord::Battery {
            voltage_raw: be_i16(p[0], p[1]) as i16,
            current_raw: be_i16(p[2], p[3]) as i16,
            consumed_mah: be_u24(p[4], p[5], p[6]) as u32,
            percent: p[7],
        }
    } else if tag == TYPE_BARO_ALT {
        DecodedRecord::BaroAltitude { altitude_raw: be_i32(p[0], p[1], p[2], p[3]) as i32 }
    } else if tag == TYPE_LINK_STATISTICS {
        DecodedRecord::LinkStatistics {
            uplink_rssi_1: sbyte(p[0]) as i16,
            uplink_rssi_2: sbyte(p[1]) as i16,
            link_quality: p[2],
            uplink_snr: sbyte(p[3]) as i16,
        }
    } else {
        DecodedRecord::Attitude {
            pitch_raw: be_i16(p[0], p[1]) as i16,
            roll_raw: be_i16(p[2], p[3]) as i16,
            yaw_raw: be_i16(p[4], p[5]) as i16,
        }
    }
}

/// The outcome of decoding a whole frame: dispatch on the type tag, demand
/// the layout's payload length, and read the record.
pub open spec fn decode_spec(f: Seq<u8>) -> DecodeOutcome
    recommends
        f.len() >= 4,
{
    let tag = f[2];
    if !known_tag(tag) {
        DecodeOutcome::UnknownType { tag }
    } else if payload_of(f).len() < required_payload_len(tag) {
        DecodeOutcome::TruncatedPayload { tag }
    } else {
        DecodeOutcome::Record { record: decode_record(tag, payload_of(f)) }
    }
}

/// An unrecognized tag always yields an unknown-type outcome carrying the
/// raw tag, whatever the payload holds.
pub proof fn lemma_unknown_tag(f: Seq<u8>)
    requires
        f.len() >= 4,
        !known_tag(f[2]),
    ensures
        decode_spec(f) == (DecodeOutcome::UnknownType { tag: f[2] }),
{
}

/// A known tag whose frame carries fewer payload bytes than its layout reads
/// always yields a truncated-payload outcome, never a record.
pub proof fn lemma_truncated_payload(f: Seq<u8>)
    requires
        f.len() >= 4,
        known_tag(f[2]),
        f.len() - 4 < required_payload_len(f[2]),
    ensures
        decode_spec(f) == (DecodeOutcome::TruncatedPayload { tag: f[2] }),
{
}

/// Decodes a whole frame. Every field read is bounds-checked against the
/// frame's real length first, so a short payload yields a truncated-payload
/// outcome rather than an out-of-range access.
pub fn decode(frame: &[u8]) -> (r: DecodeOutcome)
    requires
        frame@.len() >= 4,
    ensures
        r == decode_spec(frame@),
{
    let tag = *vstd::slice::slice_index_get(frame, 2);
    let plen = frame.len() - 4;
    let ghost p = payload_of(frame@);
    if tag == TYPE_GPS {
        if plen < 15 {
            return DecodeOutcome::TruncatedPayload { tag };
        }
        let record = DecodedRecord::Gps {
            latitude_raw: read_be_i32(
                *vstd::slice::slice_index_get(frame, 3),
                *vstd::slice::slice_index_get(frame, 4),
                *vstd::slice::slice_index_get(frame, 5),
                *vstd::slice::slice_index_get(frame, 6),
            ),
            longitude_raw: read_be_i32(
                *vstd::slice::slice_index_get(frame, 7),
                *vstd::slice::slice_index_get(frame, 8),
                *vstd::slice::slice_index_get(frame, 9),
                *vstd::slice::slice_index_get(frame, 10),
            ),
            groundspeed_raw: read_be_i16(
                *vstd::slice::slice_index_get(frame, 11),
                *vstd::slice::slice_index_get(frame, 12),
            ),
            heading_raw: read_be_i16(
                *vstd::slice::slice_index_get(frame, 13),
                *vstd::slice::slice_index_get(frame, 14),
            ),
            altitude_m: read_be_i16(
                *vstd::slice::slice_index_get(frame, 15),
                *vstd::slice::slice_index_get(frame, 16),
            ) as i32 - 1000,
            satellites: *vstd::slice::slice_index_get(frame, 17),
        };
        DecodeOutcome::Record { record }
    } else if tag == TYPE_VARIO {
        if plen < 2 {
            return DecodeOutcome::TruncatedPayload { tag };
        }
        let record = DecodedRecord::Vario {
            vertical_speed_raw: read_be_i16(
                *vstd::slice::slice_index_get(frame, 3),
                *vstd::slice::slice_index_get(frame, 4),
            ),
        };
        DecodeOutcome::Record { record }
    } else if tag == TYPE_BATTERY {
        if plen < 8 {
            return DecodeOutcome::TruncatedPayload { tag };
        }
        let record = DecodedRecord::Battery {
            voltage_raw: read_be_i16(
                *vstd::slice::slice_index_get(frame, 3),
                *vstd::slice::slice_index_get(frame, 4),
            ),
            current_raw: read_be_i16(
                *vstd::slice::slice_index_get(frame, 5),
                *vstd::slice::slice_index_get(frame, 6),
            ),
            consumed_mah: read_be_u24(
                *vstd::slice::slice_index_get(frame, 7),
                *vstd::slice::slice_index_get(frame, 8),
                *vstd::slice::slice_index_get(frame, 9),
            ),
            percent: *vstd::slice::slice_index_get(frame, 10),
        };
        DecodeOutcome::Record { record }
    } else if tag == TYPE_BARO_ALT {
        if plen < 4 {
            return DecodeOutcome::TruncatedPayload { tag };
        }
        let record = DecodedRecord::BaroAltitude {
            altitude_raw: read_be_i32(
                *vstd::slice::slice_index_get(frame, 3),
                *vstd::slice::slice_index_get(frame, 4),
                *vstd::slice::slice_index_get(frame, 5),
                *vstd::slice::slice_index_get(frame, 6),
            ),
        };
        DecodeOutcome::Record { record }
    } else if tag == TYPE_LINK_STATISTICS {
        if plen < 4 {
            return DecodeOutcome::TruncatedPayload { tag };
        }
        let record = DecodedRecord::LinkStatistics {
            uplink_rssi_1: read_sbyte(*vstd::slice::slice_index_get(frame, 3)),
            uplink_rssi_2: read_sbyte(*vstd::slice::slice_index_get(frame, 4)),
            link_quality: *vstd::slice::slice_index_get(frame, 5),
            uplink_snr: read_sbyte(*vstd::slice::slice_index_get(frame, 6)),
        };
        DecodeOutcome::Record { record }
    } else if tag == TYPE_ATTITUDE {
        if plen < 6 {
            return DecodeOutcome::TruncatedPayload { tag };
        }
        let record = DecodedRecord::Attitude {
            pitch_raw: read_be_i16(
                *vstd::slice::slice_index_get(frame, 3),
                *vstd::slice::slice_index_get(frame, 4),
            ),
            roll_raw: read_be_i16(
                *vstd::slice::slice_index_get(frame, 5),
                *vstd::slice::slice_index_get(frame, 6),
            ),
            yaw_raw: read_be_i16(
                *vstd::slice::slice_index_get(frame, 7),
                *vstd::slice::slice_index_get(frame, 8),
            ),
        };
        DecodeOutcome::Record { record }
    } else {
        DecodeOutcome::UnknownType { tag }
    }
}

} // verus!
