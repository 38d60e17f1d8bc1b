use crsf::decode::{decode, DecodeOutcome, DecodedRecord};
use crsf::frame::encode_frame;
use crsf::pipeline::{Event, Pipeline};

fn attitude_frame() -> Vec<u8> {
    // pitch = 1000, roll = -500, yaw = 250, big-endian 16-bit.
    encode_frame(0x1E, &[0x03, 0xE8, 0xFE, 0x0C, 0x00, 0xFA])
}

fn battery_frame() -> Vec<u8> {
    // voltage 150, current 50, consumed 300, percent 80.
    encode_frame(0x08, &[0x00, 0x96, 0x00, 0x32, 0x00, 0x01, 0x2C, 0x50])
}

fn records_of(events: Vec<Event>) -> Vec<DecodedRecord> {
    let mut out = Vec::new();
    for e in events {
        if let Event::Record { record } = e {
            out.push(record);
        }
    }
    out
}

#[test]
fn attitude_round_trip() {
    let mut pipeline = Pipeline::new();
    let events = pipeline.feed(&attitude_frame());
    assert_eq!(events.len(), 1);
    match &events[0] {
        Event::Record { record: DecodedRecord::Attitude { pitch_raw, roll_raw, yaw_raw } } => {
            assert_eq!(*pitch_raw, 1000);
            assert_eq!(*roll_raw, -500);
            assert_eq!(*yaw_raw, 250);
            // Raw units are 1/10000 radian.
            assert!((*pitch_raw as f64 / 10000.0 - 0.1).abs() < 1e-12);
            assert!((*roll_raw as f64 / 10000.0 - (-0.05)).abs() < 1e-12);
            assert!((*yaw_raw as f64 / 10000.0 - 0.025).abs() < 1e-12);
        }
        _ => panic!("expected one decoded attitude record"),
    }
    assert_eq!(pipeline.buffered(), 0);
}

#[test]
fn battery_decodes_scaled_fields() {
    let mut pipeline = Pipeline::new();
    let events = pipeline.feed(&battery_frame());
    assert_eq!(events.len(), 1);
    match &events[0] {
        Event::Record {
            record: DecodedRecord::Battery { voltage_raw, current_raw, consumed_mah, percent },
        } => {
            assert_eq!(*voltage_raw, 150);
            assert_eq!(*current_raw, 50);
            assert_eq!(*consumed_mah, 300);
            assert_eq!(*percent, 80);
            // Raw units are 1/10 V and 1/10 A.
            assert!((*voltage_raw as f64 / 10.0 - 15.0).abs() < 1e-12);
            assert!((*current_raw as f64 / 10.0 - 5.0).abs() < 1e-12);
        }
        _ => panic!("expected one decoded battery record"),
    }
}

#[test]
fn vario_decodes_signed_speed() {
    let mut pipeline = Pipeline::new();
    let events = pipeline.feed(&[0xC8, 0x04, 0x07, 0xFF, 0xF6, 0x5E]);
    assert_eq!(events.len(), 1);
    match &events[0] {
        Event::Record { record: DecodedRecord::Vario { vertical_speed_raw } } => {
            assert_eq!(*vertical_speed_raw, -10);
            assert!((*vertical_speed_raw as f64 / 10.0 - (-1.0)).abs() < 1e-12);
        }
        _ => panic!("expected one decoded vario record"),
    }
}

#[test]
fn gps_decodes_all_fields() {
    let payload = [
        0x00, 0x00, 0x00, 0x01, // latitude 1
        0xFF, 0xFF, 0xFF, 0xFF, // longitude -1
        0x00, 0x24, // ground speed 36
        0xFF, 0x9C, // heading -100
        0x03, 0xE8, // altitude 1000 on the wire, 0 m after the offset
        0x07, // 7 satellites
    ];
    let mut pipeline = Pipeline::new();
    let events = pipeline.feed(&encode_frame(0x02, &payload));
    assert_eq!(events.len(), 1);
    match &events[0] {
        Event::Record {
            record:
                DecodedRecord::Gps {
                    latitude_raw,
                    longitude_raw,
                    groundspeed_raw,
                    heading_raw,
                    altitude_m,
                    satellites,
                },
        } => {
            assert_eq!(*latitude_raw, 1);
            assert_eq!(*longitude_raw, -1);
            assert_eq!(*groundspeed_raw, 36);
            assert_eq!(*heading_raw, -100);
            assert_eq!(*altitude_m, 0);
            assert_eq!(*satellites, 7);
        }
        _ => panic!("expected one decoded GPS record"),
    }
}

#[test]
fn baro_altitude_decodes_32_bit() {
    let mut pipeline = Pipeline::new();
    let events = pipeline.feed(&encode_frame(0x09, &[0x00, 0x00, 0x30, 0x39]));
    assert_eq!(events.len(), 1);
    match &events[0] {
        Event::Record { record: DecodedRecord::BaroAltitude { altitude_raw } } => {
            assert_eq!(*altitude_raw, 12345);
        }
        _ => panic!("expected one decoded barometric altitude record"),
    }
}

#[test]
fn link_statistics_decodes_signed_bytes() {
    let mut pipeline = Pipeline::new();
    let events = pipeline.feed(&encode_frame(0x14, &[0xB0, 0xB4, 0x63, 0x09]));
    assert_eq!(events.len(), 1);
    match &events[0] {
        Event::Record {
            record:
                DecodedRecord::LinkStatistics {
                    uplink_rssi_1,
                    uplink_rssi_2,
                    link_quality,
                    uplink_snr,
                },
        } => {
            assert_eq!(*uplink_rssi_1, -80);
            assert_eq!(*uplink_rssi_2, -76);
            assert_eq!(*link_quality, 99);
            assert_eq!(*uplink_snr, 9);
        }
        _ => panic!("expected one decoded link statistics record"),
    }
}

#[test]
fn corrupted_checksum_reports_error_never_a_record() {
    let mut frame = attitude_frame();
    let last = frame.len() - 1;
    frame[last] ^= 0xFF;
    let mut pipeline = Pipeline::new();
    let events = pipeline.feed(&frame);
    assert_eq!(events.len(), 1);
    match &events[0] {
        Event::ChecksumError { frame: reported } => assert_eq!(*reported, frame),
        _ => panic!("expected exactly one checksum error event"),
    }
}

#[test]
fn unknown_type_is_reported_not_an_error() {
    let frame = encode_frame(0xFF, &[]);
    assert_eq!(frame, vec![0xC8, 0x02, 0xFF, 0xF9]);
    let mut pipeline = Pipeline::new();
    let events = pipeline.feed(&frame);
    assert_eq!(events.len(), 1);
    match &events[0] {
        Event::UnknownType { tag, frame: reported } => {
            assert_eq!(*tag, 0xFF);
            assert_eq!(*reported, frame);
        }
        _ => panic!("expected exactly one unknown-type event"),
    }
}

#[test]
fn short_payload_reports_truncated() {
    // An attitude frame whose declared length is in range and whose checksum
    // is correct, but whose payload is shorter than the attitude layout.
    let frame = encode_frame(0x1E, &[0x03, 0xE8]);
    let mut pipeline = Pipeline::new();
    let events = pipeline.feed(&frame);
    assert_eq!(events.len(), 1);
    match &events[0] {
        Event::TruncatedPayload { tag, frame: reported } => {
            assert_eq!(*tag, 0x1E);
            assert_eq!(*reported, frame);
        }
        _ => panic!("expected exactly one truncated-payload event"),
    }
}

#[test]
fn truncated_decode_never_reads_out_of_bounds() {
    // decode itself on a checksummed frame shorter than every layout.
    let frame = encode_frame(0x08, &[0x01]);
    assert_eq!(decode(&frame), DecodeOutcome::TruncatedPayload { tag: 0x08 });
}

#[test]
fn implausible_length_discards_buffer_then_recovers() {
    let mut pipeline = Pipeline::new();
    // A partial frame waits in the buffer...
    let af = attitude_frame();
    assert!(pipeline.feed(&af[..4]).is_empty());
    assert_eq!(pipeline.buffered(), 4);
    // ...then garbage with length field 0xFF (declared size 257) arrives at
    // the front of a fresh buffer after the discard below.
    let garbage = [0x55, 0xFF, 0x01, 0x02];
    let mut pipeline2 = Pipeline::new();
    let events = pipeline2.feed(&garbage);
    assert_eq!(events.len(), 1);
    assert!(matches!(events[0], Event::DesyncDiscard));
    assert_eq!(pipeline2.buffered(), 0);
    // Valid frames appended afterward are unaffected.
    let events = pipeline2.feed(&battery_frame());
    assert_eq!(records_of(events).len(), 1);
}

#[test]
fn desync_discards_partially_buffered_frame_too() {
    let mut pipeline = Pipeline::new();
    // One complete valid frame, then two garbage bytes whose length field is
    // implausible: the frame is extracted, the garbage discarded whole.
    let mut chunk = attitude_frame();
    chunk.extend_from_slice(&[0x00, 0xFF]);
    let events = pipeline.feed(&chunk);
    assert_eq!(events.len(), 2);
    assert!(matches!(events[0], Event::Record { .. }));
    assert!(matches!(events[1], Event::DesyncDiscard));
    assert_eq!(pipeline.buffered(), 0);
}

#[test]
fn frame_split_across_reads_is_reassembled() {
    let frame = battery_frame();
    let mut pipeline = Pipeline::new();
    let events = pipeline.feed(&frame[..5]);
    assert!(events.is_empty());
    assert_eq!(pipeline.buffered(), 5);
    let events = pipeline.feed(&frame[5..]);
    assert_eq!(records_of(events).len(), 1);
    assert_eq!(pipeline.buffered(), 0);
}

#[test]
fn one_byte_chunks_extract_the_same_frames() {
    let mut stream = Vec::new();
    stream.extend_from_slice(&attitude_frame());
    stream.extend_from_slice(&battery_frame());
    stream.extend_from_slice(&encode_frame(0xFF, &[]));
    stream.extend_from_slice(&attitude_frame()[..6]); // trailing partial frame

    let mut whole = Pipeline::new();
    let single_pass: Vec<Event> = whole.feed(&stream);

    let mut chunked = Pipeline::new();
    let mut byte_at_a_time: Vec<Event> = Vec::new();
    for b in &stream {
        byte_at_a_time.extend(chunked.feed(&[*b]));
    }

    assert_eq!(single_pass.len(), byte_at_a_time.len());
    assert_eq!(records_of(single_pass), records_of(byte_at_a_time));
    assert_eq!(whole.buffered(), chunked.buffered());
}

#[test]
fn empty_read_produces_nothing() {
    let mut pipeline = Pipeline::new();
    assert!(pipeline.feed(&[]).is_empty());
    assert_eq!(pipeline.buffered(), 0);
}

#[test]
fn largest_frame_is_extracted_smallest_too() {
    // Largest frame the protocol allows: 60 payload bytes, 64 in all.
    let payload = [0xAB; 60];
    let frame = encode_frame(0x7F, &payload);
    assert_eq!(frame.len(), 64);
    assert_eq!(frame[1], 62);
    let mut pipeline = Pipeline::new();
    let events = pipeline.feed(&frame);
    assert_eq!(events.len(), 1);
    assert!(matches!(events[0], Event::UnknownType { tag: 0x7F, .. }));
    // Smallest: empty payload, 4 bytes in all.
    let events = pipeline.feed(&encode_frame(0x7E, &[]));
    assert_eq!(events.len(), 1);
    assert!(matches!(events[0], Event::UnknownType { tag: 0x7E, .. }));
}

#[test]
fn length_just_over_the_bound_desynchronizes() {
    // Length field 63 declares 65 bytes, one over the protocol maximum.
    let mut pipeline = Pipeline::new();
    let events = pipeline.feed(&[0xC8, 63]);
    assert_eq!(events.len(), 1);
    assert!(matches!(events[0], Event::DesyncDiscard));
}

#[test]
fn two_frames_in_one_chunk_come_out_in_order() {
    let mut chunk = battery_frame();
    chunk.extend_from_slice(&attitude_frame());
    let mut pipeline = Pipeline::new();
    let records = records_of(pipeline.feed(&chunk));
    assert_eq!(records.len(), 2);
    assert!(matches!(records[0], DecodedRecord::Battery { .. }));
    assert!(matches!(records[1], DecodedRecord::Attitude { .. }));
}
