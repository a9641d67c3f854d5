//! Wire-schema tests: exact byte layouts, round trips in both schema
//! families, and every decoder rejection.
use rswave_core::packets::{
    decode_ack, decode_hello, decode_novelty, decode_novelty_beats, decode_set_mode, encode_ack,
    encode_hello, encode_novelty, encode_novelty_beats, encode_set_mode, AckPacket, DataMode,
    GoodbyeData, HelloPacket, NoveltyBeatsModeData, NoveltyBeatsModePacket, NoveltyModeData,
    NoveltyModePacket, ProtocolError, SetModePacket, MAX_PACKET_SIZE,
};

fn novelty_data_bytes(value: f64, peak: f64) -> Vec<u8> {
    let mut v = vec![0u8];
    v.extend_from_slice(&value.to_bits().to_le_bytes());
    v.extend_from_slice(&peak.to_bits().to_le_bytes());
    v
}

fn beats_data_bytes(value: f64, peak: f64, beat: bool) -> Vec<u8> {
    let mut v = novelty_data_bytes(value, peak);
    v.push(if beat { 1 } else { 0 });
    v
}

#[test]
fn hello_layout_and_round_trip() {
    let p = HelloPacket { magic: 0x42, random: 0x17 };
    let bytes = encode_hello(&p);
    assert_eq!(bytes, vec![0x42u8, 0x17]);
    assert_eq!(decode_hello(&bytes), Ok(p));
}

#[test]
fn hello_rejections() {
    assert_eq!(decode_hello(&[]), Err(ProtocolError::BadLength));
    assert_eq!(decode_hello(&[0x42]), Err(ProtocolError::BadLength));
    assert_eq!(decode_hello(&[0x42, 1, 2]), Err(ProtocolError::BadLength));
    assert_eq!(decode_hello(&[0xFF, 0x17]), Err(ProtocolError::BadMagic));
}

#[test]
fn set_mode_round_trip_both_families() {
    for mode in [DataMode::Novelty, DataMode::NoveltyBeats] {
        let p = SetModePacket { mode };
        let bytes = encode_set_mode(&p);
        assert_eq!(bytes.len(), 1);
        assert_eq!(decode_set_mode(&bytes), Ok(p));
    }
    assert_eq!(encode_set_mode(&SetModePacket { mode: DataMode::Novelty }), vec![0u8]);
    assert_eq!(encode_set_mode(&SetModePacket { mode: DataMode::NoveltyBeats }), vec![1u8]);
}

#[test]
fn set_mode_rejections() {
    assert_eq!(decode_set_mode(&[]), Err(ProtocolError::BadLength));
    assert_eq!(decode_set_mode(&[0, 0]), Err(ProtocolError::BadLength));
    assert_eq!(decode_set_mode(&[2]), Err(ProtocolError::IllegalMode));
}

#[test]
fn novelty_family_round_trips() {
    let data = NoveltyModePacket::Data(NoveltyModeData {
        value: (0.8f64).to_bits(),
        peak: (1.0f64).to_bits(),
    });
    let bytes = encode_novelty(&data);
    assert_eq!(bytes, novelty_data_bytes(0.8, 1.0));
    assert_eq!(bytes.len(), 17);
    assert_eq!(decode_novelty(&bytes), Ok(data));

    let abort = NoveltyModePacket::Abort;
    assert_eq!(decode_novelty(&encode_novelty(&abort)), Ok(abort));

    let goodbye = NoveltyModePacket::Goodbye(GoodbyeData { magic: 0x42, force: true });
    let gb = encode_novelty(&goodbye);
    assert_eq!(gb, vec![2u8, 0x42, 1]);
    assert_eq!(decode_novelty(&gb), Ok(goodbye));
}

#[test]
fn novelty_beats_family_round_trips() {
    for beat in [false, true] {
        let data = NoveltyBeatsModePacket::Data(NoveltyBeatsModeData {
            novelty: NoveltyModeData { value: (0.5f64).to_bits(), peak: (2.0f64).to_bits() },
            beat,
        });
        let bytes = encode_novelty_beats(&data);
        assert_eq!(bytes, beats_data_bytes(0.5, 2.0, beat));
        assert_eq!(bytes.len(), 18);
        assert_eq!(decode_novelty_beats(&bytes), Ok(data));
    }

    let abort = NoveltyBeatsModePacket::Abort;
    assert_eq!(decode_novelty_beats(&encode_novelty_beats(&abort)), Ok(abort));

    let goodbye = NoveltyBeatsModePacket::Goodbye(GoodbyeData { magic: 0x42, force: false });
    let gb = encode_novelty_beats(&goodbye);
    assert_eq!(gb, vec![2u8, 0x42, 0]);
    assert_eq!(decode_novelty_beats(&gb), Ok(goodbye));
}

#[test]
fn streaming_rejections() {
    // Empty buffer.
    assert_eq!(decode_novelty(&[]), Err(ProtocolError::BadLength));
    assert_eq!(decode_novelty_beats(&[]), Err(ProtocolError::BadLength));
    // Unknown tag.
    assert_eq!(decode_novelty(&[9]), Err(ProtocolError::IllegalTag));
    assert_eq!(decode_novelty_beats(&[9]), Err(ProtocolError::IllegalTag));
    // Truncated data payloads.
    assert_eq!(decode_novelty(&[0, 1, 2, 3]), Err(ProtocolError::BadLength));
    assert_eq!(decode_novelty_beats(&[0, 1, 2, 3]), Err(ProtocolError::BadLength));
    // Abort carries nothing.
    assert_eq!(decode_novelty(&[1, 0]), Err(ProtocolError::BadLength));
    // Goodbye with the wrong magic.
    assert_eq!(decode_novelty(&[2, 0xFF, 0]), Err(ProtocolError::BadMagic));
    assert_eq!(decode_novelty_beats(&[2, 0xFF, 0]), Err(ProtocolError::BadMagic));
    // Goodbye with a non-boolean force byte.
    assert_eq!(decode_novelty(&[2, 0x42, 2]), Err(ProtocolError::IllegalBool));
    // Beat byte must be 0 or 1.
    let mut bad_beat = beats_data_bytes(0.5, 2.0, false);
    bad_beat[17] = 7;
    assert_eq!(decode_novelty_beats(&bad_beat), Err(ProtocolError::IllegalBool));
}

#[test]
fn family_shapes_are_disjoint() {
    // A Novelty-family Data payload is one byte short for the beats family,
    // and vice versa: neither ever decodes under the other family.
    let novelty = novelty_data_bytes(0.8, 1.0);
    assert_eq!(decode_novelty_beats(&novelty), Err(ProtocolError::BadLength));
    let beats = beats_data_bytes(0.8, 1.0, true);
    assert_eq!(decode_novelty(&beats), Err(ProtocolError::BadLength));
}

#[test]
fn ack_round_trips_and_rejections() {
    for (ack, byte) in [
        (AckPacket::Okay, 0u8),
        (AckPacket::Quit, 1),
        (AckPacket::Abort, 2),
    ] {
        let bytes = encode_ack(&ack);
        assert_eq!(bytes, vec![byte]);
        assert_eq!(decode_ack(&bytes), Ok(ack));
    }
    assert_eq!(decode_ack(&[]), Err(ProtocolError::BadLength));
    assert_eq!(decode_ack(&[0, 0]), Err(ProtocolError::BadLength));
    assert_eq!(decode_ack(&[3]), Err(ProtocolError::IllegalTag));
}

#[test]
fn every_encoding_fits_one_datagram() {
    let encodings = vec![
        encode_hello(&HelloPacket { magic: 0x42, random: 0xFF }),
        encode_set_mode(&SetModePacket { mode: DataMode::NoveltyBeats }),
        encode_novelty(&NoveltyModePacket::Data(NoveltyModeData {
            value: u64::MAX,
            peak: u64::MAX,
        })),
        encode_novelty_beats(&NoveltyBeatsModePacket::Data(NoveltyBeatsModeData {
            novelty: NoveltyModeData { value: u64::MAX, peak: u64::MAX },
            beat: true,
        })),
        encode_ack(&AckPacket::Abort),
    ];
    for e in encodings {
        assert!(e.len() <= MAX_PACKET_SIZE);
    }
}
