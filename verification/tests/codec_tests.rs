use gnopi::codec::{decode, encode, PrefsDecodeError, PrefsRecord};
use gnopi::AppMode;

fn record(mode: AppMode, timeout_bits: u32, digits_per_row: u8) -> PrefsRecord {
    PrefsRecord { mode, timeout_bits, digits_per_row }
}

#[test]
fn encode_disabled_timeout_exact_bytes() {
    let bytes = encode(&record(AppMode::Learn, 0, 12));
    assert_eq!(bytes, vec![1, 0, 0, 0, 0, 12]);
    let back = decode(&bytes).unwrap();
    assert_eq!(back, record(AppMode::Learn, 0, 12));
}

#[test]
fn encode_two_second_timeout_exact_bytes() {
    let bits = 2.0f32.to_bits();
    let bytes = encode(&record(AppMode::Blind, bits, 10));
    assert_eq!(bytes, vec![0, 0x40, 0x00, 0x00, 0x00, 10]);
    let back = decode(&bytes).unwrap();
    assert_eq!(back, record(AppMode::Blind, bits, 10));
}

#[test]
fn round_trip_every_mode() {
    for mode in [AppMode::Blind, AppMode::Learn, AppMode::InstantDeath] {
        for secs in [0.5f32, 1.0, 2.0, 7.5, 15.0] {
            let r = record(mode, secs.to_bits(), 42);
            assert_eq!(decode(&encode(&r)).unwrap(), r);
        }
        let disabled = record(mode, 0, 5);
        assert_eq!(decode(&encode(&disabled)).unwrap(), disabled);
    }
}

#[test]
fn round_trip_smallest_and_largest_finite_timeout() {
    let tiny = record(AppMode::Learn, 1, 5);
    assert_eq!(decode(&encode(&tiny)).unwrap(), tiny);
    let huge = record(AppMode::Learn, f32::MAX.to_bits(), 255);
    assert_eq!(decode(&encode(&huge)).unwrap(), huge);
}

#[test]
fn decode_rejects_wrong_length() {
    assert_eq!(decode(&[1, 0, 0, 0, 0]), Err(PrefsDecodeError::BadLength));
    assert_eq!(decode(&[1, 0, 0, 0, 0, 12, 0]), Err(PrefsDecodeError::BadLength));
    assert_eq!(decode(&[]), Err(PrefsDecodeError::BadLength));
}

#[test]
fn decode_rejects_unmapped_mode() {
    assert_eq!(decode(&[3, 0, 0, 0, 0, 12]), Err(PrefsDecodeError::BadMode));
    assert_eq!(decode(&[255, 0, 0, 0, 0, 12]), Err(PrefsDecodeError::BadMode));
}

#[test]
fn decode_rejects_narrow_rows() {
    assert_eq!(decode(&[1, 0, 0, 0, 0, 4]), Err(PrefsDecodeError::BadRowWidth));
    assert_eq!(decode(&[1, 0, 0, 0, 0, 0]), Err(PrefsDecodeError::BadRowWidth));
    assert!(decode(&[1, 0, 0, 0, 0, 5]).is_ok());
}

#[test]
fn decode_rejects_negative_timeout() {
    let neg = (-1.0f32).to_bits().to_be_bytes();
    let bytes = [1, neg[0], neg[1], neg[2], neg[3], 12];
    assert_eq!(decode(&bytes), Err(PrefsDecodeError::BadTimeout));
}

#[test]
fn decode_rejects_non_finite_timeout() {
    for bad in [f32::NAN, f32::INFINITY, f32::NEG_INFINITY] {
        let b = bad.to_bits().to_be_bytes();
        let bytes = [1, b[0], b[1], b[2], b[3], 12];
        assert_eq!(decode(&bytes), Err(PrefsDecodeError::BadTimeout));
    }
}

#[test]
fn decode_reads_negative_zero_as_disabled() {
    let b = (-0.0f32).to_bits().to_be_bytes();
    let bytes = [2, b[0], b[1], b[2], b[3], 9];
    let r = decode(&bytes).unwrap();
    assert_eq!(r, record(AppMode::InstantDeath, 0, 9));
}

#[test]
fn decode_checks_mode_before_row_width_and_timeout() {
    let neg = (-1.0f32).to_bits().to_be_bytes();
    let bytes = [9, neg[0], neg[1], neg[2], neg[3], 2];
    assert_eq!(decode(&bytes), Err(PrefsDecodeError::BadMode));
}

#[test]
fn mode_codes_map_both_ways() {
    assert_eq!(AppMode::Blind.code(), 0);
    assert_eq!(AppMode::Learn.code(), 1);
    assert_eq!(AppMode::InstantDeath.code(), 2);
    for mode in [AppMode::Blind, AppMode::Learn, AppMode::InstantDeath] {
        assert_eq!(AppMode::from_code(mode.code()), Some(mode));
    }
    assert_eq!(AppMode::from_code(3), None);
    assert_eq!(AppMode::from_code(200), None);
}
