use backend::charger_uid::{
    decode_charger_uid, encode_charger_uid, zbase32_decode, zbase32_encode, ZBASE32_UID_THRESHOLD,
};
use backend::validation::validate_charger_id;

#[test]
fn zbase32_decode_matches_known_values() {
    // 0
    assert_eq!(zbase32_decode("y"), Some(0));
    // 1
    assert_eq!(zbase32_decode("b"), Some(1));
    // 32 = 1*32 + 0
    assert_eq!(zbase32_decode("by"), Some(32));
    // 32^3 - 1 = 32767 = 31*32^2 + 31*32 + 31
    assert_eq!(zbase32_decode("999"), Some(32_u32.pow(3) - 1));
    // The cutoff value; the decoder itself does not care about it.
    assert_eq!(zbase32_decode("855m"), Some(257_899));
    // 257_900 = 7*32^3 + 27*32^2 + 27*32 + 12
    assert_eq!(zbase32_decode("855c"), Some(257_900));
    // u32::MAX
    assert_eq!(zbase32_decode("d999999"), Some(u32::MAX));
}

#[test]
fn zbase32_decode_is_case_insensitive() {
    assert_eq!(zbase32_decode("Y"), Some(0));
    assert_eq!(zbase32_decode("B"), Some(1));
    assert_eq!(zbase32_decode("BY"), Some(32));
    assert_eq!(zbase32_decode("d999999"), zbase32_decode("D999999"));
}

#[test]
fn zbase32_decode_rejects_invalid_characters() {
    // '0', 'l', 'v', '2' are not in the z-base-32 alphabet.
    assert_eq!(zbase32_decode("0"), None);
    assert_eq!(zbase32_decode("l"), None);
    assert_eq!(zbase32_decode("v"), None);
    assert_eq!(zbase32_decode("2"), None);
    assert_eq!(zbase32_decode("y0"), None);
    // Characters that aren't ASCII at all are also rejected.
    assert_eq!(zbase32_decode("\u{00e9}"), None);
}

#[test]
fn zbase32_encode_matches_known_values() {
    assert_eq!(zbase32_encode(0), "y");
    assert_eq!(zbase32_encode(1), "b");
    assert_eq!(zbase32_encode(31), "9");
    assert_eq!(zbase32_encode(32), "by");
    assert_eq!(zbase32_encode(257_899), "855m");
    assert_eq!(zbase32_encode(257_900), "855c");
    assert_eq!(zbase32_encode(u32::MAX), "d999999");
}

#[test]
fn zbase32_encode_decode_round_trip() {
    // A spread of values around and above the cutoff.
    for value in [
        0u32,
        1,
        31,
        32,
        33,
        ZBASE32_UID_THRESHOLD - 1,
        ZBASE32_UID_THRESHOLD,
        ZBASE32_UID_THRESHOLD + 1,
        1_000_000,
        u32::MAX - 1,
        u32::MAX,
    ] {
        let encoded = zbase32_encode(value);
        assert_eq!(
            zbase32_decode(&encoded),
            Some(value),
            "z-base-32 round-trip failed for {value}: encoded as {encoded}",
        );
    }
}

#[test]
fn decode_charger_uid_picks_zbase32_above_threshold() {
    // 257_900 is the smallest UID the frontend encodes as z-base-32.
    assert_eq!(decode_charger_uid("855c"), Some(257_900));
    // Larger values round-trip too.
    assert_eq!(decode_charger_uid("d999999"), Some(u32::MAX as i32));
}

#[test]
fn decode_charger_uid_picks_base58_at_or_below_threshold() {
    // 257_899 is the largest UID the frontend encodes as base58.
    let base58_257_899 = bs58::encode(257_899_i32.to_be_bytes())
        .with_alphabet(bs58::Alphabet::FLICKR)
        .into_string();
    assert_eq!(decode_charger_uid(&base58_257_899), Some(257_899));
    // "855m" reads as 257_899 in z-base-32, which is not above the cutoff,
    // so it is read as Flickr-base58 instead.
    assert_eq!(decode_charger_uid("855m"), Some(1_379_492));
    // UID 100 in base58.
    let base58_100 = bs58::encode(100_i32.to_be_bytes())
        .with_alphabet(bs58::Alphabet::FLICKR)
        .into_string();
    assert_eq!(decode_charger_uid(&base58_100), Some(100));
}

#[test]
fn decode_charger_uid_rejects_garbage() {
    // '0' is invalid in both alphabets.
    assert_eq!(decode_charger_uid("0"), None);
    // 'l' is invalid in both alphabets.
    assert_eq!(decode_charger_uid("l"), None);
    // Mixed invalid characters are caught even mid-string.
    assert_eq!(decode_charger_uid("by0"), None);
}

#[test]
fn validate_charger_id_accepts_zbase32_above_threshold() {
    // 257_900 in z-base-32 is "855c".
    assert!(validate_charger_id("855c").is_ok());
    // u32::MAX in z-base-32 is "d999999".
    assert!(validate_charger_id("d999999").is_ok());
}

#[test]
fn validate_charger_id_accepts_base58_at_or_below_threshold() {
    // 257_899 in base58.
    let base58_257_899 = bs58::encode(257_899_i32.to_be_bytes())
        .with_alphabet(bs58::Alphabet::FLICKR)
        .into_string();
    assert!(validate_charger_id(&base58_257_899).is_ok());
    // 0 in base58.
    let base58_0 = bs58::encode(0_i32.to_be_bytes())
        .with_alphabet(bs58::Alphabet::FLICKR)
        .into_string();
    assert!(validate_charger_id(&base58_0).is_ok());
}

#[test]
fn validate_charger_id_rejects_invalid_input() {
    // '0' is not in either alphabet.
    assert!(validate_charger_id("0").is_err());
    // 'l' is not in either alphabet.
    assert!(validate_charger_id("l").is_err());
    // Non-ASCII characters are rejected.
    assert!(validate_charger_id("\u{00e9}").is_err());
}

#[test]
fn encode_charger_uid_picks_zbase32_above_threshold() {
    // UIDs strictly greater than the cutoff are encoded as z-base-32.
    assert_eq!(encode_charger_uid(257_900), zbase32_encode(257_900));
    assert_eq!(encode_charger_uid(i32::MAX), zbase32_encode(i32::MAX as u32));
}

#[test]
fn encode_charger_uid_picks_base58_at_or_below_threshold() {
    // The cutoff value and everything below it keeps the Flickr-base58
    // encoding.
    let base58_257_899 = bs58::encode(257_899_i32.to_be_bytes())
        .with_alphabet(bs58::Alphabet::FLICKR)
        .into_string();
    assert_eq!(encode_charger_uid(257_899), base58_257_899);
    let base58_0 = bs58::encode(0_i32.to_be_bytes())
        .with_alphabet(bs58::Alphabet::FLICKR)
        .into_string();
    assert_eq!(encode_charger_uid(0), base58_0);
}

#[test]
fn encode_charger_uid_round_trips_through_decode() {
    // In the base58 branch the encoded UIDs contain a character outside the
    // z-base-32 alphabet, so decoding them is unambiguous.
    for uid in [100i32, 101, 257_899] {
        let encoded = encode_charger_uid(uid);
        assert!(
            encoded.chars().any(|c| matches!(c, '0' | '2' | 'l' | 'v' | 'L' | 'V')),
            "base58 string for uid {uid} should contain a disambiguating char (0/2/l/v); got {encoded:?}",
        );
        assert_eq!(
            decode_charger_uid(&encoded),
            Some(uid),
            "round-trip failed for uid {uid}: encoded as {encoded}",
        );
    }
    // In the z-base-32 branch any string that decodes above the cutoff is
    // read as z-base-32.
    for uid in [ZBASE32_UID_THRESHOLD as i32 + 1, 1_000_000, i32::MAX] {
        let encoded = encode_charger_uid(uid);
        assert_eq!(
            zbase32_decode(&encoded),
            Some(uid as u32),
            "z-base-32 string for uid {uid} should round-trip; got {encoded:?}",
        );
        assert_eq!(
            decode_charger_uid(&encoded),
            Some(uid),
            "round-trip failed for uid {uid}: encoded as {encoded}",
        );
    }
}
