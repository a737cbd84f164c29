use rs_matter_controller::setup_code::{
    decode_manual_code, parse_manual_pairing_code, parse_qr_payload, parse_setup_code,
    SetupCodeError, SetupPayload,
};

#[test]
fn round_trip_rs_matter_example_1() {
    // password=123456, discriminator=250 → "00876800071"; only the top 4
    // bits of the discriminator (250 >> 8 = 0) survive in a manual code.
    let p = parse_manual_pairing_code("00876800071").unwrap();
    assert_eq!(p.passcode, 123456);
    assert!(p.short_discriminator);
    assert_eq!(p.discriminator, 0);
}

#[test]
fn round_trip_rs_matter_example_2() {
    // password=34567890, discriminator=2976 → "26318621095".
    let p = parse_manual_pairing_code("26318621095").unwrap();
    assert_eq!(p.passcode, 34567890);
    // disc=2976 = 0xBA0, top 4 bits = 0xB.
    assert_eq!(p.discriminator >> 8, 0x0B);
}

#[test]
fn accepts_dashed_pretty_form() {
    let p = parse_manual_pairing_code("0087-6800-071").unwrap();
    assert_eq!(p.passcode, 123456);
}

#[test]
fn rejects_bad_checksum() {
    let r = parse_manual_pairing_code("00876800072");
    assert_eq!(r, Err(SetupCodeError::BadChecksum));
}

#[test]
fn rejects_wrong_length() {
    assert_eq!(parse_manual_pairing_code("12345"), Err(SetupCodeError::BadLength));
    assert_eq!(
        parse_manual_pairing_code("123456789012"),
        Err(SetupCodeError::BadLength)
    );
}

#[test]
fn rejects_non_digit() {
    assert_eq!(
        parse_manual_pairing_code("abcdefghijk"),
        Err(SetupCodeError::NonDigit)
    );
}

#[test]
fn qr_not_yet_supported_returns_clear_error() {
    assert_eq!(
        parse_qr_payload("MT:Y.K9042C00KA0648G00"),
        Err(SetupCodeError::QrNotSupported)
    );
}

#[test]
fn parse_setup_code_dispatches_correctly() {
    assert!(parse_setup_code("00876800071").is_ok());
    assert_eq!(
        parse_setup_code("MT:Y.K9042C00KA0648G00"),
        Err(SetupCodeError::QrNotSupported)
    );
}

#[test]
fn manual_code_payload_has_only_manual_fields() {
    let p = parse_manual_pairing_code("26318621095").unwrap();
    assert_eq!(
        p,
        SetupPayload {
            version: 0,
            vendor_id: None,
            product_id: None,
            commissioning_flow: None,
            discovery_capabilities: None,
            discriminator: 0x0B00,
            short_discriminator: true,
            passcode: 34567890,
        }
    );
}

#[test]
fn spaces_and_dashes_anywhere_are_ignored() {
    let plain = parse_manual_pairing_code("26318621095");
    assert_eq!(parse_manual_pairing_code("2631-862-1095"), plain);
    assert_eq!(parse_manual_pairing_code(" 2 6 3 1 8 6 2 1 0 9 5 "), plain);
    assert_eq!(parse_manual_pairing_code("--26318621095--"), plain);
}

#[test]
fn anything_but_eleven_bytes_is_bad_length() {
    // 11 digits and a 3-byte character: 14 bytes, more than the 13-byte
    // buffer holds.
    assert_eq!(
        parse_manual_pairing_code("00876800071\u{20ac}"),
        Err(SetupCodeError::BadLength)
    );
    // 13 digits.
    assert_eq!(
        parse_manual_pairing_code("0087680007123"),
        Err(SetupCodeError::BadLength)
    );
    // 11 digits and a 2-byte character: 13 bytes.
    assert_eq!(
        parse_manual_pairing_code("00876800071\u{e9}"),
        Err(SetupCodeError::BadLength)
    );
    // Far too long, and the empty input.
    assert_eq!(
        parse_manual_pairing_code("0087680007100876800071"),
        Err(SetupCodeError::BadLength)
    );
    assert_eq!(parse_manual_pairing_code(""), Err(SetupCodeError::BadLength));
    assert_eq!(parse_manual_pairing_code("----"), Err(SetupCodeError::BadLength));
}

#[test]
fn passcode_wider_than_27_bits_is_rejected() {
    // digits 6..10 = 9999: passcode 9999 << 14 = 163823616 >= 2^27.
    let body = "0000009999";
    let check = verhoeff::calculate(body);
    let code = format!("{}{}", body, check);
    assert_eq!(parse_manual_pairing_code(&code), Err(SetupCodeError::InvalidPasscode));
    assert_eq!(decode_manual_code("00000099996", 6), Err(SetupCodeError::InvalidPasscode));
    // 8191 << 14 | 16383 = 2^27 - 1 is accepted.
    assert_eq!(
        decode_manual_code("01638381911", 1).map(|p| p.passcode),
        Ok(134217727)
    );
    // 8192 << 14 = 2^27 is not.
    assert_eq!(decode_manual_code("00000081921", 1), Err(SetupCodeError::InvalidPasscode));
}

#[test]
fn multibyte_character_counts_by_bytes() {
    // 10 digits and a 1-byte non-digit: 11 bytes, not all digits.
    assert_eq!(
        parse_manual_pairing_code("0087680007x"),
        Err(SetupCodeError::NonDigit)
    );
    // 9 digits and a 2-byte character: 11 bytes but a non-digit.
    assert_eq!(
        parse_manual_pairing_code("008768000\u{e9}"),
        Err(SetupCodeError::NonDigit)
    );
}

#[test]
fn middle_field_over_sixteen_bits_is_non_digit() {
    // digits 1..6 = 99999 does not fit in 16 bits. The check digit passed
    // to the decoder is the last digit, so the checksum passes.
    assert_eq!(decode_manual_code("09999900001", 1), Err(SetupCodeError::NonDigit));
}

#[test]
fn vid_pid_flag_is_not_supported() {
    // Leading digit 4..7 sets bit 2 (VID/PID present, 21-digit codes).
    assert_eq!(decode_manual_code("40876800071", 1), Err(SetupCodeError::QrNotSupported));
    assert_eq!(decode_manual_code("70876800071", 1), Err(SetupCodeError::QrNotSupported));
    // 8 and 9 do not set bit 2.
    assert!(decode_manual_code("80876800071", 1).is_ok());
}

#[test]
fn reserved_passcodes_are_rejected() {
    // passcode 0: d1_5 = 0, d6_9 = 0.
    assert_eq!(decode_manual_code("00000000000", 0), Err(SetupCodeError::InvalidPasscode));
    // passcode 12345678 = 753 * 16384 + 8526.
    assert_eq!(decode_manual_code("00852607533", 3), Err(SetupCodeError::InvalidPasscode));
    // passcode 12345679 is fine.
    assert_eq!(
        decode_manual_code("00852707533", 3).map(|p| p.passcode),
        Ok(12345679)
    );
}

#[test]
fn decoder_checks_the_given_check_digit() {
    assert!(decode_manual_code("00876800071", 1).is_ok());
    assert_eq!(decode_manual_code("00876800071", 2), Err(SetupCodeError::BadChecksum));
}

#[test]
fn verhoeff_digit_is_computed_from_the_body() {
    // The body "0087680007" has Verhoeff check digit 1; every other last
    // digit is rejected.
    for d in 0..10u8 {
        let code = format!("0087680007{}", d);
        let r = parse_manual_pairing_code(&code);
        if d == 1 {
            assert!(r.is_ok());
        } else {
            assert_eq!(r, Err(SetupCodeError::BadChecksum));
        }
    }
}

#[test]
fn manual_code_round_trip_for_every_short_discriminator() {
    // Pack (short discriminator, passcode) as the encoder does, append the
    // Verhoeff digit, and parse back.
    for short in 0u32..16 {
        let passcode: u32 = 20202021;
        let d0 = short / 4;
        let d1_5 = (short % 4) * 16384 + passcode % 16384;
        let d6_9 = passcode / 16384;
        let body = format!("{}{:05}{:04}", d0, d1_5, d6_9);
        let check = verhoeff::calculate(body.as_str());
        let code = format!("{}{}", body, check);
        let p = parse_setup_code(&code).unwrap();
        assert_eq!(p.passcode, passcode);
        assert_eq!(p.discriminator, (short as u16) << 8);
    }
}

#[test]
fn qr_prefix_is_required() {
    assert_eq!(parse_qr_payload("00876800071"), Err(SetupCodeError::NotAQrCode));
    assert_eq!(parse_qr_payload("MT"), Err(SetupCodeError::NotAQrCode));
    assert_eq!(parse_qr_payload("mt:ABC"), Err(SetupCodeError::NotAQrCode));
    assert_eq!(parse_qr_payload("MT:"), Err(SetupCodeError::BadLength));
    assert_eq!(parse_setup_code("MT:"), Err(SetupCodeError::BadLength));
    assert_eq!(parse_qr_payload("MT:A"), Err(SetupCodeError::QrNotSupported));
}
