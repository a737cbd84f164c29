//! Onboarding payload decoders (Matter Core Spec §5.1 "Onboarding Payload").
//!
//! Matter accessories present commissioners with a setup credential in
//! one of two forms:
//!
//! 1. **Manual pairing code** — 11 decimal digits, often pretty-printed
//!    with dashes (`1234-567-8910` → `12345678910`). Carries the *short*
//!    discriminator (4 high bits of the 12-bit one) and the 27-bit
//!    passcode plus a Verhoeff check digit.
//! 2. **QR-code payload** — a base-38-encoded string prefixed with
//!    `MT:`. Carries the full payload; decoding it is not supported yet.
//!
//! This module produces a [`SetupPayload`] from either form. The
//! commissioner state machine consumes it.

use vstd::prelude::*;
use vstd::utf8::{
    encode_scalar, encode_utf8, encode_utf8_decode_utf8, encode_utf8_valid_utf8, is_ascii_chars,
    is_ascii_chars_encode_utf8, is_char_boundary_iff_not_is_continuation_byte,
};
use verhoeff::Verhoeff;

use crate::fixed::{code_buffer_as_str, code_buffer_chars, code_buffer_new, code_buffer_push};

verus! {

/// Decoded onboarding payload as carried in either a manual pairing
/// code or a QR-code string.
///
/// Fields the manual code can't supply (vendor/product IDs, discovery
/// capabilities, *full* 12-bit discriminator) are `None` when the source
/// was a manual code.
#[derive(Debug, Clone, Copy, PartialEq, Eq, Structural)]
pub struct SetupPayload {
    /// Payload version. `0` for current Matter spec.
    pub version: u8,
    /// 16-bit Vendor ID. `None` if not present in the source.
    pub vendor_id: Option<u16>,
    /// 16-bit Product ID. `None` mirrors `vendor_id`.
    pub product_id: Option<u16>,
    /// Commissioning flow — 0 standard, 1 user-intent, 2 custom.
    /// `None` if absent (manual codes don't carry it).
    pub commissioning_flow: Option<u8>,
    /// Discovery capabilities bitmap — bit 0 = SoftAP, bit 1 = BLE,
    /// bit 2 = On-network. `None` for manual codes.
    pub discovery_capabilities: Option<u8>,
    /// 12-bit discriminator. For manual codes only the top 4 bits ("short
    /// discriminator") are known; the lower 8 bits are zero.
    pub discriminator: u16,
    /// Whether `discriminator` is just the 4-bit short form padded with
    /// zeros rather than the full 12-bit value.
    pub short_discriminator: bool,
    /// 27-bit setup passcode for PASE Spake2+ verifier derivation.
    pub passcode: u32,
}

/// Errors returned by setup-code parsing.
#[derive(Debug, Clone, Copy, PartialEq, Eq, Structural)]
pub enum SetupCodeError {
    /// Input string had the wrong length after dash-stripping. Manual codes
    /// are 11 digits; QR codes start with `MT:` and have at least one
    /// base-38 character.
    BadLength,
    /// Manual code contained non-digit characters.
    NonDigit,
    /// Verhoeff check digit didn't match the body.
    BadChecksum,
    /// Decoded passcode is wider than 27 bits or in the reserved set
    /// (spec §5.1.7).
    InvalidPasscode,
    /// QR payload didn't start with the `MT:` prefix.
    NotAQrCode,
    /// QR payload decoding (and 21-digit manual codes) not supported yet.
    QrNotSupported,
}

// ─── Specification ──────────────────────────────────────────────────────
/// Dashes and spaces are pretty-printing separators in a manual code.
pub open spec fn is_separator(c: char) -> bool {
    c == '-' || c == ' '
}

/// The input without its separators.
pub open spec fn stripped_code(input: Seq<char>) -> Seq<char>
    decreases input.len(),
{
    if input.len() == 0 {
        Seq::empty()
    } else {
        let prev = stripped_code(input.drop_last());
        if is_separator(input.last()) {
            prev
        } else {
            prev.push(input.last())
        }
    }
}

/// An ASCII decimal digit.
pub open spec fn is_digit_char(c: char) -> bool {
    '0' <= c && c <= '9'
}

/// Every character is an ASCII decimal digit.
pub open spec fn all_digits(s: Seq<char>) -> bool {
    forall|i: int| 0 <= i < s.len() ==> is_digit_char(#[trigger] s[i])
}

/// The value of a decimal digit character.
pub open spec fn digit_value(c: char) -> int {
    c as int - '0' as int
}

/// The number a string of decimal digits denotes (most significant first).
pub open spec fn decimal_value(s: Seq<char>) -> int
    decreases s.len(),
{
    if s.len() == 0 {
        0
    } else {
        decimal_value(s.drop_last()) * 10 + digit_value(s.last())
    }
}

/// Passcodes that spec §5.1.7 forbids for commissioning.
pub open spec fn is_reserved_passcode_value(p: int) -> bool {
    p == 0 || p == 11111111 || p == 22222222 || p == 33333333 || p == 44444444 || p == 55555555
        || p == 66666666 || p == 77777777 || p == 88888888 || p == 99999999 || p == 12345678
        || p == 87654321
}

/// The payload a manual code carries: only the short discriminator (in the
/// top 4 of 12 bits) and the passcode are known.
pub open spec fn manual_payload(short_discriminator: int, passcode: int) -> SetupPayload {
    SetupPayload {
        version: 0,
        vendor_id: None,
        product_id: None,
        commissioning_flow: None,
        discovery_capabilities: None,
        discriminator: (short_discriminator * 256) as u16,
        short_discriminator: true,
        passcode: passcode as u32,
    }
}

/// Decoding of a dash-stripped manual code `digits`, given the Verhoeff
/// check digit `check` of its first ten digits.
///
/// The packing:
/// - digit 0: bit 2 = `VID_PID_PRESENT` flag (21-digit codes, not
///   supported), bits 0-1 = top 2 bits of the short discriminator;
/// - digits 1..6, a 16-bit value: bits 14-15 = low 2 bits of the short
///   discriminator, bits 0-13 = low 14 bits of the passcode;
/// - digits 6..10: passcode >> 14, so that the passcode has 27 bits;
/// - digit 10: the Verhoeff check digit of digits 0..10.
pub open spec fn manual_code_result(digits: Seq<char>, check: u8) -> Result<
    SetupPayload,
    SetupCodeError,
> {
    if encode_utf8(digits).len() != 11 {
        Err(SetupCodeError::BadLength)
    } else if !all_digits(digits) {
        Err(SetupCodeError::NonDigit)
    } else if check as int != digit_value(digits[10]) {
        Err(SetupCodeError::BadChecksum)
    } else {
        let d0 = digit_value(digits[0]);
        let d1_5 = decimal_value(digits.subrange(1, 6));
        let d6_9 = decimal_value(digits.subrange(6, 10));
        if d1_5 > 65535 {
            Err(SetupCodeError::NonDigit)
        } else if (d0 / 4) % 2 == 1 {
            Err(SetupCodeError::QrNotSupported)
        } else {
            let short = (d0 % 4) * 4 + d1_5 / 16384;
            let passcode = d6_9 * 16384 + d1_5 % 16384;
            if passcode >= 134217728 || is_reserved_passcode_value(passcode) {
                Err(SetupCodeError::InvalidPasscode)
            } else {
                Ok(manual_payload(short, passcode))
            }
        }
    }
}

/// The input begins with the QR payload prefix `MT:`.
pub open spec fn has_qr_prefix(s: Seq<char>) -> bool {
    s.len() >= 3 && s[0] == 'M' && s[1] == 'T' && s[2] == ':'
}

/// The Verhoeff check digit that the `verhoeff` crate computes for a string
/// of decimal digits.
pub uninterp spec fn verhoeff_check_digit(digits: Seq<char>) -> u8;

/// `<str as verhoeff::Verhoeff>::calculate_verhoeff_check_digit`. The crate
/// panics on a non-digit, so only digit strings are admitted; its result
/// is documented to lie in 0–9.
#[verifier::external_body]
fn verhoeff_check(body: &str) -> (r: u8)
    requires
        all_digits(body@),
    ensures
        r == verhoeff_check_digit(body@),
        r < 10,
{
    body.calculate_verhoeff_check_digit()
}

// ─── Lemmas ─────────────────────────────────────────────────────────────
proof fn lemma_digits_are_ascii(s: Seq<char>)
    requires
        all_digits(s),
    ensures
        is_ascii_chars(s),
        encode_utf8(s).len() == s.len(),
        forall|i: int| 0 <= i < s.len() ==> #[trigger] encode_utf8(s)[i] == s[i] as u8,
{
    assert forall|i: int| 0 <= i < s.len() implies '\0' <= #[trigger] s[i] <= '\u{7f}' by {
        assert(is_digit_char(s[i]));
    }
    is_ascii_chars_encode_utf8(s);
}

/// The first ten characters of an 11-digit string, taken as a `&str`.
fn first_ten(digits: &str) -> (body: &str)
    requires
        digits@.len() == 11,
        all_digits(digits@),
    ensures
        body@ == digits@.take(10),
{
    proof {
        let s = digits@;
        let bytes = encode_utf8(s);
        lemma_digits_are_ascii(s);
        encode_utf8_valid_utf8(s);
        is_char_boundary_iff_not_is_continuation_byte(bytes, 10);
        assert(bytes[10] == s[10] as u8);
        assert(is_digit_char(s[10]));
    }
    let (body, _rest) = digits.split_at(10);
    proof {
        let s = digits@;
        let t = s.take(10);
        assert(all_digits(t));
        lemma_digits_are_ascii(s);
        lemma_digits_are_ascii(t);
        assert(encode_utf8(t) =~= encode_utf8(s).subrange(0, 10));
        encode_utf8_decode_utf8(t);
        encode_utf8_decode_utf8(body@);
    }
    body
}

proof fn lemma_decimal_step(s: Seq<char>, lo: int, i: int)
    requires
        0 <= lo <= i < s.len(),
    ensures
        decimal_value(s.subrange(lo, i + 1)) == decimal_value(s.subrange(lo, i)) * 10
            + digit_value(s[i]),
{
    assert(s.subrange(lo, i + 1).drop_last() =~= s.subrange(lo, i));
}

/// Powers of ten.
pub open spec fn pow10(n: nat) -> nat
    decreases n,
{
    if n == 0 {
        1
    } else {
        10 * pow10((n - 1) as nat)
    }
}

/// The number denoted by `digits[lo..hi]`, read from their values `vals`.
fn decimal_of(vals: &Vec<u8>, lo: usize, hi: usize, Ghost(digits): Ghost<Seq<char>>) -> (n: u32)
    requires
        lo <= hi <= vals@.len(),
        hi - lo <= 5,
        vals@.len() == digits.len(),
        all_digits(digits),
        forall|j: int| 0 <= j < vals@.len() ==> vals@[j] as int == digit_value(#[trigger] digits[j]),
    ensures
        n as int == decimal_value(digits.subrange(lo as int, hi as int)),
        n < pow10((hi - lo) as nat),
{
    let mut n: u32 = 0;
    let mut i: usize = lo;
    assert(digits.subrange(lo as int, lo as int) =~= Seq::<char>::empty());
    while i < hi
        invariant
            lo <= i <= hi <= vals@.len(),
            hi - lo <= 5,
            vals@.len() == digits.len(),
            all_digits(digits),
            forall|j: int| 0 <= j < vals@.len() ==> vals@[j] as int == digit_value(#[trigger] digits[j]),
            n as int == decimal_value(digits.subrange(lo as int, i as int)),
            n < pow10((i - lo) as nat),
            pow10((i - lo) as nat) <= 100000,
        decreases hi - i,
    {
        proof {
            lemma_decimal_step(digits, lo as int, i as int);
            assert(is_digit_char(digits[i as int]));
            assert(pow10((i + 1 - lo) as nat) == 10 * pow10((i - lo) as nat));
            if i + 1 - lo <= 5 {
                lemma_pow10_bound((i + 1 - lo) as nat);
            }
        }
        n = n * 10 + vals[i] as u32;
        i = i + 1;
    }
    n
}

proof fn lemma_pow10_bound(k: nat)
    requires
        k <= 5,
    ensures
        pow10(k) <= 100000,
{
    reveal_with_fuel(pow10, 6);
}

// ─── Parsing ────────────────────────────────────────────────────────────
/// Copies `input` into the empty `buf` without its dashes and spaces.
/// Returns whether everything fit in the 13-byte buffer; only then does
/// the buffer hold the whole stripped input.
fn strip_dashes_inplace(input: &str, buf: &mut heapless::String<13>) -> (fits: bool)
    requires
        code_buffer_chars(*old(buf)) == Seq::<char>::empty(),
    ensures
        fits == (encode_utf8(stripped_code(input@)).len() <= 13),
        fits ==> code_buffer_chars(*final(buf)) == stripped_code(input@),
{
    let mut fits = true;
    proof {
        assert(stripped_code(input@.take(0)) =~= Seq::<char>::empty());
    }
    for ch in it: input.chars()
        invariant
            it.seq() == input@,
            fits == (encode_utf8(stripped_code(input@.take(it.index() as int))).len() <= 13),
            fits ==> code_buffer_chars(*buf) == stripped_code(input@.take(it.index() as int)),
    {
        let ghost prev = stripped_code(input@.take(it.index() as int));
        proof {
            assert(input@.take(it.index() + 1).drop_last() =~= input@.take(it.index() as int));
            assert(input@.take(it.index() + 1).last() == ch);
        }
        if ch != '-' && ch != ' ' {
            proof {
                lemma_encode_push(prev, ch);
            }
            if fits {
                match code_buffer_push(buf, ch) {
                    Ok(()) => {},
                    Err(()) => {
                        fits = false;
                    },
                }
            }
        }
    }
    assert(input@.take(input@.len() as int) =~= input@);
    fits
}

/// The UTF-8 encoding of a sequence with a character appended.
proof fn lemma_encode_push(s: Seq<char>, c: char)
    ensures
        encode_utf8(s.push(c)) =~= encode_utf8(s) + encode_scalar(c as u32),
        encode_utf8(s.push(c)).len() >= encode_utf8(s).len(),
    decreases s.len(),
{
    let e = encode_scalar(c as u32);
    if s.len() == 0 {
        assert(s.push(c).drop_first() =~= Seq::<char>::empty());
        assert(encode_utf8(Seq::<char>::empty()) =~= Seq::<u8>::empty());
        assert(encode_utf8(s.push(c)) == e + encode_utf8(Seq::<char>::empty()));
        assert(e + Seq::<u8>::empty() =~= e);
        assert(encode_utf8(s) + e =~= e);
    } else {
        let r = s.drop_first();
        let h = encode_scalar(s[0] as u32);
        assert(s.push(c).drop_first() =~= r.push(c));
        lemma_encode_push(r, c);
        assert(encode_utf8(s.push(c)) == h + encode_utf8(r.push(c)));
        assert(encode_utf8(s) == h + encode_utf8(r));
        assert(h + (encode_utf8(r) + e) =~= (h + encode_utf8(r)) + e);
    }
}

/// Whether every character of `s` is an ASCII decimal digit.
fn all_ascii_digits(s: &str) -> (r: bool)
    ensures
        r == all_digits(s@),
{
    let mut ok = true;
    for c in it: s.chars()
        invariant
            it.seq() == s@,
            ok == all_digits(s@.take(it.index() as int)),
    {
        proof {
            assert(s@.take(it.index() + 1).drop_last() =~= s@.take(it.index() as int));
        }
        if !(c >= '0' && c <= '9') {
            ok = false;
        }
        proof {
            if ok {
                assert forall|i: int| 0 <= i < it.index() + 1 implies is_digit_char(
                    #[trigger] s@.take(it.index() + 1)[i],
                ) by {
                    if i < it.index() {
                        assert(s@.take(it.index() + 1)[i] == s@.take(it.index() as int)[i]);
                    }
                }
            } else {
                if all_digits(s@.take(it.index() + 1)) {
                    assert(s@.take(it.index() + 1)[it.index() as int] == c);
                    if all_digits(s@.take(it.index() as int)) {
                        assert(!is_digit_char(c));
                    } else {
                        let i = choose|i: int|
                            0 <= i < it.index() && !is_digit_char(
                                #[trigger] s@.take(it.index() as int)[i],
                            );
                        assert(s@.take(it.index() + 1)[i] == s@.take(it.index() as int)[i]);
                    }
                }
            }
        }
    }
    assert(s@.take(s@.len() as int) =~= s@);
    ok
}

/// Spec §5.1.7 — these passcodes are forbidden for commissioning even
/// though they decode cleanly, to discourage trivial PINs on shipped
/// devices.
fn is_reserved_passcode(p: u32) -> (r: bool)
    ensures
        r == is_reserved_passcode_value(p as int),
{
    match p {
        0 | 11111111 | 22222222 | 33333333 | 44444444 | 55555555 | 66666666 | 77777777
        | 88888888 | 99999999 | 12345678 | 87654321 => true,
        _ => false,
    }
}

/// Decodes a dash-stripped manual pairing code, given the Verhoeff check
/// digit `check` computed over its first ten digits: checks the length,
/// the digits and the check digit, then unpacks the short discriminator
/// and the passcode and rejects reserved passcodes.
pub fn decode_manual_code(digits: &str, check: u8) -> (r: Result<SetupPayload, SetupCodeError>)
    ensures
        r == manual_code_result(digits@, check),
{
    if digits.as_bytes().len() != 11 {
        return Err(SetupCodeError::BadLength);
    }
    let ghost s = digits@;
    let mut vals: Vec<u8> = Vec::new();
    let mut ok = true;
    for c in it: digits.chars()
        invariant
            it.seq() == s,
            ok == all_digits(s.take(it.index() as int)),
            ok ==> vals@.len() == it.index(),
            ok ==> forall|j: int|
                0 <= j < vals@.len() ==> vals@[j] as int == digit_value(#[trigger] s[j]),
    {
        proof {
            assert(s.take(it.index() + 1).drop_last() =~= s.take(it.index() as int));
        }
        let ghost was_ok = ok;
        if c >= '0' && c <= '9' {
            if ok {
                vals.push((c as u32 - '0' as u32) as u8);
            }
        } else {
            ok = false;
        }
        proof {
            let k = it.index() as int;
            let t1 = s.take(k + 1);
            let t0 = s.take(k);
            assert(t1[k] == c);
            assert forall|i: int| 0 <= i < k implies #[trigger] t1[i] == t0[i] by {}
            if was_ok && is_digit_char(c) {
                assert forall|i: int| 0 <= i < k + 1 implies is_digit_char(#[trigger] t1[i]) by {
                    if i < k {
                        assert(t1[i] == t0[i]);
                    }
                }
            } else if all_digits(t1) {
                if !is_digit_char(c) {
                    assert(is_digit_char(t1[k]));
                } else {
                    let i = choose|i: int| 0 <= i < k && !is_digit_char(#[trigger] t0[i]);
                    assert(is_digit_char(t1[i]));
                }
            }
        }
    }
    assert(s.take(s.len() as int) =~= s);
    if !ok {
        return Err(SetupCodeError::NonDigit);
    }
    proof {
        lemma_digits_are_ascii(s);
    }
    // The check digit computed over the first 10 digits must match the last.
    let provided_check = vals[10];
    if check != provided_check {
        return Err(SetupCodeError::BadChecksum);
    }
    // Parse each field.
    let d0: u8 = vals[0];
    let d1_5_wide: u32 = decimal_of(&vals, 1, 6, Ghost(s));
    if d1_5_wide > 65535 {
        return Err(SetupCodeError::NonDigit);
    }
    let d1_5: u16 = d1_5_wide as u16;
    let d6_9: u32 = decimal_of(&vals, 6, 10, Ghost(s));
    proof {
        reveal_with_fuel(pow10, 5);
        assert(is_digit_char(s[0]));
    }
    // d0: bits 0-1 = top 2 bits of the short discriminator; bit 2 =
    // VID-PID-present flag.
    let disc_hi2 = (d0 & 0x03) as u16;
    let vid_pid_present = (d0 & 0x04) != 0;
    assert(d0 & 0x03 == d0 % 4) by (bit_vector);
    assert((d0 & 0x04 != 0) == ((d0 / 4) % 2 == 1)) by (bit_vector);
    if vid_pid_present {
        // 21-digit codes carry VID + PID after the first 11.
        return Err(SetupCodeError::QrNotSupported);
    }
    // d1_5: top 2 bits = low 2 bits of the short discriminator; bottom 14
    // bits = passcode low 14 bits.
    let disc_lo2 = ((d1_5 >> 14) & 0x03) as u16;
    let passcode_lo14 = (d1_5 & 0x3FFF) as u32;
    assert((d1_5 >> 14) & 0x03 == d1_5 / 16384) by (bit_vector);
    assert(d1_5 & 0x3FFF == d1_5 % 16384) by (bit_vector);
    // d6_9: top 13 bits of the 27-bit passcode.
    let passcode_hi13 = d6_9;
    assert(passcode_hi13 < 10000);

    // Short discriminator: 4 bits, layout [hi2 | lo2].
    let short_disc = (disc_hi2 << 2) | disc_lo2;
    assert((disc_hi2 << 2) | disc_lo2 == disc_hi2 * 4 + disc_lo2) by (bit_vector)
        requires
            disc_hi2 < 4,
            disc_lo2 < 4,
    ;
    // Only the short discriminator is known: it sits in the top 4 of 12 bits.
    let discriminator = short_disc << 8;
    assert(short_disc << 8 == short_disc * 256) by (bit_vector)
        requires
            short_disc < 16,
    ;
    let passcode = (passcode_hi13 << 14) | passcode_lo14;
    assert((passcode_hi13 << 14) | passcode_lo14 == passcode_hi13 * 16384 + passcode_lo14)
        by (bit_vector)
        requires
            passcode_hi13 < 10000,
            passcode_lo14 < 16384,
    ;
    // The passcode is 27 bits wide.
    if passcode >= 134_217_728 || is_reserved_passcode(passcode) {
        return Err(SetupCodeError::InvalidPasscode);
    }
    Ok(
        SetupPayload {
            version: 0,
            vendor_id: None,
            product_id: None,
            commissioning_flow: None,
            discovery_capabilities: None,
            discriminator,
            short_discriminator: true,
            passcode,
        },
    )
}

/// Decode an 11-digit manual pairing code (with or without dashes or
/// spaces). The separators are dropped first, into a 13-byte buffer (what
/// does not fit there is not an 11-digit code: `BadLength`); the Verhoeff
/// check digit of the first ten digits is then computed and the code
/// decoded by [`decode_manual_code`].
pub fn parse_manual_pairing_code(input: &str) -> (r: Result<SetupPayload, SetupCodeError>)
    ensures
        r == manual_code_result(
            stripped_code(input@),
            verhoeff_check_digit(stripped_code(input@).take(10)),
        ),
{
    let mut stripped = code_buffer_new();
    if !strip_dashes_inplace(input, &mut stripped) {
        // More than 13 bytes remain: not an 11-digit code.
        return Err(SetupCodeError::BadLength);
    }
    let digits = code_buffer_as_str(&stripped);
    if digits.as_bytes().len() != 11 {
        return Err(SetupCodeError::BadLength);
    }
    if !all_ascii_digits(digits) {
        return Err(SetupCodeError::NonDigit);
    }
    proof {
        lemma_digits_are_ascii(digits@);
    }
    let body = first_ten(digits);
    let check = verhoeff_check(body);
    decode_manual_code(digits, check)
}

/// Whether `input` starts with the QR payload prefix `MT:`.
fn starts_with_qr_prefix(input: &str) -> (r: bool)
    ensures
        r == has_qr_prefix(input@),
{
    let mut seen: usize = 0;
    let mut ok = true;
    for c in it: input.chars()
        invariant
            it.seq() == input@,
            seen == if it.index() < 3 {
                it.index() as int
            } else {
                3
            },
            ok == (forall|j: int| 0 <= j < seen ==> input@[j] == #[trigger] qr_prefix_char(j)),
    {
        if seen < 3 {
            let want = if seen == 0 {
                'M'
            } else if seen == 1 {
                'T'
            } else {
                ':'
            };
            if c != want {
                ok = false;
            }
            proof {
                if ok {
                    assert forall|j: int| 0 <= j < seen + 1 implies input@[j] == #[trigger] qr_prefix_char(j) by {
                        if j == seen as int {
                            assert(input@[j] == c);
                        }
                    }
                } else if c != want {
                    assert(input@[seen as int] == c);
                    assert(qr_prefix_char(seen as int) == want);
                }
            }
            seen = seen + 1;
        }
    }
    proof {
        if ok && seen == 3 {
            assert(input@[0] == qr_prefix_char(0));
            assert(input@[1] == qr_prefix_char(1));
            assert(input@[2] == qr_prefix_char(2));
        }
        if has_qr_prefix(input@) && !ok {
            let j = choose|j: int| 0 <= j < seen && input@[j] != #[trigger] qr_prefix_char(j);
        }
    }
    ok && seen == 3
}

/// The characters of the prefix `MT:`.
pub open spec fn qr_prefix_char(j: int) -> char {
    if j == 0 {
        'M'
    } else if j == 1 {
        'T'
    } else {
        ':'
    }
}

/// What [`parse_qr_payload`] gives: not a QR code without the `MT:` prefix,
/// a wrong length with nothing after it, and otherwise not supported yet.
pub open spec fn qr_payload_result(input: Seq<char>) -> Result<SetupPayload, SetupCodeError> {
    if !has_qr_prefix(input) {
        Err(SetupCodeError::NotAQrCode)
    } else if input.len() == 3 {
        Err(SetupCodeError::BadLength)
    } else {
        Err(SetupCodeError::QrNotSupported)
    }
}

/// Whether `input` has more than `n` characters, for `n` up to 4.
fn has_more_chars_than(input: &str, n: usize) -> (r: bool)
    requires
        n <= 4,
    ensures
        r == (input@.len() > n),
{
    let mut seen: usize = 0;
    for _c in it: input.chars()
        invariant
            it.seq() == input@,
            n <= 4,
            seen == if it.index() <= n {
                it.index() as int
            } else {
                n as int + 1
            },
    {
        if seen <= n {
            seen = seen + 1;
        }
    }
    seen > n
}

/// Decode a QR-code onboarding payload string (`MT:...`).
///
/// Not yet implemented — base-38 decoding + bit-packed field extraction
/// is tracked for a follow-up. An input without the `MT:` prefix gives
/// [`SetupCodeError::NotAQrCode`], the prefix alone
/// [`SetupCodeError::BadLength`], anything else
/// [`SetupCodeError::QrNotSupported`].
pub fn parse_qr_payload(input: &str) -> (r: Result<SetupPayload, SetupCodeError>)
    ensures
        r == qr_payload_result(input@),
{
    if !starts_with_qr_prefix(input) {
        return Err(SetupCodeError::NotAQrCode);
    }
    if !has_more_chars_than(input, 3) {
        return Err(SetupCodeError::BadLength);
    }
    Err(SetupCodeError::QrNotSupported)
}

/// What [`parse_setup_code`] gives for an input: an input with the `MT:`
/// prefix is read as a QR payload, anything else as a manual pairing code.
pub open spec fn setup_code_result(input: Seq<char>) -> Result<SetupPayload, SetupCodeError> {
    if has_qr_prefix(input) {
        qr_payload_result(input)
    } else {
        manual_code_result(stripped_code(input), verhoeff_check_digit(stripped_code(input).take(10)))
    }
}

/// Auto-detect the input shape (`MT:` prefix → QR, anything else → manual
/// code) and dispatch to the right parser.
pub fn parse_setup_code(input: &str) -> (r: Result<SetupPayload, SetupCodeError>)
    ensures
        r == setup_code_result(input@),
{
    if starts_with_qr_prefix(input) {
        parse_qr_payload(input)
    } else {
        parse_manual_pairing_code(input)
    }
}

// ─── Laws ───────────────────────────────────────────────────────────────
/// The character of a decimal digit.
pub open spec fn digit_char(d: int) -> char {
    ('0' as int + d) as char
}

/// `n` written with exactly `width` decimal digits, zero-padded.
pub open spec fn decimal_digits(n: int, width: nat) -> Seq<char>
    decreases width,
{
    if width == 0 {
        Seq::empty()
    } else {
        decimal_digits(n / 10, (width - 1) as nat).push(digit_char(n % 10))
    }
}

/// The first ten digits of the manual code for a short discriminator and a
/// passcode, packed as [`manual_code_result`] unpacks them.
pub open spec fn manual_code_body(short: int, passcode: int) -> Seq<char> {
    seq![digit_char(short / 4)] + decimal_digits((short % 4) * 16384 + passcode % 16384, 5)
        + decimal_digits(passcode / 16384, 4)
}

/// The 11-digit manual code: the body followed by a check digit.
pub open spec fn manual_code_digits(short: int, passcode: int, check: int) -> Seq<char> {
    manual_code_body(short, passcode).push(digit_char(check))
}

proof fn lemma_digit_char(d: int)
    requires
        0 <= d < 10,
    ensures
        is_digit_char(digit_char(d)),
        digit_value(digit_char(d)) == d,
{
}

proof fn lemma_decimal_digits(n: int, width: nat)
    requires
        0 <= n < pow10(width),
    ensures
        decimal_digits(n, width).len() == width,
        all_digits(decimal_digits(n, width)),
        decimal_value(decimal_digits(n, width)) == n,
    decreases width,
{
    if width > 0 {
        let w1 = (width - 1) as nat;
        assert(n / 10 < pow10(w1)) by (nonlinear_arith)
            requires
                0 <= n < 10 * pow10(w1),
        ;
        lemma_decimal_digits(n / 10, w1);
        lemma_digit_char(n % 10);
        let d = decimal_digits(n, width);
        assert(d.drop_last() =~= decimal_digits(n / 10, w1));
        assert forall|i: int| 0 <= i < d.len() implies is_digit_char(#[trigger] d[i]) by {
            if i < w1 {
                assert(d[i] == decimal_digits(n / 10, w1)[i]);
            }
        }
    }
}

proof fn lemma_strip_digits(x: Seq<char>)
    requires
        all_digits(x),
    ensures
        stripped_code(x) == x,
    decreases x.len(),
{
    if x.len() > 0 {
        let p = x.drop_last();
        assert(all_digits(p)) by {
            assert forall|i: int| 0 <= i < p.len() implies is_digit_char(#[trigger] p[i]) by {
                assert(p[i] == x[i]);
            }
        }
        lemma_strip_digits(p);
        assert(is_digit_char(x[x.len() - 1]));
        assert(p.push(x.last()) =~= x);
    }
}

proof fn lemma_code_shape(short: int, passcode: int, check: int)
    requires
        0 <= short < 16,
        0 <= passcode < 134217728,
        0 <= check < 10,
    ensures
        ({
            let code = manual_code_digits(short, passcode, check);
            &&& code.len() == 11
            &&& all_digits(code)
            &&& encode_utf8(code).len() == 11
            &&& code.take(10) == manual_code_body(short, passcode)
            &&& digit_value(code[0]) == short / 4
            &&& decimal_value(code.subrange(1, 6)) == (short % 4) * 16384 + passcode % 16384
            &&& decimal_value(code.subrange(6, 10)) == passcode / 16384
            &&& digit_value(code[10]) == check
        }),
{
    let d15 = (short % 4) * 16384 + passcode % 16384;
    let d69 = passcode / 16384;
    reveal_with_fuel(pow10, 6);
    lemma_decimal_digits(d15, 5);
    lemma_decimal_digits(d69, 4);
    lemma_digit_char(short / 4);
    lemma_digit_char(check);
    let a = decimal_digits(d15, 5);
    let b = decimal_digits(d69, 4);
    let code = manual_code_digits(short, passcode, check);
    assert(code.subrange(1, 6) =~= a);
    assert(code.subrange(6, 10) =~= b);
    assert(code.take(10) =~= manual_code_body(short, passcode));
    assert forall|i: int| 0 <= i < code.len() implies is_digit_char(#[trigger] code[i]) by {
        if 1 <= i < 6 {
            assert(code[i] == a[i - 1]);
        } else if 6 <= i < 10 {
            assert(code[i] == b[i - 6]);
        }
    }
    lemma_digits_are_ascii(code);
}

/// Every non-reserved 27-bit passcode and 4-bit short discriminator packed
/// into a manual code, with any check digit, decodes back to themselves when
/// the decoder is handed that same check digit; and such a code passes the
/// separator stripping unchanged.
pub proof fn law_manual_code_round_trip(short: int, passcode: int, check: u8)
    requires
        0 <= short < 16,
        0 <= passcode < 134217728,
        !is_reserved_passcode_value(passcode),
        check < 10,
    ensures
        stripped_code(manual_code_digits(short, passcode, check as int)) == manual_code_digits(
            short,
            passcode,
            check as int,
        ),
        manual_code_result(manual_code_digits(short, passcode, check as int), check) == Ok::<
            SetupPayload,
            SetupCodeError,
        >(manual_payload(short, passcode)),
{
    lemma_code_shape(short, passcode, check as int);
    lemma_strip_digits(manual_code_digits(short, passcode, check as int));
    let d15 = (short % 4) * 16384 + passcode % 16384;
    assert(d15 / 16384 == short % 4);
    assert(d15 % 16384 == passcode % 16384);
    assert((short / 4) % 4 * 4 + short % 4 == short);
    assert((passcode / 16384) * 16384 + passcode % 16384 == passcode);
}

/// The passcodes that may not be used for commissioning are exactly 0,
/// 11111111, 22222222, 33333333, 44444444, 55555555, 66666666, 77777777,
/// 88888888, 99999999, 12345678 and 87654321: a manual code packing any
/// 27-bit passcode with any short discriminator and a matching check digit
/// is rejected with `InvalidPasscode` if and only if its passcode is one of
/// these.
pub proof fn law_reserved_passcodes_rejected(short: int, passcode: int, check: u8)
    requires
        0 <= short < 16,
        0 <= passcode < 134217728,
        check < 10,
    ensures
        (manual_code_result(manual_code_digits(short, passcode, check as int), check) == Err::<
            SetupPayload,
            SetupCodeError,
        >(SetupCodeError::InvalidPasscode)) <==> (passcode == 0 || passcode == 11111111
            || passcode == 22222222 || passcode == 33333333 || passcode == 44444444 || passcode
            == 55555555 || passcode == 66666666 || passcode == 77777777 || passcode == 88888888
            || passcode == 99999999 || passcode == 12345678 || passcode == 87654321),
{
    lemma_code_shape(short, passcode, check as int);
    let d15 = (short % 4) * 16384 + passcode % 16384;
    assert(d15 / 16384 == short % 4);
    assert(d15 % 16384 == passcode % 16384);
    assert((short / 4) % 4 * 4 + short % 4 == short);
    assert((passcode / 16384) * 16384 + passcode % 16384 == passcode);
    if !is_reserved_passcode_value(passcode) {
        law_manual_code_round_trip(short, passcode, check);
    }
}

/// A manual code whose last digit is not the check digit of its body is
/// rejected with `BadChecksum`.
pub proof fn law_wrong_check_digit_rejected(short: int, passcode: int, carried: u8, computed: u8)
    requires
        0 <= short < 16,
        0 <= passcode < 134217728,
        carried < 10,
        computed != carried,
    ensures
        manual_code_result(manual_code_digits(short, passcode, carried as int), computed) == Err::<
            SetupPayload,
            SetupCodeError,
        >(SetupCodeError::BadChecksum),
{
    lemma_code_shape(short, passcode, carried as int);
}

/// The manual code for a non-reserved passcode and short discriminator,
/// ending in the Verhoeff check digit of its body, parses back to them
/// (given that the check digit lies in 0–9, as the `verhoeff` crate
/// documents).
pub proof fn law_parse_manual_code_round_trip(short: int, passcode: int)
    requires
        0 <= short < 16,
        0 <= passcode < 134217728,
        !is_reserved_passcode_value(passcode),
    ensures
        ({
            let body = manual_code_body(short, passcode);
            let code = body.push(digit_char(verhoeff_check_digit(body) as int));
            verhoeff_check_digit(body) < 10 ==> manual_code_result(
                stripped_code(code),
                verhoeff_check_digit(stripped_code(code).take(10)),
            ) == Ok::<SetupPayload, SetupCodeError>(manual_payload(short, passcode))
        }),
{
    let body = manual_code_body(short, passcode);
    let c = verhoeff_check_digit(body);
    if c < 10 {
        law_manual_code_round_trip(short, passcode, c);
        lemma_code_shape(short, passcode, c as int);
    }
}

/// A manual code whose characters other than separators do not make up
/// exactly 11 bytes is rejected with `BadLength`, whatever its check digit.
pub proof fn law_wrong_length_rejected(input: Seq<char>, check: u8)
    requires
        encode_utf8(stripped_code(input)).len() != 11,
    ensures
        manual_code_result(stripped_code(input), check) == Err::<SetupPayload, SetupCodeError>(
            SetupCodeError::BadLength,
        ),
{
}

/// Dashes and spaces anywhere in the input do not change what the parser
/// sees.
pub proof fn law_separators_ignored(before: Seq<char>, sep: char, after: Seq<char>)
    requires
        is_separator(sep),
    ensures
        stripped_code(before + seq![sep] + after) == stripped_code(before + after),
    decreases after.len(),
{
    let x = before + seq![sep] + after;
    let y = before + after;
    if after.len() == 0 {
        assert(x.drop_last() =~= before);
        assert(y =~= before);
    } else {
        law_separators_ignored(before, sep, after.drop_last());
        assert(x.drop_last() =~= before + seq![sep] + after.drop_last());
        assert(y.drop_last() =~= before + after.drop_last());
    }
}

/// Stripping removes the dashes and spaces and nothing else: what remains
/// holds neither, and an input without them is kept whole.
pub proof fn law_stripping_removes_only_separators(input: Seq<char>)
    ensures
        forall|i: int|
            0 <= i < stripped_code(input).len() ==> #[trigger] stripped_code(input)[i] != '-'
                && stripped_code(input)[i] != ' ',
        (forall|i: int| 0 <= i < input.len() ==> #[trigger] input[i] != '-' && input[i] != ' ')
            ==> stripped_code(input) == input,
    decreases input.len(),
{
    if input.len() > 0 {
        let p = input.drop_last();
        law_stripping_removes_only_separators(p);
        if forall|i: int| 0 <= i < input.len() ==> #[trigger] input[i] != '-' && input[i] != ' ' {
            assert forall|i: int| 0 <= i < p.len() implies #[trigger] p[i] != '-' && p[i] != ' ' by {
                assert(p[i] == input[i]);
            }
            assert(input[input.len() - 1] != '-');
            assert(p.push(input.last()) =~= input);
        }
        let sp = stripped_code(p);
        if !is_separator(input.last()) {
            assert forall|i: int| 0 <= i < sp.push(input.last()).len() implies #[trigger] sp.push(
                input.last(),
            )[i] != '-' && sp.push(input.last())[i] != ' ' by {
                if i < sp.len() {
                    assert(sp.push(input.last())[i] == sp[i]);
                }
            }
        }
    }
}

/// An 11-byte code with any character that is not an ASCII digit is
/// rejected with `NonDigit`, whatever the check digit.
pub proof fn law_non_digit_rejected(digits: Seq<char>, check: u8, i: int)
    requires
        encode_utf8(digits).len() == 11,
        0 <= i < digits.len(),
        !('0' <= digits[i] && digits[i] <= '9'),
    ensures
        manual_code_result(digits, check) == Err::<SetupPayload, SetupCodeError>(
            SetupCodeError::NonDigit,
        ),
{
    assert(!is_digit_char(digits[i]));
}

/// An 11-digit code with a matching check digit whose first digit has the
/// vendor/product-present bit set (4 to 7), and whose middle field fits in
/// 16 bits, is a 21-digit code's prefix and is not supported.
pub proof fn law_vid_pid_flag_not_supported(digits: Seq<char>, check: u8)
    requires
        digits.len() == 11,
        forall|i: int| 0 <= i < 11 ==> '0' <= #[trigger] digits[i] && digits[i] <= '9',
        check as int == digits[10] as int - '0' as int,
        '4' <= digits[0] && digits[0] <= '7',
        decimal_value(digits.subrange(1, 6)) <= 65535,
    ensures
        manual_code_result(digits, check) == Err::<SetupPayload, SetupCodeError>(
            SetupCodeError::QrNotSupported,
        ),
{
    assert(all_digits(digits)) by {
        assert forall|i: int| 0 <= i < digits.len() implies is_digit_char(#[trigger] digits[i]) by {
            assert('0' <= digits[i] && digits[i] <= '9');
        }
    }
    lemma_digits_are_ascii(digits);
}

/// A setup code starting with `M`, `T`, `:` is a QR payload: with nothing
/// after the prefix it has the wrong length, with anything after it it is
/// not supported yet. Any other input is read as a manual code: without its
/// separators, checked against the Verhoeff digit of its first ten
/// characters. A QR payload without that prefix is not a QR code.
pub proof fn law_setup_code_outcomes(input: Seq<char>)
    ensures
        (input.len() >= 3 && input[0] == 'M' && input[1] == 'T' && input[2] == ':') ==> {
            &&& input.len() == 3 ==> setup_code_result(input) == Err::<
                SetupPayload,
                SetupCodeError,
            >(SetupCodeError::BadLength) && qr_payload_result(input) == Err::<
                SetupPayload,
                SetupCodeError,
            >(SetupCodeError::BadLength)
            &&& input.len() > 3 ==> setup_code_result(input) == Err::<
                SetupPayload,
                SetupCodeError,
            >(SetupCodeError::QrNotSupported) && qr_payload_result(input) == Err::<
                SetupPayload,
                SetupCodeError,
            >(SetupCodeError::QrNotSupported)
        },
        !(input.len() >= 3 && input[0] == 'M' && input[1] == 'T' && input[2] == ':') ==> {
            &&& setup_code_result(input) == manual_code_result(
                stripped_code(input),
                verhoeff_check_digit(stripped_code(input).take(10)),
            )
            &&& qr_payload_result(input) == Err::<SetupPayload, SetupCodeError>(
                SetupCodeError::NotAQrCode,
            )
        },
{
}

/// Whatever a manual code decodes to carries a short discriminator in the
/// top 4 of its 12 bits, a non-reserved passcode below 2^27, version 0, and none of
/// the fields only a QR code supplies.
pub proof fn law_manual_payload_shape(digits: Seq<char>, check: u8)
    ensures
        manual_code_result(digits, check) matches Ok(p) ==> {
            &&& p.version == 0
            &&& p.vendor_id is None
            &&& p.product_id is None
            &&& p.commissioning_flow is None
            &&& p.discovery_capabilities is None
            &&& p.short_discriminator
            &&& p.discriminator % 256 == 0
            &&& p.discriminator < 4096
            &&& !is_reserved_passcode_value(p.passcode as int)
            &&& p.passcode < 134217728
        },
{
    if manual_code_result(digits, check) is Ok {
        lemma_digits_are_ascii(digits);
        assert(is_digit_char(digits[0]));
        let d0 = digit_value(digits[0]);
        let d1_5 = decimal_value(digits.subrange(1, 6));
        let d6_9 = decimal_value(digits.subrange(6, 10));
        assert(all_digits(digits.subrange(1, 6)));
        assert(all_digits(digits.subrange(6, 10)));
        lemma_decimal_bound(digits.subrange(6, 10));
        lemma_decimal_bound(digits.subrange(1, 6));
        reveal_with_fuel(pow10, 5);
        assert(0 <= d1_5 <= 65535);
        assert(0 <= d6_9 < 10000);
        let short = (d0 % 4) * 4 + d1_5 / 16384;
        let passcode = d6_9 * 16384 + d1_5 % 16384;
        assert(0 <= short < 16);
        assert(0 <= passcode <= 0xffff_ffff);
        assert((passcode as u32) as int == passcode);
        assert(((short * 256) as u16) as int == short * 256);
    }
}

proof fn lemma_decimal_bound(s: Seq<char>)
    requires
        all_digits(s),
    ensures
        0 <= decimal_value(s) < pow10(s.len()),
    decreases s.len(),
{
    if s.len() > 0 {
        let p = s.drop_last();
        assert(all_digits(p)) by {
            assert forall|i: int| 0 <= i < p.len() implies is_digit_char(#[trigger] p[i]) by {
                assert(p[i] == s[i]);
            }
        }
        lemma_decimal_bound(p);
        assert(is_digit_char(s[s.len() - 1]));
        assert(pow10(s.len()) == 10 * pow10(p.len()));
    }
}

} // verus!
