//! Checks on the session's settings: the screen size and the password hash.
use vstd::prelude::*;

verus! {

#[verifier::external_type_specification]
#[verifier::external_body]
pub struct ExFromHexError(hex::FromHexError);

/// Why a setting was refused.
#[derive(Debug, Clone, Copy, PartialEq, Eq, Structural)]
pub enum ConfigError {
    /// The width is not a number from 1 to 65535.
    BadWidth,
    /// The height is not a number from 1 to 65535.
    BadHeight,
    /// The password hash is not an even number of hexadecimal digits.
    BadHash,
}

/// The size of the remote screen, and so of the canvas.
#[derive(Debug, Clone, Copy, PartialEq, Eq, Structural)]
pub struct ScreenSize {
    pub width: u16,
    pub height: u16,
}

/// `c` is an ASCII decimal digit.
pub open spec fn is_digit(c: char) -> bool {
    '0' as u32 <= c as u32 <= '9' as u32
}

/// The number that the decimal digits `s` write.
pub open spec fn decimal_value(s: Seq<char>) -> nat
    decreases s.len(),
{
    if s.len() == 0 {
        0
    } else {
        decimal_value(s.drop_last()) * 10 + (s.last() as u32 - '0' as u32) as nat
    }
}

/// What `s` reads as a 16-bit unsigned number: an optional `+` followed by
/// one or more decimal digits, with a value that fits.
pub open spec fn parsed_u16(s: Seq<char>) -> Option<u16> {
    let digits = if s.len() > 0 && s[0] == '+' {
        s.drop_first()
    } else {
        s
    };
    if digits.len() > 0 && (forall|i: int| 0 <= i < digits.len() ==> is_digit(#[trigger] digits[i]))
        && decimal_value(digits) <= u16::MAX {
        Some(decimal_value(digits) as u16)
    } else {
        None
    }
}

/// `c` is a hexadecimal digit, in either case.
pub open spec fn is_hex_digit(c: char) -> bool {
    ||| is_digit(c)
    ||| 'a' as u32 <= c as u32 <= 'f' as u32
    ||| 'A' as u32 <= c as u32 <= 'F' as u32
}

/// The value of the hexadecimal digit `c`.
pub open spec fn hex_value(c: char) -> int {
    if is_digit(c) {
        c as u32 - '0' as u32
    } else if 'a' as u32 <= c as u32 <= 'f' as u32 {
        c as u32 - 'a' as u32 + 10
    } else {
        c as u32 - 'A' as u32 + 10
    }
}

/// `s` is an even number of hexadecimal digits.
pub open spec fn is_hex_text(s: Seq<char>) -> bool {
    &&& s.len() % 2 == 0
    &&& forall|i: int| 0 <= i < s.len() ==> is_hex_digit(#[trigger] s[i])
}

/// The bytes that the hexadecimal text `s` writes, two digits to a byte, the
/// high half first.
pub open spec fn hex_bytes(s: Seq<char>) -> Seq<u8> {
    Seq::new((s.len() / 2) as nat, |i: int| (hex_value(s[2 * i]) * 16 + hex_value(s[2 * i + 1])) as u8)
}

/// Relies on `str::parse::<u16>`: an optional `+` and then decimal digits
/// only, of a value that fits in 16 bits.
#[verifier::external_body]
fn parse_u16(text: &str) -> (r: Option<u16>)
    ensures
        r == parsed_u16(text@),
{
    text.parse::<u16>().ok()
}

/// Relies on `hex::decode`: it accepts an even number of hexadecimal digits
/// of either case, and turns each pair into one byte, the high half first.
#[verifier::external_body]
fn hex_decode(text: &str) -> (r: Result<Vec<u8>, hex::FromHexError>)
    ensures
        r is Ok <==> is_hex_text(text@),
        r matches Ok(b) ==> b@ == hex_bytes(text@),
{
    hex::decode(text)
}

/// Reads the screen size from its two settings; each must be a number from
/// 1 to 65535.
pub fn screen_size(width: &str, height: &str) -> (r: Result<ScreenSize, ConfigError>)
    ensures
        !(parsed_u16(width@) matches Some(w) && w > 0) ==> r == Err::<ScreenSize, ConfigError>(
            ConfigError::BadWidth,
        ),
        (parsed_u16(width@) matches Some(w) && w > 0) && !(parsed_u16(height@) matches Some(h) && h
            > 0) ==> r == Err::<ScreenSize, ConfigError>(ConfigError::BadHeight),
        (parsed_u16(width@) matches Some(w) && w > 0) && (parsed_u16(height@) matches Some(h) && h
            > 0) ==> r == Ok::<ScreenSize, ConfigError>(
            ScreenSize { width: parsed_u16(width@)->0, height: parsed_u16(height@)->0 },
        ),
{
    let w = match parse_u16(width) {
        Some(w) if w > 0 => w,
        _ => return Err(ConfigError::BadWidth),
    };
    let h = match parse_u16(height) {
        Some(h) if h > 0 => h,
        _ => return Err(ConfigError::BadHeight),
    };
    Ok(ScreenSize { width: w, height: h })
}

/// Reads an NTLM password hash written in hexadecimal.
pub fn password_hash(text: &str) -> (r: Result<Vec<u8>, ConfigError>)
    ensures
        is_hex_text(text@) <==> r is Ok,
        r matches Ok(b) ==> b@ == hex_bytes(text@),
        !is_hex_text(text@) ==> r == Err::<Vec<u8>, ConfigError>(ConfigError::BadHash),
{
    match hex_decode(text) {
        Ok(b) => Ok(b),
        Err(_) => Err(ConfigError::BadHash),
    }
}

} // verus!
