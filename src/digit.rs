//! The seven-segment decoder: three display cells of a height report to a
//! height in tenths.

use vstd::prelude::*;
use crate::text::{upper_hex, with_hex};

verus! {

/// What the decoder reports on a cell or a triple of cells it cannot read.
#[derive(Debug, PartialEq)]
pub enum Error {
    /// A cell whose segment bitmap is no digit; the text names the byte.
    DigitParseError(String),
    /// A decimal point on a cell other than the middle one.
    InvalidDecimalPointError,
}

/// The value shown by one seven-segment glyph.
#[derive(Debug, Clone, Copy, PartialEq, Eq, Structural)]
pub enum SingleDigit {
    Zero,
    One,
    Two,
    Three,
    Four,
    Five,
    Six,
    Seven,
    Eight,
    Nine,
}

impl SingleDigit {
    pub open spec fn value(self) -> nat {
        match self {
            SingleDigit::Zero => 0,
            SingleDigit::One => 1,
            SingleDigit::Two => 2,
            SingleDigit::Three => 3,
            SingleDigit::Four => 4,
            SingleDigit::Five => 5,
            SingleDigit::Six => 6,
            SingleDigit::Seven => 7,
            SingleDigit::Eight => 8,
            SingleDigit::Nine => 9,
        }
    }

    /// The decimal value of the digit.
    pub fn as_u16(self) -> (r: u16)
        ensures
            r as nat == self.value(),
            r < 10,
    {
        match self {
            SingleDigit::Zero => 0,
            SingleDigit::One => 1,
            SingleDigit::Two => 2,
            SingleDigit::Three => 3,
            SingleDigit::Four => 4,
            SingleDigit::Five => 5,
            SingleDigit::Six => 6,
            SingleDigit::Seven => 7,
            SingleDigit::Eight => 8,
            SingleDigit::Nine => 9,
        }
    }
}

/// One display cell: a digit, and whether the cell shows its decimal point.
#[derive(Debug, Clone, Copy, PartialEq, Eq, Structural)]
pub struct EightDigit {
    pub digit: SingleDigit,
    pub has_point: bool,
}

/// The digit drawn by a seven-bit segment bitmap, if it draws one.
pub open spec fn glyph_digit(segments: u8) -> Option<SingleDigit> {
    if segments == 0x3f {
        Some(SingleDigit::Zero)
    } else if segments == 0x06 {
        Some(SingleDigit::One)
    } else if segments == 0x5b {
        Some(SingleDigit::Two)
    } else if segments == 0x4f {
        Some(SingleDigit::Three)
    } else if segments == 0x66 {
        Some(SingleDigit::Four)
    } else if segments == 0x6d {
        Some(SingleDigit::Five)
    } else if segments == 0x7d {
        Some(SingleDigit::Six)
    } else if segments == 0x07 {
        Some(SingleDigit::Seven)
    } else if segments == 0x7f {
        Some(SingleDigit::Eight)
    } else if segments == 0x6f {
        Some(SingleDigit::Nine)
    } else {
        None
    }
}

/// The high bit of a cell byte: the decimal point.
pub open spec fn point_bit(b: u8) -> bool {
    b >= 0x80
}

/// The low seven bits of a cell byte: the segment bitmap.
pub open spec fn segment_bits(b: u8) -> u8 {
    (b % 0x80) as u8
}

/// The cell that a byte encodes, if its bitmap is a digit.
pub open spec fn cell_of(b: u8) -> Option<EightDigit> {
    match glyph_digit(segment_bits(b)) {
        Some(d) => Some(EightDigit { digit: d, has_point: point_bit(b) }),
        None => None,
    }
}

/// Whether `e` is the error for a byte `b` whose bitmap is no digit.
pub open spec fn is_bad_digit_error(e: Error, b: u8) -> bool {
    match e {
        Error::DigitParseError(text) => text@ == "invalid packet byte "@ + upper_hex(b),
        _ => false,
    }
}

/// Decodes one cell byte: the high bit is the decimal point, the low seven
/// bits the segment bitmap.
pub fn parse_digit(bin: u8) -> (r: Result<EightDigit, Error>)
    ensures
        match r {
            Ok(d) => cell_of(bin) == Some(d),
            Err(e) => cell_of(bin) is None && is_bad_digit_error(e, bin),
        },
{
    let has_point = (bin & 0x80u8) != 0;
    let segments = bin & 0x7fu8;
    proof {
        assert((bin & 0x80u8) != 0 <==> bin >= 0x80) by (bit_vector);
        assert(bin & 0x7fu8 == bin % 0x80) by (bit_vector);
    }
    let digit = match segments {
        0x3f => SingleDigit::Zero,
        0x06 => SingleDigit::One,
        0x5b => SingleDigit::Two,
        0x4f => SingleDigit::Three,
        0x66 => SingleDigit::Four,
        0x6d => SingleDigit::Five,
        0x7d => SingleDigit::Six,
        0x07 => SingleDigit::Seven,
        0x7f => SingleDigit::Eight,
        0x6f => SingleDigit::Nine,
        _ => {
            return Err(Error::DigitParseError(with_hex("invalid packet byte ", bin)));
        },
    };
    Ok(EightDigit { digit, has_point })
}

/// Whether every byte of a three-cell report encodes a digit.
pub open spec fn all_digits(bin: Seq<u8>) -> bool {
    &&& cell_of(bin[0]) is Some
    &&& cell_of(bin[1]) is Some
    &&& cell_of(bin[2]) is Some
}

/// Whether `e` is the error for the first byte of a three-cell report whose
/// bitmap is no digit.
pub open spec fn is_first_bad_digit_error(e: Error, bin: Seq<u8>) -> bool {
    if cell_of(bin[0]) is None {
        is_bad_digit_error(e, bin[0])
    } else if cell_of(bin[1]) is None {
        is_bad_digit_error(e, bin[1])
    } else {
        cell_of(bin[2]) is None && is_bad_digit_error(e, bin[2])
    }
}

/// Decodes the three cells of a height report, left to right; the first byte
/// that is no digit fails the whole report.
pub fn parse_packet(packet: &[u8; 3]) -> (r: Result<[EightDigit; 3], Error>)
    ensures
        match r {
            Ok(cells) => {
                &&& cell_of(packet@[0]) == Some(cells@[0])
                &&& cell_of(packet@[1]) == Some(cells@[1])
                &&& cell_of(packet@[2]) == Some(cells@[2])
            },
            Err(e) => !all_digits(packet@) && is_first_bad_digit_error(e, packet@),
        },
{
    let d0 = parse_digit(packet[0])?;
    let d1 = parse_digit(packet[1])?;
    let d2 = parse_digit(packet[2])?;
    Ok([d0, d1, d2])
}

/// A height as the display shows it, in tenths of the display's unit.
#[derive(Debug, Clone, Copy, PartialEq, Eq, Structural)]
pub struct Height {
    pub tenths: u16,
}

/// The number that three digits spell, `100·d0 + 10·d1 + d2`.
pub open spec fn base_value(d0: EightDigit, d1: EightDigit, d2: EightDigit) -> nat {
    100 * d0.digit.value() + 10 * d1.digit.value() + d2.digit.value()
}

/// The height in tenths that three cells show: a point on the middle cell
/// puts one digit after it, otherwise the number is whole.
pub open spec fn tenths_of(d0: EightDigit, d1: EightDigit, d2: EightDigit) -> nat {
    if d1.has_point {
        base_value(d0, d1, d2)
    } else {
        10 * base_value(d0, d1, d2)
    }
}

/// Combines three decoded cells into a height. A decimal point is allowed on
/// the middle cell only.
pub fn digits_to_height(digits: [EightDigit; 3]) -> (r: Result<Height, Error>)
    ensures
        match r {
            Ok(h) => {
                &&& !digits@[0].has_point
                &&& !digits@[2].has_point
                &&& h.tenths as nat == tenths_of(digits@[0], digits@[1], digits@[2])
            },
            Err(e) => {
                &&& (digits@[0].has_point || digits@[2].has_point)
                &&& e == Error::InvalidDecimalPointError
            },
        },
{
    if digits[2].has_point || digits[0].has_point {
        return Err(Error::InvalidDecimalPointError);
    }
    let base: u16 = digits[0].digit.as_u16() * 100 + digits[1].digit.as_u16() * 10
        + digits[2].digit.as_u16();
    if digits[1].has_point {
        Ok(Height { tenths: base })
    } else {
        Ok(Height { tenths: base * 10 })
    }
}

/// The height that a three-cell report shows.
pub open spec fn report_tenths(bin: Seq<u8>) -> nat {
    tenths_of(cell_of(bin[0]).unwrap(), cell_of(bin[1]).unwrap(), cell_of(bin[2]).unwrap())
}

/// Whether `r` is what decoding the three-cell report `bin` gives: the height
/// when every cell is a digit and no point stands outside the middle cell;
/// else the error for the first byte that is no digit; else the misplaced
/// point.
pub open spec fn parse_matches(bin: Seq<u8>, r: Result<Height, Error>) -> bool {
    match r {
        Ok(h) => {
            &&& all_digits(bin)
            &&& !point_bit(bin[0])
            &&& !point_bit(bin[2])
            &&& h.tenths as nat == report_tenths(bin)
        },
        Err(e) => if all_digits(bin) {
            &&& (point_bit(bin[0]) || point_bit(bin[2]))
            &&& e == Error::InvalidDecimalPointError
        } else {
            is_first_bad_digit_error(e, bin)
        },
    }
}

/// Decodes the three cells of a height report into a height. Cells are
/// decoded first; a decimal point is then allowed on the middle cell only.
pub fn parse(bin: &[u8; 3]) -> (r: Result<Height, Error>)
    ensures
        parse_matches(bin@, r),
{
    let cells = parse_packet(bin)?;
    digits_to_height(cells)
}

/// A decoding result as a value: the height in tenths, the text of a bad
/// digit error, or a misplaced point.
pub ghost enum Decoded {
    Height(nat),
    BadDigit(Seq<char>),
    MisplacedPoint,
}

pub open spec fn decoded(r: Result<Height, Error>) -> Decoded {
    match r {
        Ok(h) => Decoded::Height(h.tenths as nat),
        Err(Error::DigitParseError(text)) => Decoded::BadDigit(text@),
        Err(Error::InvalidDecimalPointError) => Decoded::MisplacedPoint,
    }
}

/// The decoder is deterministic: two results that decoding may give for
/// equal inputs are equal.
pub proof fn lemma_parse_deterministic(a: Seq<u8>, b: Seq<u8>, ra: Result<Height, Error>, rb: Result<Height, Error>)
    requires
        a.len() == 3,
        a == b,
        parse_matches(a, ra),
        parse_matches(b, rb),
    ensures
        decoded(ra) == decoded(rb),
{
}

/// Type tag of a height report packet.
pub const HEIGHT_REPORT_TAG: u8 = 0x12;

/// Whether a packet is a height report that carries a measurement: four bytes,
/// the height report tag first, and not all three cells blank.
pub open spec fn is_measurement(packet: Seq<u8>) -> bool {
    &&& packet.len() == 4
    &&& packet[0] == HEIGHT_REPORT_TAG
    &&& !(packet[1] == 0 && packet[2] == 0 && packet[3] == 0)
}

/// What a driver makes of a packet: nothing when it carries no measurement,
/// else the decoding of its three cells.
pub fn height_report(packet: &[u8]) -> (r: Option<Result<Height, Error>>)
    ensures
        r is None <==> !is_measurement(packet@),
        r is Some ==> parse_matches(packet@.subrange(1, 4), r->Some_0),
{
    if packet.len() != 4 || packet[0] != HEIGHT_REPORT_TAG {
        return None;
    }
    let cells: [u8; 3] = [packet[1], packet[2], packet[3]];
    if cells[0] == 0 && cells[1] == 0 && cells[2] == 0 {
        return None;
    }
    assert(cells@ =~= packet@.subrange(1, 4));
    Some(parse(&cells))
}

} // verus!
