//! The report decoder: from the bytes of one HID report to a measurement.
//!
//! A report may begin with filler. The measurement starts at the first byte
//! of value three, the sync byte, and the five bytes after it hold the
//! status code, the unit code, the exponent and the mantissa (low byte
//! first). These positions and codes were found by watching hardware.

use vstd::prelude::*;
use crate::error::HidScaleError;
use crate::reading::{DymoUnit, Magnitude};

verus! {

/// The byte that marks the start of a measurement.
pub const SYNC_BYTE: u8 = 3;

/// Bytes of a measurement, sync byte included.
pub const REPORT_LEN: usize = 6;

/// The first of the two status codes of a report that holds a measurement.
pub const STATUS_STABLE: u8 = 2;

/// The second of the two status codes of a report that holds a measurement.
pub const STATUS_MEASURED: u8 = 4;

/// Status code of a scale that cannot settle on a value.
pub const STATUS_UNSETTLED: u8 = 5;

/// Status code of a scale under more load than it is rated for.
pub const STATUS_OVERLOADED: u8 = 6;

/// Unit code of a measurement in kilograms.
pub const UNIT_KILOGRAMS: u8 = 3;

/// Unit code of a measurement in pounds.
pub const UNIT_POUNDS: u8 = 12;

/// `p` is where the first sync byte of `buf` stands.
pub open spec fn is_first_sync(buf: Seq<u8>, p: int) -> bool {
    &&& 0 <= p < buf.len()
    &&& buf[p] == SYNC_BYTE
    &&& forall|i: int| 0 <= i < p ==> buf[i] != SYNC_BYTE
}

/// Where the measurement starts: at the first sync byte, or at the start of
/// a buffer that holds none.
pub open spec fn sync_offset(buf: Seq<u8>) -> int {
    if exists|p: int| is_first_sync(buf, p) {
        choose|p: int| is_first_sync(buf, p)
    } else {
        0
    }
}

/// The exponent byte read as a signed number in two's complement.
pub open spec fn exponent_of(byte: u8) -> i8 {
    if byte < 128 {
        byte as i8
    } else {
        (byte - 256) as i8
    }
}

/// The mantissa: sixteen bits without sign, low byte first.
pub open spec fn mantissa_of(low: u8, high: u8) -> u16 {
    (low + 256 * high) as u16
}

/// What a status code and a unit code make of a magnitude.
pub open spec fn classify(status: u8, unit: u8, magnitude: Magnitude) -> Result<
    DymoUnit,
    HidScaleError,
> {
    if (status == STATUS_STABLE || status == STATUS_MEASURED) && unit == UNIT_KILOGRAMS {
        Ok(DymoUnit::Kilograms(magnitude))
    } else if (status == STATUS_STABLE || status == STATUS_MEASURED) && unit == UNIT_POUNDS {
        Ok(DymoUnit::Pounds(magnitude))
    } else if status == STATUS_UNSETTLED {
        Err(HidScaleError::UnreportableReading)
    } else if status == STATUS_OVERLOADED {
        Err(HidScaleError::Overloaded)
    } else {
        Err(HidScaleError::UnknownUnits)
    }
}

/// What a report decodes to.
pub open spec fn decode(buf: Seq<u8>) -> Result<DymoUnit, HidScaleError> {
    let p = sync_offset(buf);
    if buf.len() < p + REPORT_LEN {
        Err(HidScaleError::NotEnoughData)
    } else {
        classify(
            buf[p + 1],
            buf[p + 2],
            Magnitude {
                mantissa: mantissa_of(buf[p + 4], buf[p + 5]),
                exponent: exponent_of(buf[p + 3]),
            },
        )
    }
}

/// A buffer has one first sync byte at most.
proof fn lemma_first_sync_unique(buf: Seq<u8>, p: int, q: int)
    requires
        is_first_sync(buf, p),
        is_first_sync(buf, q),
    ensures
        p == q,
{
    if p < q {
        assert(buf[p] != SYNC_BYTE);
    } else if q < p {
        assert(buf[q] != SYNC_BYTE);
    }
}

/// The measurement starts at the first sync byte.
pub proof fn lemma_sync_offset_found(buf: Seq<u8>, p: int)
    requires
        is_first_sync(buf, p),
    ensures
        sync_offset(buf) == p,
{
    lemma_first_sync_unique(buf, p, sync_offset(buf));
}

/// Without a sync byte the measurement starts at the start.
pub proof fn lemma_sync_offset_absent(buf: Seq<u8>)
    requires
        forall|i: int| 0 <= i < buf.len() ==> buf[i] != SYNC_BYTE,
    ensures
        sync_offset(buf) == 0,
{
    assert forall|p: int| !is_first_sync(buf, p) by {
        if 0 <= p < buf.len() {
            assert(buf[p] != SYNC_BYTE);
        }
    }
}

/// The measurement starts inside the buffer, or at the start of an empty one.
pub proof fn lemma_sync_offset_bounds(buf: Seq<u8>)
    ensures
        0 <= sync_offset(buf) <= buf.len(),
        sync_offset(buf) < buf.len() || buf.len() == 0,
{
}

/// Finds where the measurement starts: the place of the first sync byte,
/// or zero for a buffer without one.
pub fn find_sync(buf: &[u8]) -> (offset: usize)
    ensures
        offset == sync_offset(buf@),
        offset <= buf.len(),
        is_first_sync(buf@, offset as int) || (offset == 0 && forall|i: int|
            0 <= i < buf.len() ==> buf@[i] != SYNC_BYTE),
{
    let mut i: usize = 0;
    while i < buf.len()
        invariant
            i <= buf.len(),
            forall|j: int| 0 <= j < i ==> buf@[j] != SYNC_BYTE,
        decreases buf.len() - i,
    {
        if buf[i] == SYNC_BYTE {
            proof {
                lemma_sync_offset_found(buf@, i as int);
            }
            return i;
        }
        i += 1;
    }
    proof {
        lemma_sync_offset_absent(buf@);
    }
    0
}

/// Reads the exponent byte as a signed number.
pub fn read_exponent(byte: u8) -> (exponent: i8)
    ensures
        exponent == exponent_of(byte),
        byte < 128 ==> exponent == byte,
        byte >= 128 ==> exponent == byte - 256,
{
    if byte < 128 {
        byte as i8
    } else {
        let wide: i16 = byte as i16 - 256;
        wide as i8
    }
}

/// Reads the mantissa from its two bytes.
pub fn read_mantissa(low: u8, high: u8) -> (mantissa: u16)
    ensures
        mantissa == mantissa_of(low, high),
        mantissa == low + 256 * high,
{
    let wide: u16 = high as u16;
    wide * 256 + low as u16
}

/// Decodes one report.
///
/// A buffer that ends before the sixth byte of the measurement gives
/// `NotEnoughData`, and no other buffer does. Otherwise status 2 or 4 with
/// unit 3 gives kilograms, status 2 or 4 with unit 12 gives pounds, status 5
/// gives `UnreportableReading`, status 6 gives `Overloaded`, and everything
/// else `UnknownUnits`.
pub fn parse_buffer(buf: &[u8]) -> (reading: Result<DymoUnit, HidScaleError>)
    ensures
        reading == decode(buf@),
        reading == Err::<DymoUnit, HidScaleError>(HidScaleError::NotEnoughData) <==> buf.len()
            < sync_offset(buf@) + REPORT_LEN,
        !(reading matches Err(HidScaleError::CantReadDueTo(_))),
{
    let offset = find_sync(buf);
    if buf.len() - offset < REPORT_LEN {
        return Err(HidScaleError::NotEnoughData);
    }
    let status = buf[offset + 1];
    let unit = buf[offset + 2];
    let magnitude = Magnitude {
        mantissa: read_mantissa(buf[offset + 4], buf[offset + 5]),
        exponent: read_exponent(buf[offset + 3]),
    };
    if (status == STATUS_STABLE || status == STATUS_MEASURED) && unit == UNIT_KILOGRAMS {
        Ok(DymoUnit::Kilograms(magnitude))
    } else if (status == STATUS_STABLE || status == STATUS_MEASURED) && unit == UNIT_POUNDS {
        Ok(DymoUnit::Pounds(magnitude))
    } else if status == STATUS_UNSETTLED {
        Err(HidScaleError::UnreportableReading)
    } else if status == STATUS_OVERLOADED {
        Err(HidScaleError::Overloaded)
    } else {
        Err(HidScaleError::UnknownUnits)
    }
}

/// Where the first sync byte stands at `p`, the six bytes from `p` are in
/// the buffer, the status code is 2 or 4 and the unit code is 3, the report
/// decodes to kilograms, with the mantissa read from the bytes at `p + 4`
/// and `p + 5` and the exponent from the byte at `p + 3`.
pub proof fn lemma_decode_kilograms(buf: Seq<u8>, p: int)
    requires
        is_first_sync(buf, p),
        p + 6 <= buf.len(),
        buf[p + 1] == 2 || buf[p + 1] == 4,
        buf[p + 2] == 3,
    ensures
        decode(buf) == Ok::<DymoUnit, HidScaleError>(
            DymoUnit::Kilograms(
                Magnitude {
                    mantissa: mantissa_of(buf[p + 4], buf[p + 5]),
                    exponent: exponent_of(buf[p + 3]),
                },
            ),
        ),
{
    lemma_sync_offset_found(buf, p);
}

/// The same for pounds: status code 2 or 4 and unit code 12.
pub proof fn lemma_decode_pounds(buf: Seq<u8>, p: int)
    requires
        is_first_sync(buf, p),
        p + 6 <= buf.len(),
        buf[p + 1] == 2 || buf[p + 1] == 4,
        buf[p + 2] == 12,
    ensures
        decode(buf) == Ok::<DymoUnit, HidScaleError>(
            DymoUnit::Pounds(
                Magnitude {
                    mantissa: mantissa_of(buf[p + 4], buf[p + 5]),
                    exponent: exponent_of(buf[p + 3]),
                },
            ),
        ),
{
    lemma_sync_offset_found(buf, p);
}

/// A buffer that ends before the sixth byte of its measurement decodes to
/// `NotEnoughData`; an empty buffer is one of them.
pub proof fn lemma_decode_short(buf: Seq<u8>)
    requires
        buf.len() < sync_offset(buf) + 6,
    ensures
        decode(buf) == Err::<DymoUnit, HidScaleError>(HidScaleError::NotEnoughData),
{
}

/// Every buffer of fewer than six bytes is too short, wherever its sync
/// byte stands.
pub proof fn lemma_decode_under_six(buf: Seq<u8>)
    requires
        buf.len() < 6,
    ensures
        decode(buf) == Err::<DymoUnit, HidScaleError>(HidScaleError::NotEnoughData),
{
}

/// In a buffer that is long enough, status code 5 gives
/// `UnreportableReading` and status code 6 gives `Overloaded`, whatever the
/// unit code and the other bytes are.
pub proof fn lemma_decode_status(buf: Seq<u8>)
    requires
        sync_offset(buf) + 6 <= buf.len(),
    ensures
        buf[sync_offset(buf) + 1] == 5 ==> decode(buf) == Err::<DymoUnit, HidScaleError>(
            HidScaleError::UnreportableReading,
        ),
        buf[sync_offset(buf) + 1] == 6 ==> decode(buf) == Err::<DymoUnit, HidScaleError>(
            HidScaleError::Overloaded,
        ),
{
}

} // verus!
