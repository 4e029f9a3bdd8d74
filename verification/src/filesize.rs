//! Human-readable rendering of a byte count: the size scaled to a unit
//! chosen by decimal bands, with exactly two fractional digits.

use vstd::prelude::*;
use crate::digits::ascii_string;
use crate::digits::lemma_decimal_is_ascii;
use crate::digits::push_decimal;
use crate::digits::spec_ascii_chars;
use crate::digits::spec_decimal;
use crate::digits::spec_digit;

verus! {

/// The units a byte count can be rendered in.
#[derive(Clone, Copy, PartialEq, Eq, Structural, Debug)]
pub enum FileSize {
    B,
    KB,
    MB,
    GB,
    TB,
}

impl FileSize {
    /// The number of bytes in one of this unit.
    pub open spec fn spec_value(&self) -> u64 {
        match *self {
            FileSize::B => 1,
            FileSize::KB => 1_024,
            FileSize::MB => 1_048_576,
            FileSize::GB => 1_073_741_824,
            FileSize::TB => 1_099_511_627_776,
        }
    }

    /// The unit's label, as ASCII bytes.
    pub open spec fn spec_label(&self) -> Seq<u8> {
        match *self {
            FileSize::B => seq![66u8],
            FileSize::KB => seq![75u8, 66u8],
            FileSize::MB => seq![77u8, 66u8],
            FileSize::GB => seq![71u8, 66u8],
            FileSize::TB => seq![84u8, 66u8],
        }
    }

    pub fn value(&self) -> (v: u64)
        ensures
            v == self.spec_value(),
    {
        match *self {
            FileSize::B => 1,
            FileSize::KB => 1_024,
            FileSize::MB => 1_048_576,
            FileSize::GB => 1_073_741_824,
            FileSize::TB => 1_099_511_627_776,
        }
    }
}

/// The unit a size is rendered in, chosen by decimal bands: up to three
/// digits before the unit switches.
pub open spec fn spec_filesize_unit(size: int) -> FileSize {
    if size < 1_000 {
        FileSize::B
    } else if size < 1_000_000 {
        FileSize::KB
    } else if size < 1_000_000_000 {
        FileSize::MB
    } else if size < 1_000_000_000_000 {
        FileSize::GB
    } else {
        FileSize::TB
    }
}

/// The size scaled to its unit, in hundredths, rounded half up.
pub open spec fn spec_filesize_hundredths(size: int) -> int {
    (size * 100 + spec_filesize_unit(size).spec_value() / 2) / (
    spec_filesize_unit(size).spec_value() as int)
}

/// The rendered size: the whole part, a dot, exactly two fractional
/// digits, a space, and the unit's label.
pub open spec fn spec_format_filesize(size: int) -> Seq<u8> {
    let h = spec_filesize_hundredths(size);
    spec_decimal(h / 100) + seq![46u8, spec_digit((h / 10) % 10), spec_digit(h % 10), 32u8]
        + spec_filesize_unit(size).spec_label()
}

/// Render a byte count for humans, scaled to the unit its decimal band
/// picks, with two fractional digits (half units round up).
pub fn format_filesize(size: u64) -> (r: String)
    ensures
        r@ == spec_ascii_chars(spec_format_filesize(size as int)),
{
    let unit_kind: FileSize = if size < 1_000 {
        FileSize::B
    } else if size < 1_000_000 {
        FileSize::KB
    } else if size < 1_000_000_000 {
        FileSize::MB
    } else if size < 1_000_000_000_000 {
        FileSize::GB
    } else {
        FileSize::TB
    };
    let unit: u64 = unit_kind.value();

    let scaled_wide: u128 = ((size as u128) * 100 + (unit as u128) / 2) / (unit as u128);
    proof {
        assert(scaled_wide <= u64::MAX) by (nonlinear_arith)
            requires
                scaled_wide == ((size as int) * 100 + (unit as int) / 2) / (unit as int),
                unit as int == spec_filesize_unit(size as int).spec_value(),
                size as int <= u64::MAX,
                (unit as int == 1 && size < 1_000) || unit as int >= 1_024,
        ;
    }
    let h: u64 = scaled_wide as u64;

    let mut buf: Vec<u8> = Vec::new();
    push_decimal(&mut buf, h / 100);
    buf.push(46);
    buf.push(48 + (((h / 10) % 10) as u8));
    buf.push(48 + ((h % 10) as u8));
    buf.push(32);
    match unit_kind {
        FileSize::B => {
            buf.push(66);
        }
        FileSize::KB => {
            buf.push(75);
            buf.push(66);
        }
        FileSize::MB => {
            buf.push(77);
            buf.push(66);
        }
        FileSize::GB => {
            buf.push(71);
            buf.push(66);
        }
        FileSize::TB => {
            buf.push(84);
            buf.push(66);
        }
    }

    proof {
        assert(buf@ =~= spec_format_filesize(size as int));
        lemma_decimal_is_ascii(h as int / 100);
        assert(forall|i: int| 0 <= i < buf@.len() ==> buf@[i] < 128);
    }
    ascii_string(&buf)
}

} // verus!
