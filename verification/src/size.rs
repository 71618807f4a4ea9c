//! Decimal size classification: pick the largest unit whose lower bound the
//! byte count reaches, with thresholds inclusive on the lower bound.

use vstd::prelude::*;

verus! {

/// The unit a byte count is displayed in. Thresholds are decimal, not binary:
/// a gigabyte is 1_000_000_000 bytes and a megabyte 1_000_000 bytes.
#[derive(Clone, Copy, Debug, PartialEq, Eq, Structural)]
pub enum SizeUnit {
    Bytes,
    Megabytes,
    Gigabytes,
}

impl SizeUnit {
    /// The number of bytes one of this unit stands for; the displayed
    /// magnitude is the byte count divided by this.
    pub fn divisor(&self) -> (d: u64)
        ensures
            d == self.spec_divisor(),
    {
        match self {
            SizeUnit::Bytes => 1,
            SizeUnit::Megabytes => 1_000_000,
            SizeUnit::Gigabytes => 1_000_000_000,
        }
    }

    pub open spec fn spec_divisor(self) -> u64 {
        match self {
            SizeUnit::Bytes => 1,
            SizeUnit::Megabytes => 1_000_000,
            SizeUnit::Gigabytes => 1_000_000_000,
        }
    }

    /// The unit's name as it appears in the report.
    pub fn label(&self) -> (s: &'static str)
        ensures
            s@ == self.spec_label(),
    {
        match self {
            SizeUnit::Bytes => "bytes",
            SizeUnit::Megabytes => "megabytes",
            SizeUnit::Gigabytes => "gigabytes",
        }
    }

    pub open spec fn spec_label(self) -> Seq<char> {
        match self {
            SizeUnit::Bytes => "bytes"@,
            SizeUnit::Megabytes => "megabytes"@,
            SizeUnit::Gigabytes => "gigabytes"@,
        }
    }
}

/// Classify a byte count into the unit it is displayed in, largest unit
/// first. Each tier includes its lower bound: exactly 1_000_000_000 bytes is
/// gigabytes, and 999_999_999 bytes is megabytes.
pub fn select_unit(size: u64) -> (u: SizeUnit)
    ensures
        u == SizeUnit::Gigabytes <==> size >= 1_000_000_000,
        u == SizeUnit::Megabytes <==> 1_000_000 <= size < 1_000_000_000,
        u == SizeUnit::Bytes <==> size < 1_000_000,
{
    if size >= 1_000_000_000 {
        SizeUnit::Gigabytes
    } else if size >= 1_000_000 {
        SizeUnit::Megabytes
    } else {
        SizeUnit::Bytes
    }
}

} // verus!
