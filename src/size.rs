//! Human-readable byte sizes in binary units.
use byte_unit::{Byte, ByteUnit};
use vstd::prelude::*;

verus! {

/// The binary units, from bytes up to exbibytes (enough for any `u64`).
#[derive(Debug, Clone, Copy, PartialEq, Eq, Structural)]
pub enum BinaryUnit {
    B,
    KiB,
    MiB,
    GiB,
    TiB,
    PiB,
    EiB,
}

impl BinaryUnit {
    /// The power of 1024 that the unit stands for.
    pub open spec fn exponent(self) -> nat {
        match self {
            BinaryUnit::B => 0,
            BinaryUnit::KiB => 1,
            BinaryUnit::MiB => 2,
            BinaryUnit::GiB => 3,
            BinaryUnit::TiB => 4,
            BinaryUnit::PiB => 5,
            BinaryUnit::EiB => 6,
        }
    }
}

/// 1024 to the power `k`.
pub open spec fn pow1024(k: nat) -> int
    decreases k,
{
    if k == 0 {
        1
    } else {
        1024 * pow1024((k - 1) as nat)
    }
}

/// The largest binary unit in which `bytes` amounts to at least one; bytes
/// below 1024. A count exactly at a unit's size takes that unit.
pub open spec fn size_exponent(bytes: u64) -> nat {
    if bytes >= 0x1000000000000000 {
        6
    } else if bytes >= 0x4000000000000 {
        5
    } else if bytes >= 0x10000000000 {
        4
    } else if bytes >= 0x40000000 {
        3
    } else if bytes >= 0x100000 {
        2
    } else if bytes >= 0x400 {
        1
    } else {
        0
    }
}

/// The decimal digits of `n`.
pub open spec fn decimal(n: nat) -> Seq<char>
    decreases n,
{
    let digit = seq!['0', '1', '2', '3', '4', '5', '6', '7', '8', '9'][(n % 10) as int];
    if n < 10 {
        seq![digit]
    } else {
        decimal(n / 10) + seq![digit]
    }
}

/// The symbol of the unit of 1024 to the power `exponent`.
pub open spec fn unit_symbol(exponent: nat) -> Seq<char> {
    if exponent == 0 {
        "B"@
    } else if exponent == 1 {
        "KiB"@
    } else if exponent == 2 {
        "MiB"@
    } else if exponent == 3 {
        "GiB"@
    } else if exponent == 4 {
        "TiB"@
    } else if exponent == 5 {
        "PiB"@
    } else {
        "EiB"@
    }
}

/// The number, with two decimals, that `byte_unit` writes for `bytes` divided
/// by 1024 to the power `exponent`.
pub uninterp spec fn scaled_text(bytes: u64, exponent: nat) -> Seq<char>;

/// Relies on `byte_unit::Byte::get_adjusted_unit` and the `Display` of its
/// result: the count divided by the unit's size, written as a whole number
/// followed by " B" for bytes ("1023 B"), and otherwise with two decimals
/// followed by a space and the unit's symbol ("1.00 KiB"). A count of bytes up
/// to 2^53 is an exact `f64`, so its whole number is its decimal digits.
#[verifier::external_body]
fn format_in_unit(bytes: u64, unit: BinaryUnit) -> (r: String)
    ensures
        unit == BinaryUnit::B && bytes <= 0x20000000000000 ==> r@ == decimal(bytes as nat) + " "@
            + unit_symbol(0),
        unit != BinaryUnit::B ==> r@ == scaled_text(bytes, unit.exponent()) + " "@ + unit_symbol(
            unit.exponent(),
        ),
{
    let unit = match unit {
        BinaryUnit::B => ByteUnit::B,
        BinaryUnit::KiB => ByteUnit::KiB,
        BinaryUnit::MiB => ByteUnit::MiB,
        BinaryUnit::GiB => ByteUnit::GiB,
        BinaryUnit::TiB => ByteUnit::TiB,
        BinaryUnit::PiB => ByteUnit::PiB,
        BinaryUnit::EiB => ByteUnit::EiB,
    };
    Byte::from_bytes(bytes as u128).get_adjusted_unit(unit).to_string()
}

/// How a byte count is shown: in bytes as its decimal digits, in a larger unit
/// as a two-decimal number, then the unit's symbol.
pub open spec fn size_display(bytes: u64) -> Seq<char> {
    let e = size_exponent(bytes);
    if e == 0 {
        decimal(bytes as nat) + " "@ + unit_symbol(0)
    } else {
        scaled_text(bytes, e) + " "@ + unit_symbol(e)
    }
}

/// Picks the unit for a byte count.
pub fn unit_for(bytes: u64) -> (r: BinaryUnit)
    ensures
        r.exponent() == size_exponent(bytes),
        pow1024(r.exponent()) <= bytes || r == BinaryUnit::B,
        r == BinaryUnit::EiB || bytes < pow1024(r.exponent() + 1),
{
    reveal_with_fuel(pow1024, 8);
    if bytes >= 0x1000000000000000 {
        BinaryUnit::EiB
    } else if bytes >= 0x4000000000000 {
        BinaryUnit::PiB
    } else if bytes >= 0x10000000000 {
        BinaryUnit::TiB
    } else if bytes >= 0x40000000 {
        BinaryUnit::GiB
    } else if bytes >= 0x100000 {
        BinaryUnit::MiB
    } else if bytes >= 0x400 {
        BinaryUnit::KiB
    } else {
        BinaryUnit::B
    }
}

/// A larger byte count never takes a smaller unit.
pub proof fn law_unit_monotonic(a: u64, b: u64)
    requires
        a <= b,
    ensures
        size_exponent(a) <= size_exponent(b),
{
}

/// A byte count in the largest binary unit in which it amounts to at least one.
pub fn binary_size(bytes: u64) -> (r: String)
    ensures
        r@ == size_display(bytes),
{
    format_in_unit(bytes, unit_for(bytes))
}

} // verus!
