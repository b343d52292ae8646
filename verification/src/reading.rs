//! Decoding of raw sensor values and layout of report lines.
//!
//! A sensor accessor returns a double-precision number. Two values are
//! reserved: one says that the caller lacks the privilege to read the sensor,
//! or that the machine has no such sensor; the other says that a library that
//! the native module depends on is missing. Every other value is a
//! measurement. A raw value is handled here by its IEEE 754 bit pattern, and
//! it is decoded before anything else is done with it.

use vstd::prelude::*;
use vstd::string::*;
use vstd::arithmetic::power2::*;

verus! {

/// Bit pattern of the value that signals insufficient privilege or an
/// unsupported sensor: the double `-1.0`.
pub const PRIVILEGE_SENTINEL: u64 = 0xBFF0_0000_0000_0000;

/// Bit pattern of the value that signals a missing dependency: the double
/// `-99.0`.
pub const DEPENDENCY_SENTINEL: u64 = 0xC058_C000_0000_0000;

/// What follows the sensor's name when privilege is lacking.
pub const PRIVILEGE_HINT: &'static str =
    ": ERROR - Make sure the program is running as Administrator. If already running as Admin, this sensor is not supported on your system.";

/// What follows the sensor's name when a dependency is missing.
pub const DEPENDENCY_HINT: &'static str =
    ": ERROR - Make sure these DLLs are present next to the application:\n  - HardwareWrapper.dll\n  - HardwareTemp.dll\n  - LibreHardwareMonitorlib.dll";

/// A decoded sensor value.
#[derive(Clone, Copy, Debug, PartialEq, Eq, Structural)]
pub enum Reading {
    /// A measurement, held as the bit pattern of the double that was read.
    Measurement(u64),
    /// The sensor cannot be read without elevated privilege, or the machine
    /// does not have it.
    PrivilegeError,
    /// A library that the native module depends on is missing.
    DependencyError,
}

/// The reading that a raw value stands for.
pub open spec fn spec_classify(raw: u64) -> Reading {
    if raw == PRIVILEGE_SENTINEL {
        Reading::PrivilegeError
    } else if raw == DEPENDENCY_SENTINEL {
        Reading::DependencyError
    } else {
        Reading::Measurement(raw)
    }
}

/// Decodes the bit pattern of a raw sensor value.
pub fn classify(raw: u64) -> (r: Reading)
    ensures
        r == spec_classify(raw),
{
    if raw == PRIVILEGE_SENTINEL {
        Reading::PrivilegeError
    } else if raw == DEPENDENCY_SENTINEL {
        Reading::DependencyError
    } else {
        Reading::Measurement(raw)
    }
}

/// The sign of a double, taken from its bit pattern: 1 for a negative number.
pub open spec fn sign_bit(bits: u64) -> u64 {
    bits >> 63
}

/// The exponent field of a double, taken from its bit pattern.
pub open spec fn biased_exponent(bits: u64) -> u64 {
    (bits >> 52) & 0x7ff
}

/// The fraction field of a double, taken from its bit pattern.
pub open spec fn fraction(bits: u64) -> u64 {
    bits & 0xf_ffff_ffff_ffff
}

/// `bits` is the pattern of the double whose value is `-magnitude`, for a
/// whole number `magnitude` from 1 to 2^53 - 1.
///
/// A double with exponent field `e` between 1 and 2046 and fraction field `f`
/// has the magnitude `(2^52 + f) * 2^(e - 1075)`. Below `e = 1023` that is
/// less than 1, and above `e = 1075` it is at least 2^53.
pub open spec fn encodes_negative_whole(bits: u64, magnitude: nat) -> bool {
    &&& sign_bit(bits) == 1
    &&& 1023 <= biased_exponent(bits) <= 1075
    &&& 0x10_0000_0000_0000 + fraction(bits) == magnitude * pow2(
        (1075 - biased_exponent(bits)) as nat,
    )
}

/// The two sentinels are the doubles `-1.0` and `-99.0`, and no other bit
/// pattern stands for either number. A raw value is therefore decoded as an
/// error exactly when it equals one of the two reserved numbers.
pub proof fn lemma_sentinels_are_minus_one_and_minus_ninety_nine(bits: u64)
    ensures
        encodes_negative_whole(bits, 1) <==> bits == PRIVILEGE_SENTINEL,
        encodes_negative_whole(bits, 99) <==> bits == DEPENDENCY_SENTINEL,
        spec_classify(bits) == Reading::PrivilegeError <==> encodes_negative_whole(bits, 1),
        spec_classify(bits) == Reading::DependencyError <==> encodes_negative_whole(bits, 99),
        !encodes_negative_whole(bits, 1) && !encodes_negative_whole(bits, 99) ==> spec_classify(
            bits,
        ) == Reading::Measurement(bits),
{
    lemma2_to64();
    lemma2_to64_rest();
    let exponent = biased_exponent(bits);
    let shift = (1075 - exponent) as nat;
    assert(fraction(bits) < 0x10_0000_0000_0000) by (bit_vector)
        requires
            fraction(bits) == bits & 0xf_ffff_ffff_ffff,
    ;
    assert(0xBFF0_0000_0000_0000u64 >> 63 == 1) by (bit_vector);
    assert((0xBFF0_0000_0000_0000u64 >> 52) & 0x7ff == 1023) by (bit_vector);
    assert(0xBFF0_0000_0000_0000u64 & 0xf_ffff_ffff_ffff == 0) by (bit_vector);
    assert(0xC058_C000_0000_0000u64 >> 63 == 1) by (bit_vector);
    assert((0xC058_C000_0000_0000u64 >> 52) & 0x7ff == 1029) by (bit_vector);
    assert(0xC058_C000_0000_0000u64 & 0xf_ffff_ffff_ffff == 0x8_C000_0000_0000) by (bit_vector);
    if encodes_negative_whole(bits, 1) {
        if shift < 52 {
            lemma_pow2_strictly_increases(shift, 52);
        }
        assert(shift == 52);
        assert(bits == 0xBFF0_0000_0000_0000u64) by (bit_vector)
            requires
                bits >> 63 == 1,
                (bits >> 52) & 0x7ff == 1023,
                bits & 0xf_ffff_ffff_ffff == 0,
        ;
    }
    if encodes_negative_whole(bits, 99) {
        if shift < 45 {
            lemma_pow2_strictly_increases(shift, 45);
        }
        if shift > 47 {
            lemma_pow2_strictly_increases(47, shift);
        }
        assert(shift == 46);
        assert(bits == 0xC058_C000_0000_0000u64) by (bit_vector)
            requires
                bits >> 63 == 1,
                (bits >> 52) & 0x7ff == 1029,
                bits & 0xf_ffff_ffff_ffff == 0x8_C000_0000_0000,
        ;
    }
}

/// The line for a sensor that reported lack of privilege.
pub open spec fn privilege_line(name: Seq<char>) -> Seq<char> {
    name + PRIVILEGE_HINT@
}

/// The line for a sensor that reported a missing dependency.
pub open spec fn dependency_line(name: Seq<char>) -> Seq<char> {
    name + DEPENDENCY_HINT@
}

/// The line for a measurement whose value is written as `number`.
pub open spec fn measurement_line(name: Seq<char>, number: Seq<char>, unit: Seq<char>) -> Seq<
    char,
> {
    name + ": "@ + number + " "@ + unit
}

/// The line that reports the raw value `raw` of the sensor `name`, where
/// `number` is how the value is written and `unit` is its unit.
pub open spec fn value_line(name: Seq<char>, raw: u64, number: Seq<char>, unit: Seq<char>) -> Seq<
    char,
> {
    match spec_classify(raw) {
        Reading::PrivilegeError => privilege_line(name),
        Reading::DependencyError => dependency_line(name),
        Reading::Measurement(_) => measurement_line(name, number, unit),
    }
}

/// Lays out the line that reports a temperature.
///
/// `raw` is the bit pattern that the accessor returned, `number` is that
/// value written with one decimal place, and `unit` is the unit to show. A
/// sentinel gives its fixed diagnostic, in which `number` does not appear.
pub fn display_temp_value(name: &str, raw: u64, number: &str, unit: &str) -> (r: String)
    ensures
        r@ == value_line(name@, raw, number@, unit@),
{
    let mut line = String::from_str(name);
    match classify(raw) {
        Reading::PrivilegeError => {
            line.append(PRIVILEGE_HINT);
        },
        Reading::DependencyError => {
            line.append(DEPENDENCY_HINT);
        },
        Reading::Measurement(_) => {
            line.append(": ");
            line.append(number);
            line.append(" ");
            line.append(unit);
        },
    }
    line
}

/// Lays out the line that reports a rotational speed.
///
/// `raw` is the bit pattern that the accessor returned, and `number` is that
/// value written without decimal places. A sentinel gives its fixed
/// diagnostic, in which `number` does not appear.
pub fn display_rpm_value(name: &str, raw: u64, number: &str) -> (r: String)
    ensures
        r@ == value_line(name@, raw, number@, "RPM"@),
{
    display_temp_value(name, raw, number, "RPM")
}

} // verus!
