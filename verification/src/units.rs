//! Normalised control values.
//!
//! The engine expresses every continuous value as a unit value in the closed
//! interval from 0 to 1. To keep arithmetic exact and checkable, a unit value
//! is stored as an integer numerator over the fixed denominator
//! [`UNIT_DENOM`]; conversions from and to the 7-bit MIDI range round to the
//! nearest representable value.

use vstd::prelude::*;

verus! {

/// Denominator of the fixed-point representation of a unit value.
pub const UNIT_DENOM: u32 = 1_000_000;

/// A continuous value in the closed unit interval, stored as
/// `raw / UNIT_DENOM`.
#[derive(Clone, Copy, PartialEq, Eq, Structural, Debug, Hash)]
pub struct UnitValue {
    raw: u32,
}

impl UnitValue {
    #[verifier::type_invariant]
    pub closed spec fn inv(self) -> bool {
        self.raw <= UNIT_DENOM
    }

    /// The unit value with the given numerator, at spec level. Meaningful
    /// for numerators within the unit range.
    pub closed spec fn spec_from_raw(raw: int) -> UnitValue {
        UnitValue { raw: raw as u32 }
    }

    /// The numerator of this value over [`UNIT_DENOM`].
    pub closed spec fn spec_raw(self) -> int {
        self.raw as int
    }

    /// The smallest unit value, 0.
    pub fn min_value() -> (r: UnitValue)
        ensures
            r.spec_raw() == 0,
            r == UnitValue::spec_from_raw(0),
    {
        UnitValue { raw: 0 }
    }

    /// The largest unit value, 1.
    pub fn max_value() -> (r: UnitValue)
        ensures
            r.spec_raw() == UNIT_DENOM,
    {
        UnitValue { raw: UNIT_DENOM }
    }

    /// Builds a unit value from a numerator over [`UNIT_DENOM`], clamping
    /// values above the maximum.
    pub fn new_clamped(raw: u32) -> (r: UnitValue)
        ensures
            r.spec_raw() == if raw <= UNIT_DENOM {
                raw as int
            } else {
                UNIT_DENOM as int
            },
    {
        if raw <= UNIT_DENOM {
            UnitValue { raw }
        } else {
            UnitValue { raw: UNIT_DENOM }
        }
    }

    /// The numerator over [`UNIT_DENOM`].
    pub fn get(self) -> (r: u32)
        ensures
            r == self.spec_raw(),
            r <= UNIT_DENOM,
    {
        proof {
            use_type_invariant(&self);
        }
        self.raw
    }

    pub fn is_zero(self) -> (r: bool)
        ensures
            r == (self.spec_raw() == 0),
    {
        self.raw == 0
    }

    /// Whether this is the largest unit value.
    pub fn is_max(self) -> (r: bool)
        ensures
            r == (self.spec_raw() == UNIT_DENOM),
    {
        self.raw == UNIT_DENOM
    }
}

/// The unit value that a 7-bit MIDI data byte stands for, rounded to the
/// nearest representable value: `round(v * UNIT_DENOM / 127)`.
pub open spec fn unit_of_cc7(v: int) -> int {
    (v * UNIT_DENOM + 63) / 127
}

/// The 7-bit MIDI data byte nearest to a unit value:
/// `round(raw * 127 / UNIT_DENOM)`.
pub open spec fn cc7_of_unit(raw: int) -> int {
    (raw * 127 + 500_000) / (UNIT_DENOM as int)
}

/// Converts a 7-bit MIDI value (0 to 127) to a unit value.
pub fn unit_value_from_cc7(v: u8) -> (r: UnitValue)
    requires
        v <= 127,
    ensures
        r.spec_raw() == unit_of_cc7(v as int),
{
    let raw: u32 = ((v as u32) * UNIT_DENOM + 63) / 127;
    assert(raw <= UNIT_DENOM) by (nonlinear_arith)
        requires
            v <= 127,
            raw == ((v as u32) * 1_000_000 + 63) / 127,
    ;
    UnitValue { raw }
}

/// Converts a unit value to the nearest 7-bit MIDI value (0 to 127).
pub fn unit_value_to_cc7(u: UnitValue) -> (r: u8)
    ensures
        r == cc7_of_unit(u.spec_raw()),
        r <= 127,
{
    proof {
        use_type_invariant(&u);
    }
    let wide: u64 = (u.raw as u64) * 127 + 500_000;
    let r: u64 = wide / (UNIT_DENOM as u64);
    assert(r <= 127) by (nonlinear_arith)
        requires
            u.raw <= 1_000_000,
            wide == (u.raw as u64) * 127 + 500_000,
            r == wide / 1_000_000,
    ;
    r as u8
}

/// Converting a 7-bit MIDI value to a unit value and back yields the original
/// value: the 128 MIDI steps stay distinguishable in unit representation.
pub proof fn lemma_cc7_unit_round_trip(v: int)
    requires
        0 <= v <= 127,
    ensures
        cc7_of_unit(unit_of_cc7(v)) == v,
{
    let q = unit_of_cc7(v);
    let d = v * (UNIT_DENOM as int) + 63;
    assert(q == d / 127);
    let rem = d % 127;
    assert(d == 127 * q + rem && 0 <= rem < 127) by {
        vstd::arithmetic::div_mod::lemma_fundamental_div_mod(d, 127);
        vstd::arithmetic::div_mod::lemma_mod_bound(d, 127);
    }
    assert(q * 127 + 500_000 == v * 1_000_000 + 500_063 - rem) by (nonlinear_arith)
        requires
            d == 127 * q + rem,
            d == v * 1_000_000 + 63,
    ;
    let num = v * 1_000_000 + 500_063 - rem;
    assert(num / 1_000_000 == v) by {
        assert(v * 1_000_000 <= num < (v + 1) * 1_000_000) by (nonlinear_arith)
            requires
                num == v * 1_000_000 + 500_063 - rem,
                0 <= rem < 127,
        ;
        vstd::arithmetic::div_mod::lemma_div_multiples_vanish_fancy(v, num - v * 1_000_000, 1_000_000);
    }
}

/// The unit value that a 14-bit MIDI value stands for, rounded to the
/// nearest representable value: `round(v * UNIT_DENOM / 16383)`.
pub open spec fn unit_of_cc14(v: int) -> int {
    (v * UNIT_DENOM + 8191) / 16383
}

/// The 14-bit MIDI value nearest to a unit value:
/// `round(raw * 16383 / UNIT_DENOM)`.
pub open spec fn cc14_of_unit(raw: int) -> int {
    (raw * 16383 + 500_000) / (UNIT_DENOM as int)
}

/// Converts a 14-bit MIDI value (0 to 16383) to a unit value.
pub fn unit_value_from_cc14(v: u16) -> (r: UnitValue)
    requires
        v < 16384,
    ensures
        r.spec_raw() == unit_of_cc14(v as int),
{
    let wide: u64 = ((v as u64) * (UNIT_DENOM as u64) + 8191) / 16383;
    assert(wide <= UNIT_DENOM) by (nonlinear_arith)
        requires
            v <= 16383,
            wide == ((v as u64) * 1_000_000 + 8191) / 16383,
    ;
    UnitValue::new_clamped(wide as u32)
}

/// Converts a unit value to the nearest 14-bit MIDI value (0 to 16383).
pub fn unit_value_to_cc14(u: UnitValue) -> (r: u16)
    ensures
        r == cc14_of_unit(u.spec_raw()),
        r < 16384,
{
    let raw = u.get();
    let wide: u64 = (raw as u64) * 16383 + 500_000;
    let r: u64 = wide / (UNIT_DENOM as u64);
    assert(r <= 16383) by (nonlinear_arith)
        requires
            raw <= 1_000_000,
            wide == (raw as u64) * 16383 + 500_000,
            r == wide / 1_000_000,
    ;
    r as u16
}

/// A control value as it leaves source matching: either an absolute
/// position in the unit interval or a relative increment in discrete steps.
#[derive(Clone, Copy, PartialEq, Eq, Structural, Debug)]
pub enum ControlValue {
    /// An absolute position in the unit interval.
    AbsoluteContinuous(UnitValue),
    /// A signed number of discrete steps. Zero means the event was consumed
    /// without asking for a change.
    Relative(i32),
}

impl ControlValue {
    /// The absolute value, if this is an absolute control value.
    pub fn to_unit_value(self) -> (r: Result<UnitValue, &'static str>)
        ensures
            (match self {
                ControlValue::AbsoluteContinuous(u) => r == Ok::<_, &'static str>(u),
                ControlValue::Relative(_) => r matches Err(e) && e@
                    == "control value is not absolute"@,
            }),
    {
        match self {
            ControlValue::AbsoluteContinuous(u) => Ok(u),
            ControlValue::Relative(_) => Err("control value is not absolute"),
        }
    }
}

} // verus!
