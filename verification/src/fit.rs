//! The fit validator: typed checks that measured content fits its allotted
//! space and that numeric fields are plausible, run before anything is
//! drawn. A failed check aborts the render with a `DrawError`; the core
//! never panics on caller-supplied data.

use vstd::prelude::*;

verus! {

/// A decimal number in tenths, the core's representation of the weather
/// record's numeric fields: `Fixed { tenths: 875 }` stands for 87.5.
#[derive(Clone, Copy, PartialEq, Eq, Structural, Debug)]
pub struct Fixed {
    pub tenths: i64,
}

/// The fixed plausibility ceiling for numeric fields, in tenths: 100.0.
pub const VALUE_LIMIT_TENTHS: i64 = 1000;

impl Fixed {
    /// The whole number `v`.
    pub fn from_int(v: i64) -> (r: Fixed)
        requires
            i64::MIN as int <= v * 10 <= i64::MAX as int,
        ensures
            r.tenths == v * 10,
    {
        Fixed { tenths: v * 10 }
    }

    /// The value `t / 10`.
    pub fn from_tenths(t: i64) -> (r: Fixed)
        ensures
            r.tenths == t,
    {
        Fixed { tenths: t }
    }
}

/// A render failure: either a caller-supplied string, once measured, would
/// overflow the space reserved for it, or a numeric field exceeds the fixed
/// plausibility ceiling. Each variant carries the offending value, the
/// limit it violated, and the name of the field.
#[derive(Clone, Debug)]
pub enum DrawError {
    WidthTooLong(u32, u32, String),
    ValueTooHigh(Fixed, Fixed, String),
}

/// Succeeds exactly when the measured width does not exceed the limit;
/// otherwise reports which field was too wide, by how much, and the limit.
pub fn check_width(measured: u32, limit: u32, case: &str) -> (r: Result<(), DrawError>)
    ensures
        r is Ok <==> measured <= limit,
        r matches Err(e) ==> (e matches DrawError::WidthTooLong(w, l, c) && w == measured && l
            == limit && c@ == case@),
{
    if measured > limit {
        return Err(DrawError::WidthTooLong(measured, limit, case.to_owned()));
    }
    Ok(())
}

/// Succeeds exactly when the value does not exceed the fixed ceiling of
/// 100.0; otherwise reports which field was out of range. The ceiling is
/// meaningful for percentage-like fields such as humidity; templates apply
/// the same convenience check to the temperature.
pub fn check_value(value: Fixed, case: &str) -> (r: Result<(), DrawError>)
    ensures
        r is Ok <==> value.tenths <= VALUE_LIMIT_TENTHS,
        r matches Err(e) ==> (e matches DrawError::ValueTooHigh(v, l, c) && v == value && l.tenths
            == VALUE_LIMIT_TENTHS && c@ == case@),
{
    let limit = Fixed { tenths: VALUE_LIMIT_TENTHS };
    if value.tenths > limit.tenths {
        return Err(DrawError::ValueTooHigh(value, limit, case.to_owned()));
    }
    Ok(())
}

} // verus!
