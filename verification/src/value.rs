use vstd::prelude::*;

verus! {

/// The sub-day resolution of a temporal engine value.
#[derive(Clone, Copy, PartialEq, Eq, Structural, Debug)]
pub enum TimeUnit {
    Second,
    Millisecond,
    Microsecond,
    Nanosecond,
}

/// Signed 64-bit multiplication that wraps around on overflow.
pub open spec fn spec_wrapping_mul_i64(x: i64, y: i64) -> i64 {
    vstd::wrapping::i64_specs::wrapping_mul(x, y)
}

/// Signed division by 1000 that truncates toward zero, as machine division
/// does.
pub open spec fn spec_div1000_trunc(v: int) -> int {
    if v >= 0 {
        v / 1000
    } else {
        -((-v) / 1000)
    }
}

/// The microsecond equivalent of `value` expressed in `unit`: seconds and
/// milliseconds are scaled up with wraparound on overflow, nanoseconds are
/// divided down toward zero.
pub open spec fn spec_to_micros(unit: TimeUnit, value: i64) -> i64 {
    match unit {
        TimeUnit::Second => spec_wrapping_mul_i64(value, 1_000_000),
        TimeUnit::Millisecond => spec_wrapping_mul_i64(value, 1000),
        TimeUnit::Microsecond => value,
        TimeUnit::Nanosecond => spec_div1000_trunc(value as int) as i64,
    }
}

impl TimeUnit {
    /// Convert a magnitude in this unit to microseconds.
    pub fn to_micros(&self, value: i64) -> (r: i64)
        ensures
            r == spec_to_micros(*self, value),
    {
        match self {
            TimeUnit::Second => value.wrapping_mul(1_000_000),
            TimeUnit::Millisecond => value.wrapping_mul(1000),
            TimeUnit::Microsecond => value,
            TimeUnit::Nanosecond => {
                if value >= 0 {
                    ((value as u64) / 1000) as i64
                } else if value == i64::MIN {
                    -9_223_372_036_854_775i64
                } else {
                    -((((-value) as u64) / 1000) as i64)
                }
            },
        }
    }
}

/// The engine-typed tagged union in which every query parameter and every
/// result cell is expressed.
///
/// Floating-point cells are carried as 64-bit IEEE-754 bit patterns so that
/// this model never computes on them: `Float` holds the engine's 32-bit
/// float already widened to 64 bits at the boundary, `Double` the 64-bit
/// pattern as it came. `Other` carries the debug-style rendering of any
/// engine value shape outside this model.
#[derive(Debug, PartialEq, Eq)]
pub enum Value {
    Null,
    Boolean(bool),
    TinyInt(i8),
    SmallInt(i16),
    Int(i32),
    BigInt(i64),
    UTinyInt(u8),
    USmallInt(u16),
    UInt(u32),
    UBigInt(u64),
    Float(u64),
    Double(u64),
    Timestamp(TimeUnit, i64),
    Date32(i32),
    Text(String),
    Blob(Vec<u8>),
    Time64(TimeUnit, i64),
    List(Vec<Value>),
    Enum(String),
    Struct(Vec<(String, Value)>),
    Mapping(Vec<(Value, Value)>),
    Array(Vec<Value>),
    Union(Box<Value>),
    Other(String),
}

} // verus!
