//! Decoding of raw syscall results.
//!
//! Every kernel reply arrives as four registers. Register 0 names the shape
//! of the reply (a success variant carrying zero or more values, or a failure
//! variant carrying registers); the documented failure shape for this ABI is
//! the two-register one, whose second register always holds an error code.
//! Every other component funnels raw replies through `decode` instead of
//! re-reading registers itself.

use vstd::prelude::*;

verus! {

/// One raw syscall reply: the four registers the kernel hands back.
#[derive(Clone, Copy, PartialEq, Eq, Structural, Debug)]
pub struct Reply {
    pub r0: u32,
    pub r1: u32,
    pub r2: u32,
    pub r3: u32,
}

// Return-variant identifiers (register 0 of every reply), as the syscall ABI
// defines them. Variants below 128 are failures, 128 and above successes.
pub const FAILURE: u32 = 0;
pub const FAILURE_U32: u32 = 1;
pub const FAILURE_2_U32: u32 = 2;
pub const FAILURE_U64: u32 = 3;
pub const SUCCESS: u32 = 128;
pub const SUCCESS_U32: u32 = 129;
pub const SUCCESS_2_U32: u32 = 130;
pub const SUCCESS_U64: u32 = 131;
pub const SUCCESS_3_U32: u32 = 132;
pub const SUCCESS_U32_U64: u32 = 133;

/// A kernel-reported error code: a stable wire constant carried in the second
/// register of a two-register failure reply. `Reserved` keeps codes the ABI
/// reserves but does not name, so decoding is total and loses nothing.
#[derive(Clone, Copy, PartialEq, Eq, Structural, Debug)]
pub enum ErrorCode {
    Fail,
    Busy,
    Already,
    Off,
    Reserve,
    Invalid,
    Size,
    Cancel,
    NoMem,
    NoSupport,
    NoDevice,
    Uninstalled,
    NoAck,
    BadRVal,
    Reserved(u32),
}

/// The wire constant of an error code.
pub open spec fn error_code_value(e: ErrorCode) -> u32 {
    match e {
        ErrorCode::Fail => 1,
        ErrorCode::Busy => 2,
        ErrorCode::Already => 3,
        ErrorCode::Off => 4,
        ErrorCode::Reserve => 5,
        ErrorCode::Invalid => 6,
        ErrorCode::Size => 7,
        ErrorCode::Cancel => 8,
        ErrorCode::NoMem => 9,
        ErrorCode::NoSupport => 10,
        ErrorCode::NoDevice => 11,
        ErrorCode::Uninstalled => 12,
        ErrorCode::NoAck => 13,
        ErrorCode::BadRVal => 1024,
        ErrorCode::Reserved(v) => v,
    }
}

/// The error code a wire constant names.
pub open spec fn spec_error_code(v: u32) -> ErrorCode {
    if v == 1 {
        ErrorCode::Fail
    } else if v == 2 {
        ErrorCode::Busy
    } else if v == 3 {
        ErrorCode::Already
    } else if v == 4 {
        ErrorCode::Off
    } else if v == 5 {
        ErrorCode::Reserve
    } else if v == 6 {
        ErrorCode::Invalid
    } else if v == 7 {
        ErrorCode::Size
    } else if v == 8 {
        ErrorCode::Cancel
    } else if v == 9 {
        ErrorCode::NoMem
    } else if v == 10 {
        ErrorCode::NoSupport
    } else if v == 11 {
        ErrorCode::NoDevice
    } else if v == 12 {
        ErrorCode::Uninstalled
    } else if v == 13 {
        ErrorCode::NoAck
    } else if v == 1024 {
        ErrorCode::BadRVal
    } else {
        ErrorCode::Reserved(v)
    }
}

/// Read an error code out of its wire constant.
pub fn error_code_from(v: u32) -> (e: ErrorCode)
    ensures
        e == spec_error_code(v),
{
    if v == 1 {
        ErrorCode::Fail
    } else if v == 2 {
        ErrorCode::Busy
    } else if v == 3 {
        ErrorCode::Already
    } else if v == 4 {
        ErrorCode::Off
    } else if v == 5 {
        ErrorCode::Reserve
    } else if v == 6 {
        ErrorCode::Invalid
    } else if v == 7 {
        ErrorCode::Size
    } else if v == 8 {
        ErrorCode::Cancel
    } else if v == 9 {
        ErrorCode::NoMem
    } else if v == 10 {
        ErrorCode::NoSupport
    } else if v == 11 {
        ErrorCode::NoDevice
    } else if v == 12 {
        ErrorCode::Uninstalled
    } else if v == 13 {
        ErrorCode::NoAck
    } else if v == 1024 {
        ErrorCode::BadRVal
    } else {
        ErrorCode::Reserved(v)
    }
}

/// Decoding a wire constant never changes it: the enumeration is a faithful
/// renaming of the ABI's numbers.
pub proof fn lemma_error_code_round_trip(v: u32)
    ensures
        error_code_value(spec_error_code(v)) == v,
{
}

/// The values a success reply carries, by documented success shape.
#[derive(Clone, Copy, PartialEq, Eq, Structural, Debug)]
pub enum SuccessValues {
    Plain,
    U32(u32),
    TwoU32(u32, u32),
    U64(u64),
    ThreeU32(u32, u32, u32),
    U32U64(u32, u64),
}

/// What a raw reply means: a documented success shape with its values, the
/// documented two-register failure with its error code, or a protocol
/// violation (a shape this ABI does not define for a completed syscall).
#[derive(Clone, Copy, PartialEq, Eq, Structural, Debug)]
pub enum Decoded {
    Success(SuccessValues),
    Failure(ErrorCode),
    Violation,
}

/// Whether register 0 names a documented success shape.
pub open spec fn is_success_variant(r0: u32) -> bool {
    SUCCESS <= r0 <= SUCCESS_U32_U64
}

/// The meaning of a raw reply.
pub open spec fn spec_decode(r: Reply) -> Decoded {
    if r.r0 == SUCCESS {
        Decoded::Success(SuccessValues::Plain)
    } else if r.r0 == SUCCESS_U32 {
        Decoded::Success(SuccessValues::U32(r.r1))
    } else if r.r0 == SUCCESS_2_U32 {
        Decoded::Success(SuccessValues::TwoU32(r.r1, r.r2))
    } else if r.r0 == SUCCESS_U64 {
        Decoded::Success(SuccessValues::U64(((r.r2 as u64) << 32) | (r.r1 as u64)))
    } else if r.r0 == SUCCESS_3_U32 {
        Decoded::Success(SuccessValues::ThreeU32(r.r1, r.r2, r.r3))
    } else if r.r0 == SUCCESS_U32_U64 {
        Decoded::Success(SuccessValues::U32U64(r.r1, ((r.r3 as u64) << 32) | (r.r2 as u64)))
    } else if r.r0 == FAILURE_2_U32 {
        Decoded::Failure(spec_error_code(r.r1))
    } else {
        Decoded::Violation
    }
}

/// Interpret a raw syscall reply. Pure: every component calls this instead
/// of reading registers itself.
pub fn decode(r: Reply) -> (d: Decoded)
    ensures
        d == spec_decode(r),
{
    if r.r0 == SUCCESS {
        Decoded::Success(SuccessValues::Plain)
    } else if r.r0 == SUCCESS_U32 {
        Decoded::Success(SuccessValues::U32(r.r1))
    } else if r.r0 == SUCCESS_2_U32 {
        Decoded::Success(SuccessValues::TwoU32(r.r1, r.r2))
    } else if r.r0 == SUCCESS_U64 {
        Decoded::Success(SuccessValues::U64(((r.r2 as u64) << 32) | (r.r1 as u64)))
    } else if r.r0 == SUCCESS_3_U32 {
        Decoded::Success(SuccessValues::ThreeU32(r.r1, r.r2, r.r3))
    } else if r.r0 == SUCCESS_U32_U64 {
        Decoded::Success(SuccessValues::U32U64(r.r1, ((r.r3 as u64) << 32) | (r.r2 as u64)))
    } else if r.r0 == FAILURE_2_U32 {
        Decoded::Failure(error_code_from(r.r1))
    } else {
        Decoded::Violation
    }
}

/// How a fallible operation of this runtime fails: either the kernel reported
/// a typed error code, or the reply had a shape the ABI does not document — a
/// protocol violation, unrecoverable at this layer and never coerced into an
/// error code.
#[derive(Clone, Copy, PartialEq, Eq, Structural, Debug)]
pub enum Fault {
    Kernel(ErrorCode),
    Protocol,
}

/// The result surfaced by an operation for which any documented success shape
/// counts as plain success.
pub open spec fn spec_unit_result(r: Reply) -> Result<(), Fault> {
    match spec_decode(r) {
        Decoded::Success(_) => Ok(()),
        Decoded::Failure(e) => Err(Fault::Kernel(e)),
        Decoded::Violation => Err(Fault::Protocol),
    }
}

/// Interpret a reply where success carries no values the caller needs.
pub fn unit_result(r: Reply) -> (res: Result<(), Fault>)
    ensures
        res == spec_unit_result(r),
{
    match decode(r) {
        Decoded::Success(_) => Ok(()),
        Decoded::Failure(e) => Err(Fault::Kernel(e)),
        Decoded::Violation => Err(Fault::Protocol),
    }
}

impl Reply {
    /// The plain success reply, carrying no values.
    pub fn success() -> (r: Reply)
        ensures
            r == (Reply { r0: SUCCESS, r1: 0, r2: 0, r3: 0 }),
            spec_decode(r) == Decoded::Success(SuccessValues::Plain),
    {
        Reply { r0: SUCCESS, r1: 0, r2: 0, r3: 0 }
    }

    /// A success reply carrying one value.
    pub fn success_u32(v: u32) -> (r: Reply)
        ensures
            r == (Reply { r0: SUCCESS_U32, r1: v, r2: 0, r3: 0 }),
            spec_decode(r) == Decoded::Success(SuccessValues::U32(v)),
    {
        Reply { r0: SUCCESS_U32, r1: v, r2: 0, r3: 0 }
    }

    /// A success reply carrying two values.
    pub fn success_2_u32(a: u32, b: u32) -> (r: Reply)
        ensures
            r == (Reply { r0: SUCCESS_2_U32, r1: a, r2: b, r3: 0 }),
            spec_decode(r) == Decoded::Success(SuccessValues::TwoU32(a, b)),
    {
        Reply { r0: SUCCESS_2_U32, r1: a, r2: b, r3: 0 }
    }

    /// The documented two-register failure reply carrying `e`.
    pub fn failure(e: ErrorCode) -> (r: Reply)
        ensures
            r.r0 == FAILURE_2_U32,
            r.r1 == error_code_value(e),
            spec_decode(r) == Decoded::Failure(spec_error_code(error_code_value(e))),
    {
        Reply { r0: FAILURE_2_U32, r1: error_code_to(e), r2: 0, r3: 0 }
    }
}

/// Write an error code as its wire constant.
pub fn error_code_to(e: ErrorCode) -> (v: u32)
    ensures
        v == error_code_value(e),
{
    match e {
        ErrorCode::Fail => 1,
        ErrorCode::Busy => 2,
        ErrorCode::Already => 3,
        ErrorCode::Off => 4,
        ErrorCode::Reserve => 5,
        ErrorCode::Invalid => 6,
        ErrorCode::Size => 7,
        ErrorCode::Cancel => 8,
        ErrorCode::NoMem => 9,
        ErrorCode::NoSupport => 10,
        ErrorCode::NoDevice => 11,
        ErrorCode::Uninstalled => 12,
        ErrorCode::NoAck => 13,
        ErrorCode::BadRVal => 1024,
        ErrorCode::Reserved(v) => v,
    }
}

/// A failure reply yields a typed error code exactly when it has the
/// documented two-register shape; every other undocumented shape is rejected
/// as a protocol violation, never coerced into some error code.
pub proof fn lemma_decode_failure_shapes(r: Reply)
    ensures
        (spec_decode(r) is Failure) <==> r.r0 == FAILURE_2_U32,
        (spec_decode(r) is Violation) <==> !(r.r0 == FAILURE_2_U32 || is_success_variant(r.r0)),
        r.r0 == FAILURE_2_U32 ==> spec_decode(r) == Decoded::Failure(spec_error_code(r.r1)),
{
}

} // verus!
