#![allow(non_camel_case_types)]

use vstd::prelude::*;

verus! {

pub type c_char = i8;
pub type c_schar = i8;
pub type c_uchar = u8;
pub type c_short = i16;
pub type c_ushort = u16;
pub type c_int = i32;
pub type c_uint = u32;
pub type c_long = i32;
pub type c_ulong = u32;
pub type c_longlong = i64;
pub type c_ulonglong = u64;
pub type __int8 = i8;
pub type __uint8 = u8;
pub type __int16 = i16;
pub type __uint16 = u16;
pub type __int32 = i32;
pub type __uint32 = u32;
pub type __int64 = i64;
pub type __uint64 = u64;
pub type wchar_t = u16;

/// The status code that a GDI+ call returns.
pub type Status = c_int;

/// A GDI+ unit of measure.
pub type Unit = c_int;

/// The status of a GDI+ call that succeeded.
#[allow(non_upper_case_globals)]
pub const Status_Ok: Status = 0i32;

} // verus!
