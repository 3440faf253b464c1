//! The value source adapter: what was read from one platform source (a
//! pseudo-file's contents, or the reason it could not be read) becomes a
//! typed value. The strict form reports why it failed; the tolerant form
//! gives an absent value instead.

use vstd::prelude::*;
use crate::error::{GhrError, GhrResult};
use crate::text::{parse_signed32, parse_unsigned, parse_i32, parse_u32, parse_u64, parse_u8, trim, trim_string};

verus! {

/// The trimmed text of a source.
pub fn sysfs_value_string(read: Result<String, String>) -> (r: GhrResult<String>)
    ensures
        match read {
            Ok(t) => r is Ok && r->Ok_0@ == trim(t@),
            Err(_) => r is Err && r->Err_0 is ComponentInfoInaccessible,
        },
{
    match read {
        Ok(t) => Ok(trim_string(t.as_str())),
        Err(e) => Err(GhrError::ComponentInfoInaccessible(e)),
    }
}

/// The trimmed text of a source, or nothing.
pub fn sysfs_value_opt_string(read: Option<String>) -> (r: Option<String>)
    ensures
        match read {
            Some(t) => r is Some && r->0@ == trim(t@),
            None => r is None,
        },
{
    match read {
        Some(t) => Some(trim_string(t.as_str())),
        None => None,
    }
}

/// A source read as a `u64`.
pub fn sysfs_value_u64(read: Result<String, String>) -> (r: GhrResult<u64>)
    ensures
        match read {
            Err(_) => r is Err && r->Err_0 is ComponentInfoInaccessible,
            Ok(t) => match parse_unsigned(trim(t@), 10, u64::MAX as int) {
                Some(v) => r == Ok::<u64, GhrError>(v as u64),
                None => r is Err && r->Err_0 is ComponentInfoWeirdInfo,
            },
        },
{
    match read {
        Err(e) => Err(GhrError::ComponentInfoInaccessible(e)),
        Ok(t) => match parse_u64(t.as_str()) {
            Some(v) => Ok(v),
            None => Err(GhrError::ComponentInfoWeirdInfo(t)),
        },
    }
}

/// A source read as a `u64`, or nothing.
pub fn sysfs_value_opt_u64(read: Option<String>) -> (r: Option<u64>)
    ensures
        match read {
            None => r is None,
            Some(t) => match parse_unsigned(trim(t@), 10, u64::MAX as int) {
                Some(v) => r == Some(v as u64),
                None => r is None,
            },
        },
{
    match read {
        None => None,
        Some(t) => parse_u64(t.as_str()),
    }
}

/// A source read as a `u32`, or nothing.
pub fn sysfs_value_opt_u32(read: Option<String>) -> (r: Option<u32>)
    ensures
        match read {
            None => r is None,
            Some(t) => match parse_unsigned(trim(t@), 10, u32::MAX as int) {
                Some(v) => r == Some(v as u32),
                None => r is None,
            },
        },
{
    match read {
        None => None,
        Some(t) => parse_u32(t.as_str()),
    }
}

/// A source read as a `u8`, or nothing.
pub fn sysfs_value_opt_u8(read: Option<String>) -> (r: Option<u8>)
    ensures
        match read {
            None => r is None,
            Some(t) => match parse_unsigned(trim(t@), 10, u8::MAX as int) {
                Some(v) => r == Some(v as u8),
                None => r is None,
            },
        },
{
    match read {
        None => None,
        Some(t) => parse_u8(t.as_str()),
    }
}

/// A source read as an `i32`, or nothing.
pub fn sysfs_value_opt_i32(read: Option<String>) -> (r: Option<i32>)
    ensures
        match read {
            None => r is None,
            Some(t) => match parse_signed32(trim(t@)) {
                Some(v) => r == Some(v as i32),
                None => r is None,
            },
        },
{
    match read {
        None => None,
        Some(t) => parse_i32(t.as_str()),
    }
}

} // verus!
