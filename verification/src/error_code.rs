//! Raw `PrismError` integer codes, exactly as the C enum defines them.
//!
//! These are the wire values crossing the native boundary. Prefer
//! [`crate::Error`] for Rust-side handling; the constants make the mapping
//! explicit and testable.

use vstd::prelude::*;

verus! {

/// `PRISM_OK`
pub const OK: i32 = 0;
/// `PRISM_ERROR_NOT_INITIALIZED`
pub const NOT_INITIALIZED: i32 = 1;
/// `PRISM_ERROR_INVALID_PARAM`
pub const INVALID_PARAM: i32 = 2;
/// `PRISM_ERROR_NOT_IMPLEMENTED`
pub const NOT_IMPLEMENTED: i32 = 3;
/// `PRISM_ERROR_NO_VOICES`
pub const NO_VOICES: i32 = 4;
/// `PRISM_ERROR_VOICE_NOT_FOUND`
pub const VOICE_NOT_FOUND: i32 = 5;
/// `PRISM_ERROR_SPEAK_FAILURE`
pub const SPEAK_FAILURE: i32 = 6;
/// `PRISM_ERROR_MEMORY_FAILURE`
pub const MEMORY_FAILURE: i32 = 7;
/// `PRISM_ERROR_RANGE_OUT_OF_BOUNDS`
pub const RANGE_OUT_OF_BOUNDS: i32 = 8;
/// `PRISM_ERROR_INTERNAL`
pub const INTERNAL: i32 = 9;
/// `PRISM_ERROR_NOT_SPEAKING`
pub const NOT_SPEAKING: i32 = 10;
/// `PRISM_ERROR_NOT_PAUSED`
pub const NOT_PAUSED: i32 = 11;
/// `PRISM_ERROR_ALREADY_PAUSED`
pub const ALREADY_PAUSED: i32 = 12;
/// `PRISM_ERROR_INVALID_UTF8`
pub const INVALID_UTF8: i32 = 13;
/// `PRISM_ERROR_INVALID_OPERATION`
pub const INVALID_OPERATION: i32 = 14;
/// `PRISM_ERROR_ALREADY_INITIALIZED`
pub const ALREADY_INITIALIZED: i32 = 15;
/// `PRISM_ERROR_BACKEND_NOT_AVAILABLE`
pub const BACKEND_NOT_AVAILABLE: i32 = 16;
/// `PRISM_ERROR_UNKNOWN`
pub const UNKNOWN: i32 = 17;
/// `PRISM_ERROR_INVALID_AUDIO_FORMAT`
pub const INVALID_AUDIO_FORMAT: i32 = 18;
/// `PRISM_ERROR_INTERNAL_BACKEND_LIMIT_EXCEEDED`
pub const INTERNAL_BACKEND_LIMIT_EXCEEDED: i32 = 19;
/// `PRISM_ERROR_BACKEND_ENTERED_UNDEFINED_STATE`
pub const BACKEND_ENTERED_UNDEFINED_STATE: i32 = 20;
/// `PRISM_ERROR_LIBRARY_LOAD_FAILED`
pub const LIBRARY_LOAD_FAILED: i32 = 21;
/// `PRISM_ERROR_LIBRARY_INVALID`
pub const LIBRARY_INVALID: i32 = 22;
/// `PRISM_ERROR_INCOMPATIBLE_ABI`
pub const INCOMPATIBLE_ABI: i32 = 23;
/// `PRISM_ERROR_COUNT` — one past the last valid error code.
pub const COUNT: i32 = 24;

} // verus!
