//! Raw `PrismBackendFeature` capability bits, exactly as the C enum defines
//! them (bit 1 is intentionally left unused by the C enum).
//!
//! Combine them into a [`crate::BackendFeatures`] set with
//! [`crate::BackendFeatures::from_bits_retain`].

use vstd::prelude::*;

verus! {

/// `PRISM_BACKEND_IS_SUPPORTED_AT_RUNTIME`
pub const IS_SUPPORTED_AT_RUNTIME: u64 = 1 << 0;

/// `PRISM_BACKEND_SUPPORTS_SPEAK`
pub const SUPPORTS_SPEAK: u64 = 1 << 2;

/// `PRISM_BACKEND_SUPPORTS_SPEAK_TO_MEMORY`
pub const SUPPORTS_SPEAK_TO_MEMORY: u64 = 1 << 3;

/// `PRISM_BACKEND_SUPPORTS_BRAILLE`
pub const SUPPORTS_BRAILLE: u64 = 1 << 4;

/// `PRISM_BACKEND_SUPPORTS_OUTPUT`
pub const SUPPORTS_OUTPUT: u64 = 1 << 5;

/// `PRISM_BACKEND_SUPPORTS_IS_SPEAKING`
pub const SUPPORTS_IS_SPEAKING: u64 = 1 << 6;

/// `PRISM_BACKEND_SUPPORTS_STOP`
pub const SUPPORTS_STOP: u64 = 1 << 7;

/// `PRISM_BACKEND_SUPPORTS_PAUSE`
pub const SUPPORTS_PAUSE: u64 = 1 << 8;

/// `PRISM_BACKEND_SUPPORTS_RESUME`
pub const SUPPORTS_RESUME: u64 = 1 << 9;

/// `PRISM_BACKEND_SUPPORTS_SET_VOLUME`
pub const SUPPORTS_SET_VOLUME: u64 = 1 << 10;

/// `PRISM_BACKEND_SUPPORTS_GET_VOLUME`
pub const SUPPORTS_GET_VOLUME: u64 = 1 << 11;

/// `PRISM_BACKEND_SUPPORTS_SET_RATE`
pub const SUPPORTS_SET_RATE: u64 = 1 << 12;

/// `PRISM_BACKEND_SUPPORTS_GET_RATE`
pub const SUPPORTS_GET_RATE: u64 = 1 << 13;

/// `PRISM_BACKEND_SUPPORTS_SET_PITCH`
pub const SUPPORTS_SET_PITCH: u64 = 1 << 14;

/// `PRISM_BACKEND_SUPPORTS_GET_PITCH`
pub const SUPPORTS_GET_PITCH: u64 = 1 << 15;

/// `PRISM_BACKEND_SUPPORTS_REFRESH_VOICES`
pub const SUPPORTS_REFRESH_VOICES: u64 = 1 << 16;

/// `PRISM_BACKEND_SUPPORTS_COUNT_VOICES`
pub const SUPPORTS_COUNT_VOICES: u64 = 1 << 17;

/// `PRISM_BACKEND_SUPPORTS_GET_VOICE_NAME`
pub const SUPPORTS_GET_VOICE_NAME: u64 = 1 << 18;

/// `PRISM_BACKEND_SUPPORTS_GET_VOICE_LANGUAGE`
pub const SUPPORTS_GET_VOICE_LANGUAGE: u64 = 1 << 19;

/// `PRISM_BACKEND_SUPPORTS_GET_VOICE`
pub const SUPPORTS_GET_VOICE: u64 = 1 << 20;

/// `PRISM_BACKEND_SUPPORTS_SET_VOICE`
pub const SUPPORTS_SET_VOICE: u64 = 1 << 21;

/// `PRISM_BACKEND_SUPPORTS_GET_CHANNELS`
pub const SUPPORTS_GET_CHANNELS: u64 = 1 << 22;

/// `PRISM_BACKEND_SUPPORTS_GET_SAMPLE_RATE`
pub const SUPPORTS_GET_SAMPLE_RATE: u64 = 1 << 23;

/// `PRISM_BACKEND_SUPPORTS_GET_BIT_DEPTH`
pub const SUPPORTS_GET_BIT_DEPTH: u64 = 1 << 24;

/// `PRISM_BACKEND_PERFORMS_SILENCE_TRIMMING_ON_SPEAK`
pub const PERFORMS_SILENCE_TRIMMING_ON_SPEAK: u64 = 1 << 25;

/// `PRISM_BACKEND_PERFORMS_SILENCE_TRIMMING_ON_SPEAK_TO_MEMORY`
pub const PERFORMS_SILENCE_TRIMMING_ON_SPEAK_TO_MEMORY: u64 = 1 << 26;

/// `PRISM_BACKEND_SUPPORTS_SPEAK_SSML`
pub const SUPPORTS_SPEAK_SSML: u64 = 1 << 27;

/// `PRISM_BACKEND_SUPPORTS_SPEAK_TO_MEMORY_SSML`
pub const SUPPORTS_SPEAK_TO_MEMORY_SSML: u64 = 1 << 28;

/// `PRISM_BACKEND_FEATURE_MAX_BIT` — highest reserved feature bit.
pub const FEATURE_MAX_BIT: u64 = 1 << 63;

/// Every defined flag together.
pub const ALL: u64 = IS_SUPPORTED_AT_RUNTIME
    | SUPPORTS_SPEAK
    | SUPPORTS_SPEAK_TO_MEMORY
    | SUPPORTS_BRAILLE
    | SUPPORTS_OUTPUT
    | SUPPORTS_IS_SPEAKING
    | SUPPORTS_STOP
    | SUPPORTS_PAUSE
    | SUPPORTS_RESUME
    | SUPPORTS_SET_VOLUME
    | SUPPORTS_GET_VOLUME
    | SUPPORTS_SET_RATE
    | SUPPORTS_GET_RATE
    | SUPPORTS_SET_PITCH
    | SUPPORTS_GET_PITCH
    | SUPPORTS_REFRESH_VOICES
    | SUPPORTS_COUNT_VOICES
    | SUPPORTS_GET_VOICE_NAME
    | SUPPORTS_GET_VOICE_LANGUAGE
    | SUPPORTS_GET_VOICE
    | SUPPORTS_SET_VOICE
    | SUPPORTS_GET_CHANNELS
    | SUPPORTS_GET_SAMPLE_RATE
    | SUPPORTS_GET_BIT_DEPTH
    | PERFORMS_SILENCE_TRIMMING_ON_SPEAK
    | PERFORMS_SILENCE_TRIMMING_ON_SPEAK_TO_MEMORY
    | SUPPORTS_SPEAK_SSML
    | SUPPORTS_SPEAK_TO_MEMORY_SSML
    | FEATURE_MAX_BIT;

} // verus!
