//! The Prism error type and its mapping to and from raw `PrismError` codes.

use vstd::prelude::*;

use crate::error_code as c;
use crate::text::{decimal, push_decimal};

verus! {

/// A Prism error, mapped from a non-zero `PrismError` code.
///
/// `PRISM_OK` (`0`) is deliberately *not* representable: success is modeled as
/// `Ok(())` in [`Error::check`]. Any code outside the known range is preserved
/// via [`Error::Unrecognized`] so forward-compatibility never loses
/// information.
#[derive(Debug, Clone, Copy, PartialEq, Eq, Hash, Structural)]
#[non_exhaustive]
pub enum Error {
    /// The library or backend was used before initialization.
    NotInitialized,
    /// A parameter was invalid (null, empty, out of range, ...).
    InvalidParam,
    /// The requested operation is not implemented by this backend.
    NotImplemented,
    /// No voices are available.
    NoVoices,
    /// The requested voice does not exist.
    VoiceNotFound,
    /// Speaking failed.
    SpeakFailure,
    /// A memory allocation failed.
    MemoryFailure,
    /// An index or value was out of bounds.
    RangeOutOfBounds,
    /// An internal (non-recoverable) error occurred.
    Internal,
    /// The backend is not currently speaking.
    NotSpeaking,
    /// The backend is not currently paused.
    NotPaused,
    /// The backend is already paused.
    AlreadyPaused,
    /// A string was not valid UTF-8.
    InvalidUtf8,
    /// The operation is invalid in the current state.
    InvalidOperation,
    /// The library or backend was already initialized.
    AlreadyInitialized,
    /// The backend exists but is not available at runtime.
    BackendNotAvailable,
    /// An unknown error occurred.
    Unknown,
    /// The audio format reported by the backend is invalid.
    InvalidAudioFormat,
    /// An internal backend limit was exceeded.
    InternalBackendLimitExceeded,
    /// The backend entered an undefined state.
    BackendEnteredUndefinedState,
    /// A backend plugin library could not be loaded.
    LibraryLoadFailed,
    /// A backend plugin library loaded but is not a valid Prism plugin.
    LibraryInvalid,
    /// A backend plugin library declares an incompatible plugin ABI version.
    IncompatibleAbi,
    /// A code outside the range known to this binding version.
    Unrecognized(i32),
}

/// Whether `code` is one of the error codes this binding knows by name
/// (`PRISM_OK < code < PRISM_ERROR_COUNT`).
pub open spec fn is_known_code(code: i32) -> bool {
    c::OK < code < c::COUNT
}

impl Error {
    /// The raw code of each variant, as the C header defines it.
    pub open spec fn code_of(self) -> i32 {
        match self {
            Error::NotInitialized => c::NOT_INITIALIZED,
            Error::InvalidParam => c::INVALID_PARAM,
            Error::NotImplemented => c::NOT_IMPLEMENTED,
            Error::NoVoices => c::NO_VOICES,
            Error::VoiceNotFound => c::VOICE_NOT_FOUND,
            Error::SpeakFailure => c::SPEAK_FAILURE,
            Error::MemoryFailure => c::MEMORY_FAILURE,
            Error::RangeOutOfBounds => c::RANGE_OUT_OF_BOUNDS,
            Error::Internal => c::INTERNAL,
            Error::NotSpeaking => c::NOT_SPEAKING,
            Error::NotPaused => c::NOT_PAUSED,
            Error::AlreadyPaused => c::ALREADY_PAUSED,
            Error::InvalidUtf8 => c::INVALID_UTF8,
            Error::InvalidOperation => c::INVALID_OPERATION,
            Error::AlreadyInitialized => c::ALREADY_INITIALIZED,
            Error::BackendNotAvailable => c::BACKEND_NOT_AVAILABLE,
            Error::Unknown => c::UNKNOWN,
            Error::InvalidAudioFormat => c::INVALID_AUDIO_FORMAT,
            Error::InternalBackendLimitExceeded => c::INTERNAL_BACKEND_LIMIT_EXCEEDED,
            Error::BackendEnteredUndefinedState => c::BACKEND_ENTERED_UNDEFINED_STATE,
            Error::LibraryLoadFailed => c::LIBRARY_LOAD_FAILED,
            Error::LibraryInvalid => c::LIBRARY_INVALID,
            Error::IncompatibleAbi => c::INCOMPATIBLE_ABI,
            Error::Unrecognized(v) => v,
        }
    }

    /// `self` is the error that the raw code `code` stands for: its code is
    /// `code`, and it is a named variant exactly when `code` is a known code.
    pub open spec fn represents(self, code: i32) -> bool {
        &&& self.code_of() == code
        &&& (is_known_code(code) <==> !(self is Unrecognized))
    }

    /// What `from_code` gives for `code`: nothing for `PRISM_OK`, otherwise
    /// the error that represents `code` (there is exactly one, see
    /// [`lemma_represents_unique`] and [`lemma_every_code_is_represented`]).
    pub open spec fn from_code_spec(code: i32) -> Option<Error> {
        if code == c::OK {
            None
        } else {
            Some(choose|e: Error| e.represents(code))
        }
    }

    /// What `check` gives for `code`: `Ok(())` for `PRISM_OK`, otherwise the
    /// error that represents `code`.
    pub open spec fn check_spec(code: i32) -> Result<(), Error> {
        match Error::from_code_spec(code) {
            Some(e) => Err(e),
            None => Ok(()),
        }
    }

    /// Convert a raw `PrismError` code into a [`Result`].
    ///
    /// `0` (`PRISM_OK`) becomes `Ok(())`; every other value becomes the
    /// corresponding `Err(Error)`.
    pub fn check(code: i32) -> (r: Result<(), Error>)
        ensures
            r == Error::check_spec(code),
            r is Ok <==> code == c::OK,
            r matches Err(e) ==> e.represents(code),
    {
        match Self::from_code(code) {
            Some(e) => Err(e),
            None => Ok(()),
        }
    }

    /// Map a raw `PrismError` code to an [`Error`], or `None` for `PRISM_OK`.
    pub fn from_code(code: i32) -> (r: Option<Error>)
        ensures
            r == Error::from_code_spec(code),
            r is None <==> code == c::OK,
            r matches Some(e) ==> e.represents(code),
    {
        if code == c::OK {
            return None;
        }
        let e = match code {
                c::NOT_INITIALIZED => Error::NotInitialized,
                c::INVALID_PARAM => Error::InvalidParam,
                c::NOT_IMPLEMENTED => Error::NotImplemented,
                c::NO_VOICES => Error::NoVoices,
                c::VOICE_NOT_FOUND => Error::VoiceNotFound,
                c::SPEAK_FAILURE => Error::SpeakFailure,
                c::MEMORY_FAILURE => Error::MemoryFailure,
                c::RANGE_OUT_OF_BOUNDS => Error::RangeOutOfBounds,
                c::INTERNAL => Error::Internal,
                c::NOT_SPEAKING => Error::NotSpeaking,
                c::NOT_PAUSED => Error::NotPaused,
                c::ALREADY_PAUSED => Error::AlreadyPaused,
                c::INVALID_UTF8 => Error::InvalidUtf8,
                c::INVALID_OPERATION => Error::InvalidOperation,
                c::ALREADY_INITIALIZED => Error::AlreadyInitialized,
                c::BACKEND_NOT_AVAILABLE => Error::BackendNotAvailable,
                c::UNKNOWN => Error::Unknown,
                c::INVALID_AUDIO_FORMAT => Error::InvalidAudioFormat,
                c::INTERNAL_BACKEND_LIMIT_EXCEEDED => Error::InternalBackendLimitExceeded,
                c::BACKEND_ENTERED_UNDEFINED_STATE => Error::BackendEnteredUndefinedState,
                c::LIBRARY_LOAD_FAILED => Error::LibraryLoadFailed,
                c::LIBRARY_INVALID => Error::LibraryInvalid,
                c::INCOMPATIBLE_ABI => Error::IncompatibleAbi,
                other => Error::Unrecognized(other),
        };
        proof {
            assert(e.represents(code));
            lemma_represents_unique(e, choose|x: Error| x.represents(code), code);
        }
        Some(e)
    }

    /// The raw `PrismError` code this error maps to.
    pub fn code(&self) -> (r: i32)
        ensures
            r == self.code_of(),
    {
        match self {
            Error::NotInitialized => c::NOT_INITIALIZED,
            Error::InvalidParam => c::INVALID_PARAM,
            Error::NotImplemented => c::NOT_IMPLEMENTED,
            Error::NoVoices => c::NO_VOICES,
            Error::VoiceNotFound => c::VOICE_NOT_FOUND,
            Error::SpeakFailure => c::SPEAK_FAILURE,
            Error::MemoryFailure => c::MEMORY_FAILURE,
            Error::RangeOutOfBounds => c::RANGE_OUT_OF_BOUNDS,
            Error::Internal => c::INTERNAL,
            Error::NotSpeaking => c::NOT_SPEAKING,
            Error::NotPaused => c::NOT_PAUSED,
            Error::AlreadyPaused => c::ALREADY_PAUSED,
            Error::InvalidUtf8 => c::INVALID_UTF8,
            Error::InvalidOperation => c::INVALID_OPERATION,
            Error::AlreadyInitialized => c::ALREADY_INITIALIZED,
            Error::BackendNotAvailable => c::BACKEND_NOT_AVAILABLE,
            Error::Unknown => c::UNKNOWN,
            Error::InvalidAudioFormat => c::INVALID_AUDIO_FORMAT,
            Error::InternalBackendLimitExceeded => c::INTERNAL_BACKEND_LIMIT_EXCEEDED,
            Error::BackendEnteredUndefinedState => c::BACKEND_ENTERED_UNDEFINED_STATE,
            Error::LibraryLoadFailed => c::LIBRARY_LOAD_FAILED,
            Error::LibraryInvalid => c::LIBRARY_INVALID,
            Error::IncompatibleAbi => c::INCOMPATIBLE_ABI,
            Error::Unrecognized(v) => *v,
        }
    }
}


impl Error {
    /// The fixed English message of each variant.
    pub open spec fn message_of(self) -> Seq<char> {
        match self {
            Error::NotInitialized => "Prism is not initialized"@,
            Error::InvalidParam => "invalid parameter"@,
            Error::NotImplemented => "operation not implemented by this backend"@,
            Error::NoVoices => "no voices available"@,
            Error::VoiceNotFound => "voice not found"@,
            Error::SpeakFailure => "speak failed"@,
            Error::MemoryFailure => "memory allocation failed"@,
            Error::RangeOutOfBounds => "index or value out of bounds"@,
            Error::Internal => "internal error"@,
            Error::NotSpeaking => "backend is not speaking"@,
            Error::NotPaused => "backend is not paused"@,
            Error::AlreadyPaused => "backend is already paused"@,
            Error::InvalidUtf8 => "string is not valid UTF-8"@,
            Error::InvalidOperation => "invalid operation in the current state"@,
            Error::AlreadyInitialized => "already initialized"@,
            Error::BackendNotAvailable => "backend is not available at runtime"@,
            Error::Unknown => "unknown error"@,
            Error::InvalidAudioFormat => "invalid audio format reported by backend"@,
            Error::InternalBackendLimitExceeded => "internal backend limit exceeded"@,
            Error::BackendEnteredUndefinedState => "backend entered an undefined state"@,
            Error::LibraryLoadFailed => "backend plugin library failed to load"@,
            Error::LibraryInvalid => "backend plugin library is not a valid Prism plugin"@,
            Error::IncompatibleAbi => "backend plugin library has an incompatible ABI version"@,
            Error::Unrecognized(_) => "unrecognized Prism error code"@,
        }
    }

    /// A stable, English fallback message.
    ///
    /// The native library's own wording is preferred where it is available
    /// (see [`crate::bridge::error_text`]); this is the fallback and the first
    /// part of [`Error::to_string`].
    pub fn message(&self) -> (r: &'static str)
        ensures
            r@ == self.message_of(),
    {
        match self {
            Error::NotInitialized => "Prism is not initialized",
            Error::InvalidParam => "invalid parameter",
            Error::NotImplemented => "operation not implemented by this backend",
            Error::NoVoices => "no voices available",
            Error::VoiceNotFound => "voice not found",
            Error::SpeakFailure => "speak failed",
            Error::MemoryFailure => "memory allocation failed",
            Error::RangeOutOfBounds => "index or value out of bounds",
            Error::Internal => "internal error",
            Error::NotSpeaking => "backend is not speaking",
            Error::NotPaused => "backend is not paused",
            Error::AlreadyPaused => "backend is already paused",
            Error::InvalidUtf8 => "string is not valid UTF-8",
            Error::InvalidOperation => "invalid operation in the current state",
            Error::AlreadyInitialized => "already initialized",
            Error::BackendNotAvailable => "backend is not available at runtime",
            Error::Unknown => "unknown error",
            Error::InvalidAudioFormat => "invalid audio format reported by backend",
            Error::InternalBackendLimitExceeded => "internal backend limit exceeded",
            Error::BackendEnteredUndefinedState => "backend entered an undefined state",
            Error::LibraryLoadFailed => "backend plugin library failed to load",
            Error::LibraryInvalid => "backend plugin library is not a valid Prism plugin",
            Error::IncompatibleAbi => "backend plugin library has an incompatible ABI version",
            Error::Unrecognized(_) => "unrecognized Prism error code",
        }
    }

    /// The text this error displays as: its message and its code.
    pub open spec fn display_of(self) -> Seq<char> {
        match self {
            Error::Unrecognized(v) => self.message_of() + " ("@ + decimal(v as int) + ")"@,
            _ => self.message_of() + " (code "@ + decimal(self.code_of() as int) + ")"@,
        }
    }

    /// The message followed by the code: `"<message> (code <n>)"`, or
    /// `"<message> (<n>)"` for an unrecognized code.
    pub fn to_string(&self) -> (r: String)
        ensures
            r@ == self.display_of(),
    {
        let mut out = String::from_str(self.message());
        match self {
            Error::Unrecognized(v) => {
                out.append(" (");
                push_decimal(&mut out, *v as i64);
            },
            _ => {
                out.append(" (code ");
                push_decimal(&mut out, self.code() as i64);
            },
        }
        out.append(")");
        out
    }
}


/// The named errors as the C header lists them, in declaration order: each
/// variant with its `PRISM_ERROR_*` code and its English message.
pub open spec fn error_table() -> Seq<(Error, i32, Seq<char>)> {
    seq![
        (Error::NotInitialized, 1i32, "Prism is not initialized"@),
        (Error::InvalidParam, 2i32, "invalid parameter"@),
        (Error::NotImplemented, 3i32, "operation not implemented by this backend"@),
        (Error::NoVoices, 4i32, "no voices available"@),
        (Error::VoiceNotFound, 5i32, "voice not found"@),
        (Error::SpeakFailure, 6i32, "speak failed"@),
        (Error::MemoryFailure, 7i32, "memory allocation failed"@),
        (Error::RangeOutOfBounds, 8i32, "index or value out of bounds"@),
        (Error::Internal, 9i32, "internal error"@),
        (Error::NotSpeaking, 10i32, "backend is not speaking"@),
        (Error::NotPaused, 11i32, "backend is not paused"@),
        (Error::AlreadyPaused, 12i32, "backend is already paused"@),
        (Error::InvalidUtf8, 13i32, "string is not valid UTF-8"@),
        (Error::InvalidOperation, 14i32, "invalid operation in the current state"@),
        (Error::AlreadyInitialized, 15i32, "already initialized"@),
        (Error::BackendNotAvailable, 16i32, "backend is not available at runtime"@),
        (Error::Unknown, 17i32, "unknown error"@),
        (Error::InvalidAudioFormat, 18i32, "invalid audio format reported by backend"@),
        (Error::InternalBackendLimitExceeded, 19i32, "internal backend limit exceeded"@),
        (Error::BackendEnteredUndefinedState, 20i32, "backend entered an undefined state"@),
        (Error::LibraryLoadFailed, 21i32, "backend plugin library failed to load"@),
        (Error::LibraryInvalid, 22i32, "backend plugin library is not a valid Prism plugin"@),
        (Error::IncompatibleAbi, 23i32, "backend plugin library has an incompatible ABI version"@),
    ]
}

/// Every named variant carries the header's code and its own message: the
/// `i`-th named error has code `i + 1` and the `i`-th message, and an
/// unrecognized code keeps its value under one shared message.
pub proof fn lemma_codes_and_messages_match_header(v: i32)
    ensures
        error_table().len() == c::COUNT - 1,
        forall|i: int|
            #![trigger error_table()[i]]
            0 <= i < error_table().len() ==> error_table()[i].0.code_of() == error_table()[i].1
                && error_table()[i].1 == i + 1 && error_table()[i].0.message_of()
                == error_table()[i].2,
        Error::Unrecognized(v).code_of() == v,
        Error::Unrecognized(v).message_of() == "unrecognized Prism error code"@,
{
    let t = error_table();
    assert forall|i: int| 0 <= i < t.len() implies t[i].0.code_of() == t[i].1 && t[i].1 == i + 1
        && t[i].0.message_of() == t[i].2 by {
        if i == 0 {
            assert(t[0].0.code_of() == t[0].1 && t[0].1 == 1 && t[0].0.message_of() == t[0].2);
        } else if i == 1 {
            assert(t[1].0.code_of() == t[1].1 && t[1].1 == 2 && t[1].0.message_of() == t[1].2);
        } else if i == 2 {
            assert(t[2].0.code_of() == t[2].1 && t[2].1 == 3 && t[2].0.message_of() == t[2].2);
        } else if i == 3 {
            assert(t[3].0.code_of() == t[3].1 && t[3].1 == 4 && t[3].0.message_of() == t[3].2);
        } else if i == 4 {
            assert(t[4].0.code_of() == t[4].1 && t[4].1 == 5 && t[4].0.message_of() == t[4].2);
        } else if i == 5 {
            assert(t[5].0.code_of() == t[5].1 && t[5].1 == 6 && t[5].0.message_of() == t[5].2);
        } else if i == 6 {
            assert(t[6].0.code_of() == t[6].1 && t[6].1 == 7 && t[6].0.message_of() == t[6].2);
        } else if i == 7 {
            assert(t[7].0.code_of() == t[7].1 && t[7].1 == 8 && t[7].0.message_of() == t[7].2);
        } else if i == 8 {
            assert(t[8].0.code_of() == t[8].1 && t[8].1 == 9 && t[8].0.message_of() == t[8].2);
        } else if i == 9 {
            assert(t[9].0.code_of() == t[9].1 && t[9].1 == 10 && t[9].0.message_of() == t[9].2);
        } else if i == 10 {
            assert(t[10].0.code_of() == t[10].1 && t[10].1 == 11 && t[10].0.message_of() == t[10].2);
        } else if i == 11 {
            assert(t[11].0.code_of() == t[11].1 && t[11].1 == 12 && t[11].0.message_of() == t[11].2);
        } else if i == 12 {
            assert(t[12].0.code_of() == t[12].1 && t[12].1 == 13 && t[12].0.message_of() == t[12].2);
        } else if i == 13 {
            assert(t[13].0.code_of() == t[13].1 && t[13].1 == 14 && t[13].0.message_of() == t[13].2);
        } else if i == 14 {
            assert(t[14].0.code_of() == t[14].1 && t[14].1 == 15 && t[14].0.message_of() == t[14].2);
        } else if i == 15 {
            assert(t[15].0.code_of() == t[15].1 && t[15].1 == 16 && t[15].0.message_of() == t[15].2);
        } else if i == 16 {
            assert(t[16].0.code_of() == t[16].1 && t[16].1 == 17 && t[16].0.message_of() == t[16].2);
        } else if i == 17 {
            assert(t[17].0.code_of() == t[17].1 && t[17].1 == 18 && t[17].0.message_of() == t[17].2);
        } else if i == 18 {
            assert(t[18].0.code_of() == t[18].1 && t[18].1 == 19 && t[18].0.message_of() == t[18].2);
        } else if i == 19 {
            assert(t[19].0.code_of() == t[19].1 && t[19].1 == 20 && t[19].0.message_of() == t[19].2);
        } else if i == 20 {
            assert(t[20].0.code_of() == t[20].1 && t[20].1 == 21 && t[20].0.message_of() == t[20].2);
        } else if i == 21 {
            assert(t[21].0.code_of() == t[21].1 && t[21].1 == 22 && t[21].0.message_of() == t[21].2);
        } else {
            assert(t[22].0.code_of() == t[22].1 && t[22].1 == 23 && t[22].0.message_of() == t[22].2);
        }
    }
}

/// The display text of a named error is its message, then ` (code `, then
/// decimal digits that read back as its code, then `)`.
pub proof fn lemma_display_shows_code(e: Error)
    requires
        !(e is Unrecognized),
    ensures
        ({
            let d = e.display_of();
            let m = e.message_of().len() as int;
            &&& d.subrange(0, m) == e.message_of()
            &&& d.subrange(m, m + 7) == seq![' ', '(', 'c', 'o', 'd', 'e', ' ']
            &&& d.last() == ')'
            &&& crate::text::all_digits_below(d.subrange(m + 7, d.len() - 1), 10)
            &&& crate::text::value_in_base(d.subrange(m + 7, d.len() - 1), 10) == e.code_of()
        }),
{
    reveal_strlit(" (code ");
    reveal_strlit(")");
    let d = e.display_of();
    let m = e.message_of().len() as int;
    let digits = crate::text::decimal_digits(e.code_of() as nat);
    assert(e.code_of() > 0);
    crate::text::lemma_signed_decimal_reads_back(e.code_of() as int);
    crate::text::lemma_decimal_reads_back(e.code_of() as nat);
    assert(d =~= e.message_of() + " (code "@ + digits + ")"@);
    assert(d.subrange(0, m) =~= e.message_of());
    assert(d.subrange(m, m + 7) =~= seq![' ', '(', 'c', 'o', 'd', 'e', ' ']);
    assert(d.subrange(m + 7, d.len() - 1) =~= digits);
}

/// The display text of an unrecognized code is the shared message, then
/// ` (`, then the code in signed decimal (a `-` and digits that read back as
/// its magnitude when negative), then `)`.
pub proof fn lemma_display_shows_unrecognized_code(v: i32)
    ensures
        ({
            let e = Error::Unrecognized(v);
            let d = e.display_of();
            let m = e.message_of().len() as int;
            &&& d.subrange(0, m) == e.message_of()
            &&& d.subrange(m, m + 2) == seq![' ', '(']
            &&& d.last() == ')'
            &&& d.subrange(m + 2, d.len() - 1) == crate::text::decimal(v as int)
        }),
{
    reveal_strlit(" (");
    reveal_strlit(")");
    let e = Error::Unrecognized(v);
    let d = e.display_of();
    let m = e.message_of().len() as int;
    assert(d =~= e.message_of() + " ("@ + crate::text::decimal(v as int) + ")"@);
    assert(d.subrange(0, m) =~= e.message_of());
    assert(d.subrange(m, m + 2) =~= seq![' ', '(']);
    assert(d.subrange(m + 2, d.len() - 1) =~= crate::text::decimal(v as int));
}

/// Two errors that represent the same raw code are the same error: the
/// mapping from codes to errors is a function.
pub proof fn lemma_represents_unique(a: Error, b: Error, code: i32)
    requires
        a.represents(code),
        b.represents(code),
    ensures
        a == b,
{
}

/// Every raw code is represented by some error.
pub proof fn lemma_every_code_is_represented(code: i32)
    ensures
        exists|e: Error| e.represents(code),
{
    if !is_known_code(code) {
        assert(Error::Unrecognized(code).represents(code));
    } else if code == 1 { assert(Error::NotInitialized.represents(code)); }
    else if code == 2 { assert(Error::InvalidParam.represents(code)); }
    else if code == 3 { assert(Error::NotImplemented.represents(code)); }
    else if code == 4 { assert(Error::NoVoices.represents(code)); }
    else if code == 5 { assert(Error::VoiceNotFound.represents(code)); }
    else if code == 6 { assert(Error::SpeakFailure.represents(code)); }
    else if code == 7 { assert(Error::MemoryFailure.represents(code)); }
    else if code == 8 { assert(Error::RangeOutOfBounds.represents(code)); }
    else if code == 9 { assert(Error::Internal.represents(code)); }
    else if code == 10 { assert(Error::NotSpeaking.represents(code)); }
    else if code == 11 { assert(Error::NotPaused.represents(code)); }
    else if code == 12 { assert(Error::AlreadyPaused.represents(code)); }
    else if code == 13 { assert(Error::InvalidUtf8.represents(code)); }
    else if code == 14 { assert(Error::InvalidOperation.represents(code)); }
    else if code == 15 { assert(Error::AlreadyInitialized.represents(code)); }
    else if code == 16 { assert(Error::BackendNotAvailable.represents(code)); }
    else if code == 17 { assert(Error::Unknown.represents(code)); }
    else if code == 18 { assert(Error::InvalidAudioFormat.represents(code)); }
    else if code == 19 { assert(Error::InternalBackendLimitExceeded.represents(code)); }
    else if code == 20 { assert(Error::BackendEnteredUndefinedState.represents(code)); }
    else if code == 21 { assert(Error::LibraryLoadFailed.represents(code)); }
    else if code == 22 { assert(Error::LibraryInvalid.represents(code)); }
    else { assert(Error::IncompatibleAbi.represents(code)); }
}

/// Decoding a code and reading the code back gives the code again: for every
/// nonzero `code`, `from_code(code)` is `Some(e)` with `e.code() == code`, and
/// it is a named variant exactly when the code is known.
pub proof fn lemma_from_code_then_code(code: i32)
    requires
        code != c::OK,
    ensures
        Error::from_code_spec(code) matches Some(e) && e.code_of() == code && (is_known_code(code)
            <==> !(e is Unrecognized)),
{
    lemma_every_code_is_represented(code);
}

/// Encoding an error and decoding the code gives the error back, for every
/// error except `Unrecognized` holding `0` or a known code (those codes decode
/// to `None` or to the named variant).
pub proof fn lemma_code_then_from_code(e: Error)
    requires
        !(e matches Error::Unrecognized(v) && (v == c::OK || is_known_code(v))),
    ensures
        Error::from_code_spec(e.code_of()) == Some(e),
        Error::check_spec(e.code_of()) == Err::<(), Error>(e),
{
    lemma_represents_unique(e, choose|x: Error| x.represents(e.code_of()), e.code_of());
}

} // verus!
