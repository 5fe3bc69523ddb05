//! The decisions the native bridge makes around each call into the Prism C
//! library: which raw status code answers a Rust result, which Rust result a
//! raw status and out-value give, and which texts may cross as C strings.
//!
//! The calls themselves, and the pointers they exchange, stay with the
//! caller; each function here takes or gives plain values.

use vstd::prelude::*;

use crate::backend_id::BackendId;
use crate::error::Error;
use crate::error_code as c;

verus! {

broadcast use vstd::string::group_string_axioms;

/// Whether a text can cross as a C string: it holds no NUL character.
pub open spec fn is_c_text(s: Seq<char>) -> bool {
    !s.contains('\0')
}

/// Whether `text` holds no NUL character, so that it can be passed to the
/// native library as a NUL-terminated string.
pub fn is_c_compatible(text: &str) -> (r: bool)
    ensures
        r == is_c_text(text@),
        r <==> forall|j: int| 0 <= j < text@.len() ==> text@[j] != '\0',
{
    for ch in iter: text.chars()
        invariant
            iter.seq() == text@,
            forall|j: int| 0 <= j < iter.index() ==> text@[j] != '\0',
    {
        if ch == '\0' {
            proof {
                lemma_only_nul_is_rejected(text@);
            }
            return false;
        }
    }
    proof {
        lemma_only_nul_is_rejected(text@);
    }
    true
}

/// Accept a text argument for the native library; a text holding a NUL
/// character is an invalid parameter.
pub fn check_c_text(text: &str) -> (r: Result<(), Error>)
    ensures
        r is Ok <==> is_c_text(text@),
        r is Ok <==> forall|j: int| 0 <= j < text@.len() ==> text@[j] != '\0',
        r matches Err(e) ==> e == Error::InvalidParam,
{
    if is_c_compatible(text) {
        Ok(())
    } else {
        Err(Error::InvalidParam)
    }
}

/// A text can cross as a C string exactly when none of its characters is
/// NUL: every other character, a line break or a control character among
/// them, is accepted, and one NUL anywhere rejects the text.
pub proof fn lemma_only_nul_is_rejected(s: Seq<char>)
    ensures
        is_c_text(s) <==> forall|j: int| 0 <= j < s.len() ==> s[j] != '\0',
        forall|j: int| 0 <= j < s.len() && s[j] == '\0' ==> !is_c_text(s),
        (forall|j: int| 0 <= j < s.len() ==> s[j] != '\0') ==> is_c_text(s),
{
    if !is_c_text(s) {
        let j = choose|j: int| 0 <= j < s.len() && s[j] == '\0';
        assert(s[j] == '\0');
    }
    assert forall|j: int| 0 <= j < s.len() && s[j] == '\0' implies !is_c_text(s) by {
        assert(s.contains(s[j]));
    }
}

/// Adding characters other than NUL to a text that can cross as a C string
/// keeps it acceptable, and joining two acceptable texts gives one.
pub proof fn lemma_c_text_concat(a: Seq<char>, b: Seq<char>)
    ensures
        is_c_text(a + b) <==> is_c_text(a) && is_c_text(b),
{
    lemma_only_nul_is_rejected(a);
    lemma_only_nul_is_rejected(b);
    lemma_only_nul_is_rejected(a + b);
    if is_c_text(a) && is_c_text(b) {
        assert forall|j: int| 0 <= j < (a + b).len() implies (a + b)[j] != '\0' by {
            if j < a.len() {
                assert((a + b)[j] == a[j]);
            } else {
                assert((a + b)[j] == b[j - a.len()]);
            }
        }
    }
    if is_c_text(a + b) {
        assert forall|j: int| 0 <= j < a.len() implies a[j] != '\0' by {
            assert((a + b)[j] == a[j]);
        }
        assert forall|j: int| 0 <= j < b.len() implies b[j] != '\0' by {
            assert((a + b)[a.len() + j] == b[j]);
        }
    }
}

/// The raw status code a Rust result answers with: `PRISM_OK` for success,
/// the error's own code otherwise.
pub fn to_code(r: Result<(), Error>) -> (code: i32)
    ensures
        match r {
            Ok(()) => code == c::OK,
            Err(e) => code == e.code_of(),
        },
{
    match r {
        Ok(()) => c::OK,
        Err(e) => e.code(),
    }
}

/// Answer a query for a value: on success store the value in `out` and report
/// `PRISM_OK`; on failure leave `out` as it is and report the error's code.
pub fn deliver<T>(r: Result<T, Error>, out: &mut T) -> (code: i32)
    ensures
        match r {
            Ok(v) => code == c::OK && *final(out) == v,
            Err(e) => code == e.code_of() && *final(out) == *old(out),
        },
{
    match r {
        Ok(v) => {
            *out = v;
            c::OK
        },
        Err(e) => e.code(),
    }
}

/// A text a native caller hands in, as far as the bridge can read it.
pub enum TextArgument<'a> {
    /// The pointer was null.
    Null,
    /// The bytes were not valid UTF-8.
    NotUtf8,
    /// A readable text.
    Text(&'a str),
}

/// Read a text argument, answering a null pointer with the code of
/// [`Error::InvalidParam`] and undecodable bytes with the code of
/// [`Error::InvalidUtf8`].
pub fn read_text_argument<'a>(arg: TextArgument<'a>) -> (r: Result<&'a str, i32>)
    ensures
        match arg {
            TextArgument::Null => r == Err::<&'a str, i32>(c::INVALID_PARAM),
            TextArgument::NotUtf8 => r == Err::<&'a str, i32>(c::INVALID_UTF8),
            TextArgument::Text(s) => r == Ok::<&'a str, i32>(s),
        },
{
    match arg {
        TextArgument::Null => Err(Error::InvalidParam.code()),
        TextArgument::NotUtf8 => Err(Error::InvalidUtf8.code()),
        TextArgument::Text(s) => Ok(s),
    }
}

/// The text a callback receives: a null or undecodable text reads as empty.
pub fn callback_text<'a>(arg: TextArgument<'a>) -> (r: &'a str)
    ensures
        match arg {
            TextArgument::Text(s) => r == s,
            _ => r@ == Seq::<char>::empty(),
        },
{
    match arg {
        TextArgument::Text(s) => s,
        _ => {
            proof {
                reveal_strlit("");
            }
            ""
        },
    }
}

/// A handle the native library was asked to make: `missing` when it handed
/// back none.
pub fn require_handle(present: bool, missing: Error) -> (r: Result<(), Error>)
    ensures
        present ==> r is Ok,
        !present ==> r == Err::<(), Error>(missing),
{
    if present {
        Ok(())
    } else {
        Err(missing)
    }
}

/// Answer a query for a voice's name or language: the text, if it can cross
/// as a C string; a text holding a NUL is reported as
/// [`Error::InvalidUtf8`]; an error is passed on.
pub fn voice_text_reply(r: Result<String, Error>) -> (out: Result<String, Error>)
    ensures
        match r {
            Ok(s) => if is_c_text(s@) {
                out matches Ok(t) && t@ == s@
            } else {
                out == Err::<String, Error>(Error::InvalidUtf8)
            },
            Err(e) => out == Err::<String, Error>(e),
        },
{
    match r {
        Ok(s) => {
            if is_c_compatible(s.as_str()) {
                Ok(s)
            } else {
                Err(Error::InvalidUtf8)
            }
        },
        Err(e) => Err(e),
    }
}

/// The result of a call that reports a status and fills in a value: the value
/// when the status is `PRISM_OK`, the error the status stands for otherwise.
pub fn output_result<T>(code: i32, value: T) -> (r: Result<T, Error>)
    ensures
        code == c::OK ==> r == Ok::<T, Error>(value),
        code != c::OK ==> (r matches Err(e) && e == Error::from_code_spec(code)->Some_0),
{
    match Error::check(code) {
        Ok(()) => Ok(value),
        Err(e) => Err(e),
    }
}

/// The result of a backend's one-time initialization. Initialization is
/// idempotent in the native library, so "already initialized" counts as
/// success.
pub fn initialization_result(code: i32) -> (r: Result<(), Error>)
    ensures
        r is Ok <==> (code == c::OK || code == c::ALREADY_INITIALIZED),
        r is Ok <==> (Error::check_spec(code) is Ok || Error::check_spec(code) == Err::<(), Error>(
            Error::AlreadyInitialized,
        )),
        r matches Err(e) ==> e == Error::from_code_spec(code)->Some_0,
{
    proof {
        crate::error::lemma_code_then_from_code(Error::AlreadyInitialized);
        if code != c::OK {
            crate::error::lemma_from_code_then_code(code);
        }
    }
    match Error::check(code) {
        Ok(()) => Ok(()),
        Err(Error::AlreadyInitialized) => Ok(()),
        Err(e) => Err(e),
    }
}

/// The id a registry lookup reports: none for the zero sentinel.
pub fn registry_id(raw: u64) -> (r: Option<BackendId>)
    ensures
        r is None <==> raw == 0,
        r matches Some(id) ==> id.0 == raw,
{
    if raw != 0 {
        Some(BackendId(raw))
    } else {
        None
    }
}

/// The id a backend registration reports: the minted id when the status is
/// `PRISM_OK`, the error the status stands for otherwise.
pub fn registration_result(code: i32, minted: u64) -> (r: Result<BackendId, Error>)
    ensures
        code == c::OK ==> r == Ok::<BackendId, Error>(BackendId(minted)),
        code != c::OK ==> (r matches Err(e) && e == Error::from_code_spec(code)->Some_0),
{
    output_result(code, BackendId(minted))
}

/// A text the native library promised: [`Error::Internal`] when it handed
/// back nothing.
pub fn promised_text(text: Option<String>) -> (r: Result<String, Error>)
    ensures
        match text {
            Some(s) => r matches Ok(t) && t@ == s@,
            None => r == Err::<String, Error>(Error::Internal),
        },
{
    match text {
        Some(s) => Ok(s),
        None => Err(Error::Internal),
    }
}

/// The description of an error: the native library's own wording when it
/// has one, the fixed English message otherwise.
pub fn error_text(error: Error, library_text: Option<String>) -> (r: String)
    ensures
        match library_text {
            Some(s) => r@ == s@,
            None => r@ == error.message_of(),
        },
{
    match library_text {
        Some(s) => s,
        None => String::from_str(error.message()),
    }
}

/// Converting a result to a status code and checking the code gives the
/// result back, for every result except an error `Unrecognized` holding `0`
/// or a known code.
pub proof fn lemma_to_code_then_check(r: Result<(), Error>)
    requires
        !(r matches Err(Error::Unrecognized(v)) && (v == c::OK || crate::error::is_known_code(v))),
    ensures
        match r {
            Ok(()) => Error::check_spec(c::OK) is Ok,
            Err(e) => Error::check_spec(e.code_of()) == Err::<(), Error>(e),
        },
{
    if let Err(e) = r {
        crate::error::lemma_code_then_from_code(e);
    }
}

/// Checking a status code and converting the result back gives the code
/// again, for every code.
pub proof fn lemma_check_then_to_code(code: i32)
    ensures
        match Error::check_spec(code) {
            Ok(()) => code == c::OK,
            Err(e) => e.code_of() == code,
        },
{
    if code != c::OK {
        crate::error::lemma_from_code_then_code(code);
    }
}

} // verus!
