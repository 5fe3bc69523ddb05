use core::cmp::Ordering;
use prism::backend_code;
use prism::bridge::{
    callback_text, require_handle,
    check_c_text, deliver, error_text, initialization_result, is_c_compatible, output_result,
    promised_text, read_text_argument, registration_result, registry_id, to_code,
    voice_text_reply, TextArgument,
};
use prism::error_code;
use prism::feature_bits;
use prism::{decode_version, BackendFeatures, BackendId, ContextBuilder, ContextSettings, Error, LogLevel};

#[test]
fn error_display_text_is_exact() {
    assert_eq!(Error::NoVoices.to_string(), "no voices available (code 4)");
    assert_eq!(
        Error::IncompatibleAbi.to_string(),
        "backend plugin library has an incompatible ABI version (code 23)"
    );
    assert_eq!(
        Error::Unrecognized(42).to_string(),
        "unrecognized Prism error code (42)"
    );
    assert_eq!(
        Error::Unrecognized(-5).to_string(),
        "unrecognized Prism error code (-5)"
    );
    assert_eq!(
        Error::Unrecognized(i32::MIN).to_string(),
        "unrecognized Prism error code (-2147483648)"
    );
    assert_eq!(
        Error::Unrecognized(i32::MAX).to_string(),
        "unrecognized Prism error code (2147483647)"
    );
    assert_eq!(Error::Unrecognized(0).to_string(), "unrecognized Prism error code (0)");
}

#[test]
fn every_variant_has_its_code_and_message() {
    let table = [
        (Error::NotInitialized, 1, "Prism is not initialized"),
        (Error::InvalidParam, 2, "invalid parameter"),
        (Error::NotImplemented, 3, "operation not implemented by this backend"),
        (Error::NoVoices, 4, "no voices available"),
        (Error::VoiceNotFound, 5, "voice not found"),
        (Error::SpeakFailure, 6, "speak failed"),
        (Error::MemoryFailure, 7, "memory allocation failed"),
        (Error::RangeOutOfBounds, 8, "index or value out of bounds"),
        (Error::Internal, 9, "internal error"),
        (Error::NotSpeaking, 10, "backend is not speaking"),
        (Error::NotPaused, 11, "backend is not paused"),
        (Error::AlreadyPaused, 12, "backend is already paused"),
        (Error::InvalidUtf8, 13, "string is not valid UTF-8"),
        (Error::InvalidOperation, 14, "invalid operation in the current state"),
        (Error::AlreadyInitialized, 15, "already initialized"),
        (Error::BackendNotAvailable, 16, "backend is not available at runtime"),
        (Error::Unknown, 17, "unknown error"),
        (Error::InvalidAudioFormat, 18, "invalid audio format reported by backend"),
        (Error::InternalBackendLimitExceeded, 19, "internal backend limit exceeded"),
        (Error::BackendEnteredUndefinedState, 20, "backend entered an undefined state"),
        (Error::LibraryLoadFailed, 21, "backend plugin library failed to load"),
        (Error::LibraryInvalid, 22, "backend plugin library is not a valid Prism plugin"),
        (Error::IncompatibleAbi, 23, "backend plugin library has an incompatible ABI version"),
    ];
    for (err, code, message) in table {
        assert_eq!(err.code(), code);
        assert_eq!(err.message(), message);
        assert_eq!(Error::from_code(code), Some(err));
        assert_eq!(err.to_string(), format!("{message} (code {code})"));
    }
    assert_eq!(Error::Unrecognized(77).message(), "unrecognized Prism error code");
}

#[test]
fn error_round_trip_law_on_values() {
    // An error's own code decodes back to it...
    for e in [Error::VoiceNotFound, Error::Unrecognized(-1), Error::Unrecognized(24)] {
        assert_eq!(Error::from_code(e.code()), Some(e));
        assert_eq!(Error::check(e.code()), Err(e));
    }
    // ...except an unrecognized error holding 0 or a known code.
    assert_eq!(Error::from_code(Error::Unrecognized(0).code()), None);
    assert_eq!(Error::from_code(Error::Unrecognized(5).code()), Some(Error::VoiceNotFound));
}

#[test]
fn log_level_from_raw_or_off() {
    assert_eq!(LogLevel::from_raw_or_none(2), LogLevel::Info);
    assert_eq!(LogLevel::from_raw_or_none(5), LogLevel::Off);
    assert_eq!(LogLevel::from_raw_or_none(6), LogLevel::Off);
    assert_eq!(LogLevel::from_raw_or_none(-3), LogLevel::Off);
    for l in [
        LogLevel::Trace,
        LogLevel::Debug,
        LogLevel::Info,
        LogLevel::Warn,
        LogLevel::Error,
        LogLevel::Off,
    ] {
        assert_eq!(LogLevel::from_i32(l.as_i32()), Some(l));
    }
    assert_eq!(LogLevel::Warn.as_i32(), 3);
}

#[test]
fn backend_id_display_text_is_exact() {
    assert_eq!(BackendId(backend_code::SAPI).to_string(), "SAPI");
    assert_eq!(BackendId(backend_code::PC_TALKER).to_string(), "PC-Talker");
    assert_eq!(BackendId(backend_code::INVALID).to_string(), "<invalid>");
    assert_eq!(BackendId(0xDEAD_BEEF).to_string(), "<custom 0x00000000deadbeef>");
    assert_eq!(BackendId(u64::MAX).to_string(), "<custom 0xffffffffffffffff>");
    assert_eq!(BackendId(0xBAD).to_string(), "<custom 0x0000000000000bad>");
}

#[test]
fn backend_names_in_header_order() {
    let names: Vec<&str> = BackendId::all()
        .iter()
        .map(|id| id.well_known_name().unwrap())
        .collect();
    assert_eq!(
        names,
        vec![
            "SAPI",
            "AVSpeech",
            "VoiceOver",
            "Speech Dispatcher",
            "NVDA",
            "JAWS",
            "OneCore",
            "Orca",
            "Android Screen Reader",
            "Android TTS",
            "Web Speech",
            "UIA",
            "ZDSR",
            "ZoomText",
            "BoyPCReader",
            "PC-Talker",
            "SenseReader",
            "System Access",
            "Window-Eyes",
            "Spiel",
        ]
    );
    assert_eq!(BackendId::all()[0].get(), backend_code::SAPI);
    assert_eq!(BackendId::all()[19].get(), backend_code::SPIEL);
}

#[test]
fn feature_set_operations() {
    let speak = BackendFeatures::from_bits_retain(feature_bits::SUPPORTS_SPEAK);
    let stop = BackendFeatures::from_bits_retain(feature_bits::SUPPORTS_STOP);
    let both = speak.union(stop);
    assert_eq!(both.bits(), (1 << 2) | (1 << 7));
    assert_eq!((both & speak).bits(), 1 << 2);
    assert_eq!((both - speak).bits(), 1 << 7);
    assert!(both.intersects(stop));
    assert!(!speak.intersects(stop));
    assert_eq!(both.symmetric_difference(speak), stop);
    assert!(BackendFeatures::empty().is_empty());
    assert!(!both.is_empty());

    let mut f = BackendFeatures::empty();
    f.insert(speak);
    assert!(f.contains(speak));
    f.toggle(stop);
    assert_eq!(f, both);
    f.remove(speak);
    assert_eq!(f, stop);
    f.set(speak, true);
    assert_eq!(f, both);
    f.set(both, false);
    assert!(f.is_empty());
}

#[test]
fn feature_set_all_truncate_complement() {
    let all = BackendFeatures::all();
    assert_eq!(all.bits(), 0x8000_0000_1FFF_FFFD);
    assert!(all.is_all());
    assert!(!BackendFeatures::empty().is_all());
    // Bit 1 and bit 40 are not defined flags.
    assert_eq!(BackendFeatures::from_bits(1 << 1), None);
    assert_eq!(
        BackendFeatures::from_bits(1 << 2).map(|f| f.bits()),
        Some(1 << 2)
    );
    assert_eq!(
        BackendFeatures::from_bits_truncate((1 << 1) | (1 << 2) | (1 << 40)).bits(),
        1 << 2
    );
    let mock = all.difference(BackendFeatures::from_bits_retain(feature_bits::FEATURE_MAX_BIT));
    assert_eq!(mock.bits(), 0x1FFF_FFFD);
    assert_eq!(mock.complement().bits(), 1 << 63);
    assert_eq!(BackendFeatures::empty().complement(), all);
}

#[test]
fn version_is_decoded_from_packed_form() {
    assert_eq!(decode_version((0 << 16) | (17 << 8) | 1), (0, 17, 1));
    assert_eq!(decode_version(0x0001_1203), (1, 18, 3));
    // Bits above the major byte are ignored.
    assert_eq!(decode_version(0xFF01_0203), (1, 2, 3));
    assert_eq!(decode_version(0), (0, 0, 0));
}

#[test]
fn c_text_rejects_embedded_nul() {
    assert!(is_c_compatible("hello"));
    assert!(is_c_compatible(""));
    assert!(!is_c_compatible("a\0b"));
    assert_eq!(check_c_text("speak"), Ok(()));
    assert_eq!(check_c_text("bad\0text"), Err(Error::InvalidParam));
}

#[test]
fn status_codes_answer_results() {
    assert_eq!(to_code(Ok(())), error_code::OK);
    assert_eq!(to_code(Err(Error::NotSpeaking)), 10);
    assert_eq!(to_code(Err(Error::Unrecognized(99))), 99);

    let mut out = 7usize;
    assert_eq!(deliver(Ok(3usize), &mut out), error_code::OK);
    assert_eq!(out, 3);
    assert_eq!(deliver(Err(Error::VoiceNotFound), &mut out), 5);
    assert_eq!(out, 3);

    let mut flag = false;
    assert_eq!(deliver(Ok(true), &mut flag), 0);
    assert!(flag);
}

#[test]
fn text_arguments_are_read() {
    assert_eq!(read_text_argument(TextArgument::Null), Err(error_code::INVALID_PARAM));
    assert_eq!(read_text_argument(TextArgument::NotUtf8), Err(error_code::INVALID_UTF8));
    assert_eq!(read_text_argument(TextArgument::Text("hi")), Ok("hi"));
}

#[test]
fn voice_text_replies() {
    assert_eq!(voice_text_reply(Ok("Alice".to_string())), Ok("Alice".to_string()));
    assert_eq!(voice_text_reply(Ok("Al\0ice".to_string())), Err(Error::InvalidUtf8));
    assert_eq!(voice_text_reply(Err(Error::VoiceNotFound)), Err(Error::VoiceNotFound));
}

#[test]
fn status_and_value_results() {
    assert_eq!(output_result(0, 22_050usize), Ok(22_050));
    assert_eq!(output_result(3, 1usize), Err(Error::NotImplemented));
    assert_eq!(output_result(1234, true), Err(Error::Unrecognized(1234)));
    assert_eq!(registration_result(0, 0xABC), Ok(BackendId(0xABC)));
    assert_eq!(registration_result(2, 0xABC), Err(Error::InvalidParam));
}

#[test]
fn initialization_accepts_already_initialized() {
    assert_eq!(initialization_result(error_code::OK), Ok(()));
    assert_eq!(initialization_result(error_code::ALREADY_INITIALIZED), Ok(()));
    assert_eq!(
        initialization_result(error_code::BACKEND_NOT_AVAILABLE),
        Err(Error::BackendNotAvailable)
    );
    assert_eq!(initialization_result(-7), Err(Error::Unrecognized(-7)));
}

#[test]
fn registry_lookups_and_texts() {
    assert_eq!(registry_id(0), None);
    assert_eq!(registry_id(42), Some(BackendId(42)));
    assert_eq!(promised_text(None), Err(Error::Internal));
    assert_eq!(promised_text(Some("mock".to_string())), Ok("mock".to_string()));
    assert_eq!(error_text(Error::InvalidParam, None), "invalid parameter");
    assert_eq!(
        error_text(Error::InvalidParam, Some("Invalid parameter".to_string())),
        "Invalid parameter"
    );
}

#[test]
fn context_builder_settings() {
    let defaults = ContextSettings {
        version: 1,
        poll_interval_ms: 500,
        debounce_samples: 2,
        backoff_max_ms: 1000,
        auto_power_manage: true,
    };
    let plain: ContextBuilder<u32, &str> = ContextBuilder::new();
    let s = plain.settings(defaults);
    assert_eq!(s.version, 3);
    assert_eq!(s.poll_interval_ms, 0);
    assert_eq!(s.debounce_samples, 0);
    assert_eq!(s.backoff_max_ms, 0);
    assert!(s.auto_power_manage);

    let b: ContextBuilder<u32, &str> = ContextBuilder::default()
        .registry(9)
        .on_availability("cb")
        .poll_interval_ms(250)
        .debounce_samples(4)
        .backoff_max_ms(8000)
        .auto_power_manage(false)
        .poll_interval_ms(300);
    let s = b.settings(defaults);
    assert_eq!(
        s,
        ContextSettings {
            version: 3,
            poll_interval_ms: 300,
            debounce_samples: 4,
            backoff_max_ms: 8000,
            auto_power_manage: false,
        }
    );
    assert_eq!(b.into_parts(), (Some(9), Some("cb")));
}

#[test]
fn log_levels_are_ordered_by_raw_value() {
    assert!(LogLevel::Trace < LogLevel::Debug);
    assert!(LogLevel::Warn > LogLevel::Info);
    assert!(LogLevel::Error <= LogLevel::Error);
    assert_eq!(LogLevel::Off.partial_cmp(&LogLevel::Trace), Some(Ordering::Greater));
    assert_eq!(LogLevel::Info.partial_cmp(&LogLevel::Info), Some(Ordering::Equal));
    assert_eq!(LogLevel::Debug.cmp(&LogLevel::Error), Ordering::Less);
}

#[test]
fn feature_laws_on_values() {
    let a = BackendFeatures::from_bits_retain(0b1011_0001);
    let b = BackendFeatures::from_bits_retain(0b0110_0100);
    assert!((a | b).contains(a));
    assert!((a | b).contains(b));
    assert!(!(a - b).intersects(b));
    assert!(a.contains(a - b));
    assert_eq!(
        a.complement().complement(),
        BackendFeatures::from_bits_truncate(a.bits())
    );
}

#[test]
fn code_check_round_trip_on_values() {
    for code in [-100, -1, 0, 1, 12, 23, 24, 1000] {
        let back = match Error::check(code) {
            Ok(()) => error_code::OK,
            Err(e) => e.code(),
        };
        assert_eq!(back, code);
        assert_eq!(Error::check(to_code(Error::check(code))), Error::check(code));
    }
}

#[test]
fn callback_texts_and_handles() {

    assert_eq!(callback_text(TextArgument::Null), "");
    assert_eq!(callback_text(TextArgument::NotUtf8), "");
    assert_eq!(callback_text(TextArgument::Text("Orca")), "Orca");
    assert_eq!(require_handle(true, Error::NotInitialized), Ok(()));
    assert_eq!(require_handle(false, Error::NotInitialized), Err(Error::NotInitialized));
    assert_eq!(require_handle(false, Error::MemoryFailure), Err(Error::MemoryFailure));
}

#[test]
fn feature_xor_and_not_operators() {
    let speak = BackendFeatures::from_bits_retain(feature_bits::SUPPORTS_SPEAK);
    let stop = BackendFeatures::from_bits_retain(feature_bits::SUPPORTS_STOP);
    assert_eq!((speak ^ stop).bits(), (1 << 2) | (1 << 7));
    assert_eq!(((speak | stop) ^ stop), speak);
    assert_eq!((!BackendFeatures::all()).bits(), 0);
    assert_eq!((!speak).bits(), feature_bits::ALL & !(1 << 2));
    // Undefined bits are dropped by the complement.
    assert_eq!((!BackendFeatures::from_bits_retain(1 << 1)), BackendFeatures::all());
}

#[test]
fn feature_debug_text_names_flags() {
    let speak = BackendFeatures::from_bits_retain(feature_bits::SUPPORTS_SPEAK);
    let stop = BackendFeatures::from_bits_retain(feature_bits::SUPPORTS_STOP);
    assert_eq!(BackendFeatures::empty().debug_string(), "BackendFeatures(0x0)");
    assert_eq!(speak.debug_string(), "BackendFeatures(SUPPORTS_SPEAK)");
    assert_eq!(
        (speak | stop).debug_string(),
        "BackendFeatures(SUPPORTS_SPEAK | SUPPORTS_STOP)"
    );
    assert_eq!(
        BackendFeatures::from_bits_retain((1 << 2) | (1 << 1) | (1 << 40)).debug_string(),
        "BackendFeatures(SUPPORTS_SPEAK | 0x10000000002)"
    );
    assert_eq!(
        BackendFeatures::from_bits_retain(1 << 1).debug_string(),
        "BackendFeatures(0x2)"
    );
    assert_eq!(
        BackendFeatures::from_bits_retain(feature_bits::IS_SUPPORTED_AT_RUNTIME | feature_bits::FEATURE_MAX_BIT)
            .debug_string(),
        "BackendFeatures(IS_SUPPORTED_AT_RUNTIME | FEATURE_MAX_BIT)"
    );
}

#[test]
fn feature_names_and_iteration() {
    assert_eq!(
        BackendFeatures::from_name("SUPPORTS_STOP").map(|f| f.bits()),
        Some(feature_bits::SUPPORTS_STOP)
    );
    assert_eq!(
        BackendFeatures::from_name("FEATURE_MAX_BIT").map(|f| f.bits()),
        Some(1 << 63)
    );
    assert_eq!(BackendFeatures::from_name("supports_stop"), None);
    assert_eq!(BackendFeatures::from_name(""), None);

    let f = BackendFeatures::from_bits_retain((1 << 7) | (1 << 2) | (1 << 40));
    let names: Vec<(&str, u64)> = f.iter_names().into_iter().map(|(n, v)| (n, v.bits())).collect();
    assert_eq!(names, vec![("SUPPORTS_SPEAK", 1 << 2), ("SUPPORTS_STOP", 1 << 7)]);
    let parts: Vec<u64> = f.iter().into_iter().map(|v| v.bits()).collect();
    assert_eq!(parts, vec![1 << 2, 1 << 7, 1 << 40]);
    assert!(BackendFeatures::empty().iter().is_empty());
    assert_eq!(BackendFeatures::all().iter_names().len(), prism::features::FLAG_COUNT);
}

#[test]
fn feature_assign_operators() {
    let speak = BackendFeatures::from_bits_retain(feature_bits::SUPPORTS_SPEAK);
    let stop = BackendFeatures::from_bits_retain(feature_bits::SUPPORTS_STOP);
    let mut f = BackendFeatures::empty();
    f |= speak;
    f |= stop;
    assert_eq!(f.bits(), (1 << 2) | (1 << 7));
    f -= speak;
    assert_eq!(f, stop);
    f ^= speak;
    assert_eq!(f, speak | stop);
    f &= speak;
    assert_eq!(f, speak);
}
