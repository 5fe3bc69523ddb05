use prism::backend_code;
use prism::error_code;
use prism::feature_bits;
use prism::{BackendFeatures, BackendId, Error, LogLevel, CONFIG_VERSION, PLUGIN_ABI_VERSION};

#[test]
fn backend_id_is_u64() {
    assert_eq!(core::mem::size_of::<BackendId>(), 8);
}

#[test]
fn ok_is_zero() {
    assert_eq!(error_code::OK, 0);
}

#[test]
fn config_version_matches() {
    assert_eq!(CONFIG_VERSION, 3);
}

#[test]
fn ok_code_is_success() {
    assert_eq!(Error::from_code(error_code::OK), None);
    assert_eq!(Error::check(error_code::OK), Ok(()));
}

#[test]
fn every_known_code_round_trips() {
    // Every code in [1, COUNT) must map to a concrete variant whose
    // `.code()` returns the same integer.
    for code in 1..error_code::COUNT {
        let err = Error::from_code(code).expect("nonzero code -> Some");
        assert_eq!(err.code(), code, "round-trip mismatch for code {code}");
        assert_ne!(
            err,
            Error::Unrecognized(code),
            "code {code} should be a named variant, not Unrecognized"
        );
        assert_eq!(Error::check(code), Err(err));
    }
}

#[test]
fn out_of_range_codes_are_preserved() {
    assert_eq!(Error::from_code(24), Some(Error::Unrecognized(24)));
    assert_eq!(Error::from_code(-5), Some(Error::Unrecognized(-5)));
    assert_eq!(Error::from_code(9999).unwrap().code(), 9999);
}

#[test]
fn error_display_is_nonempty_and_has_code() {
    for code in 1..error_code::COUNT {
        let err = Error::from_code(code).unwrap();
        let s = err.to_string();
        assert!(!s.is_empty());
        assert!(!err.message().is_empty());
    }
    assert!(Error::Unrecognized(42).to_string().contains("42"));
}

#[test]
fn log_level_round_trips() {
    for v in 0..=5 {
        let lvl = LogLevel::from_i32(v).expect("in range");
        assert_eq!(lvl.as_i32(), v);
    }
    assert_eq!(LogLevel::from_i32(6), None);
    assert_eq!(LogLevel::from_i32(-1), None);
    assert!(LogLevel::Trace < LogLevel::Off);
}

#[test]
fn backend_id_round_trips_and_names() {
    let invalid = BackendId(backend_code::INVALID);
    assert!(!invalid.is_valid());
    assert_eq!(invalid.well_known_name(), None);
    assert_eq!(BackendId::all().len(), 20);

    for id in BackendId::all() {
        assert!(id.is_valid());
        assert!(id.well_known_name().is_some(), "{id:?} missing name");
        // u64 <-> BackendId round-trip.
        assert_eq!(BackendId::from(id.get()), id);
        assert_eq!(u64::from(id), id.0);
    }

    // Every built-in id is distinct.
    let all = BackendId::all();
    for (i, a) in all.iter().enumerate() {
        for b in &all[i + 1..] {
            assert_ne!(a, b, "duplicate backend id {a:?}");
        }
    }

    // A custom (unknown) id survives round-tripping and prints as custom.
    let custom = BackendId(0xDEAD_BEEF);
    assert!(custom.is_valid());
    assert_eq!(custom.well_known_name(), None);
    assert!(custom.to_string().contains("custom"));
}

#[test]
fn backend_id_spot_values_match_header() {
    // A couple of hand-verified anchors from include/prism.h.
    assert_eq!(backend_code::SAPI, 0x1D6DF72422CEEE66);
    assert_eq!(backend_code::NVDA, 0x89CC19C5C4AC1A56);
    assert_eq!(backend_code::SPIEL, 0x478B44F14AD3D89C);
    assert_eq!(backend_code::BOY_PC_READER, 0x285ABA1C16F3300F);
}

#[test]
fn feature_bits_match_header_positions() {
    let flag = BackendFeatures::from_bits_retain;
    assert_eq!(flag(feature_bits::IS_SUPPORTED_AT_RUNTIME).bits(), 1 << 0);
    // Bit 1 is intentionally skipped upstream.
    assert_eq!(flag(feature_bits::SUPPORTS_SPEAK).bits(), 1 << 2);
    assert_eq!(flag(feature_bits::SUPPORTS_SPEAK_TO_MEMORY).bits(), 1 << 3);
    assert_eq!(flag(feature_bits::SUPPORTS_GET_BIT_DEPTH).bits(), 1 << 24);
    assert_eq!(flag(feature_bits::SUPPORTS_SPEAK_SSML).bits(), 1 << 27);
    assert_eq!(flag(feature_bits::SUPPORTS_SPEAK_TO_MEMORY_SSML).bits(), 1 << 28);
    assert_eq!(flag(feature_bits::FEATURE_MAX_BIT).bits(), 1 << 63);
}

#[test]
fn feature_bitflags_compose_and_decompose() {
    let speak = BackendFeatures::from_bits_retain(feature_bits::SUPPORTS_SPEAK);
    let stop = BackendFeatures::from_bits_retain(feature_bits::SUPPORTS_STOP);
    let braille = BackendFeatures::from_bits_retain(feature_bits::SUPPORTS_BRAILLE);
    let f = speak | stop;
    assert!(f.contains(speak));
    assert!(!f.contains(braille));
    // Unknown/reserved bits round-trip via from_bits_retain.
    let raw = f.bits() | (1 << 1) | (1 << 40);
    let back = BackendFeatures::from_bits_retain(raw);
    assert_eq!(back.bits(), raw);
    assert!(back.contains(speak));
}

#[test]
fn config_version_matches_header() {
    assert_eq!(CONFIG_VERSION, 3);
}

#[test]
fn plugin_abi_version_matches_header() {
    assert_eq!(PLUGIN_ABI_VERSION, 1);
}

#[test]
fn plugin_error_codes_match_header() {
    // Hand-verified against include/prism.h at the pinned tag: the three
    // library-loading codes sit directly after BACKEND_ENTERED_UNDEFINED_STATE.
    assert_eq!(error_code::LIBRARY_LOAD_FAILED, 21);
    assert_eq!(error_code::LIBRARY_INVALID, 22);
    assert_eq!(error_code::INCOMPATIBLE_ABI, 23);
    assert_eq!(error_code::COUNT, 24);

    assert_eq!(
        Error::from_code(21).unwrap().code(),
        error_code::LIBRARY_LOAD_FAILED
    );
    assert_eq!(Error::from_code(22), Some(Error::LibraryInvalid));
    assert_eq!(Error::from_code(23), Some(Error::IncompatibleAbi));
}
