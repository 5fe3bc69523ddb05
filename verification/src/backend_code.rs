//! Raw `PRISM_BACKEND_*` ids, exactly as the C header defines them.
//!
//! These are the 64-bit tags crossing the native boundary; wrap one in
//! [`crate::BackendId`] for Rust-side handling.

use vstd::prelude::*;

verus! {

/// `PRISM_BACKEND_INVALID` — the sentinel "no backend" id
pub const INVALID: u64 = 0;

/// `PRISM_BACKEND_SAPI`
pub const SAPI: u64 = 0x1D6D_F724_22CE_EE66;

/// `PRISM_BACKEND_AV_SPEECH`
pub const AV_SPEECH: u64 = 0x28E3_4295_7780_5C24;

/// `PRISM_BACKEND_VOICE_OVER`
pub const VOICE_OVER: u64 = 0xCB48_9796_1A75_4BCB;

/// `PRISM_BACKEND_SPEECH_DISPATCHER`
pub const SPEECH_DISPATCHER: u64 = 0xE3D6_F895_D949_EBFE;

/// `PRISM_BACKEND_NVDA`
pub const NVDA: u64 = 0x89CC_19C5_C4AC_1A56;

/// `PRISM_BACKEND_JAWS`
pub const JAWS: u64 = 0xAC3D_60E9_BD84_B53E;

/// `PRISM_BACKEND_ONE_CORE`
pub const ONE_CORE: u64 = 0x6797_D32F_0D99_4CB4;

/// `PRISM_BACKEND_ORCA`
pub const ORCA: u64 = 0x10AA_1FC0_5A17_F96C;

/// `PRISM_BACKEND_ANDROID_SCREEN_READER`
pub const ANDROID_SCREEN_READER: u64 = 0xD199_C175_AEEC_494B;

/// `PRISM_BACKEND_ANDROID_TTS`
pub const ANDROID_TTS: u64 = 0xBC17_5831_BFE4_E5CC;

/// `PRISM_BACKEND_WEB_SPEECH`
pub const WEB_SPEECH: u64 = 0x3572_538D_44D4_4A8F;

/// `PRISM_BACKEND_UIA`
pub const UIA: u64 = 0x6238_F019_DB67_8F8E;

/// `PRISM_BACKEND_ZDSR`
pub const ZDSR: u64 = 0x3D93_C56C_9E7F_2A2E;

/// `PRISM_BACKEND_ZOOM_TEXT`
pub const ZOOM_TEXT: u64 = 0xAE43_9D62_DC7B_1479;

/// `PRISM_BACKEND_BOY_PC_READER`
pub const BOY_PC_READER: u64 = 0x285A_BA1C_16F3_300F;

/// `PRISM_BACKEND_PC_TALKER`
pub const PC_TALKER: u64 = 0x344B_9519_62E3_B835;

/// `PRISM_BACKEND_SENSE_READER`
pub const SENSE_READER: u64 = 0xED47_6089_0B55_C2F2;

/// `PRISM_BACKEND_SYSTEM_ACCESS`
pub const SYSTEM_ACCESS: u64 = 0x8380_F2A3_7B2C_3EB6;

/// `PRISM_BACKEND_WINDOW_EYES`
pub const WINDOW_EYES: u64 = 0x9120_D899_0878_5C13;

/// `PRISM_BACKEND_SPIEL`
pub const SPIEL: u64 = 0x478B_44F1_4AD3_D89C;

} // verus!
