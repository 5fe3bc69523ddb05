//! Value types and decision logic for the Prism bindings — the
//! Platform-agnostic Reader Interface for Speech and Messages, one API over
//! screen readers (NVDA, JAWS, VoiceOver, Orca, …) and TTS engines (SAPI,
//! OneCore, Speech Dispatcher, …).
//!
//! This crate holds what the bindings decide without touching the native
//! library: every error code and its [`Error`], backend ids ([`BackendId`]),
//! capability flags ([`BackendFeatures`]), log levels ([`LogLevel`]), the
//! context configuration ([`ContextBuilder`]), the decoding of the library's
//! version, and the conversion between Rust results and raw status codes
//! that the native bridge performs around each call ([`bridge`]).

pub mod backend_code;
pub mod backend_id;
pub mod bridge;
pub mod context;
pub mod error;
pub mod error_code;
pub mod feature_bits;
pub mod features;
pub mod log_level;
pub mod text;
pub mod version;

pub use backend_id::BackendId;
pub use context::{ContextBuilder, ContextSettings};
pub use error::Error;
pub use features::BackendFeatures;
pub use log_level::LogLevel;
pub use version::{decode_version, CONFIG_VERSION, PLUGIN_ABI_VERSION};
