//! Configuring a Prism context: the builder's settings and how they fill in
//! the native configuration.

use vstd::prelude::*;

use crate::version::CONFIG_VERSION;

verus! {

/// Builder for a Prism context.
///
/// `R` is the registry handle to run the context against and `A` the
/// availability-change callback; both are optional. The numeric settings
/// tune the library's availability polling.
pub struct ContextBuilder<R, A> {
    /// The registry to use instead of the built-in backends, if any.
    pub registry: Option<R>,
    /// The callback invoked when a backend's availability changes, if any.
    pub on_availability: Option<A>,
    /// Availability poll interval in milliseconds (`0` = library default).
    pub poll_interval_ms: u32,
    /// Number of consistent samples required before reporting a change.
    pub debounce_samples: u32,
    /// Maximum polling backoff in milliseconds.
    pub backoff_max_ms: u32,
    /// Whether Prism should auto-manage polling on power events; `None`
    /// keeps the library default.
    pub auto_power_manage: Option<bool>,
}

/// The scalar part of the native configuration that a builder decides.
#[derive(Debug, Clone, Copy, PartialEq, Eq, Structural)]
pub struct ContextSettings {
    /// The configuration ABI version (`PrismConfig::version`).
    pub version: u8,
    /// `availability_poll_interval_ms`
    pub poll_interval_ms: u32,
    /// `availability_debounce_samples`
    pub debounce_samples: u32,
    /// `availability_backoff_max_ms`
    pub backoff_max_ms: u32,
    /// `availability_auto_power_manage`
    pub auto_power_manage: bool,
}

impl<R, A> Default for ContextBuilder<R, A> {
    fn default() -> (r: ContextBuilder<R, A>)
        ensures
            r.registry is None,
            r.on_availability is None,
            r.poll_interval_ms == 0,
            r.debounce_samples == 0,
            r.backoff_max_ms == 0,
            r.auto_power_manage is None,
    {
        ContextBuilder {
            registry: None,
            on_availability: None,
            poll_interval_ms: 0,
            debounce_samples: 0,
            backoff_max_ms: 0,
            auto_power_manage: None,
        }
    }
}

impl<R, A> ContextBuilder<R, A> {
    /// A builder with nothing set: the built-in backends, no callback, and
    /// the library's polling defaults.
    pub fn new() -> (r: ContextBuilder<R, A>)
        ensures
            r.registry is None,
            r.on_availability is None,
            r.poll_interval_ms == 0,
            r.debounce_samples == 0,
            r.backoff_max_ms == 0,
            r.auto_power_manage is None,
    {
        ContextBuilder::default()
    }

    /// Use a custom registry instead of the built-in backends.
    pub fn registry(self, registry: R) -> (r: ContextBuilder<R, A>)
        ensures
            r.registry == Some(registry),
            r.on_availability == self.on_availability,
            r.poll_interval_ms == self.poll_interval_ms,
            r.debounce_samples == self.debounce_samples,
            r.backoff_max_ms == self.backoff_max_ms,
            r.auto_power_manage == self.auto_power_manage,
    {
        let mut b = self;
        b.registry = Some(registry);
        b
    }

    /// Register a callback invoked when a backend's availability changes.
    ///
    /// The callback runs on Prism's internal polling thread.
    pub fn on_availability(self, callback: A) -> (r: ContextBuilder<R, A>)
        ensures
            r.registry == self.registry,
            r.on_availability == Some(callback),
            r.poll_interval_ms == self.poll_interval_ms,
            r.debounce_samples == self.debounce_samples,
            r.backoff_max_ms == self.backoff_max_ms,
            r.auto_power_manage == self.auto_power_manage,
    {
        let mut b = self;
        b.on_availability = Some(callback);
        b
    }

    /// Availability poll interval in milliseconds (`0` = library default).
    pub fn poll_interval_ms(self, ms: u32) -> (r: ContextBuilder<R, A>)
        ensures
            r.registry == self.registry,
            r.on_availability == self.on_availability,
            r.poll_interval_ms == ms,
            r.debounce_samples == self.debounce_samples,
            r.backoff_max_ms == self.backoff_max_ms,
            r.auto_power_manage == self.auto_power_manage,
    {
        let mut b = self;
        b.poll_interval_ms = ms;
        b
    }

    /// Number of consistent samples required before reporting a change.
    pub fn debounce_samples(self, n: u32) -> (r: ContextBuilder<R, A>)
        ensures
            r.registry == self.registry,
            r.on_availability == self.on_availability,
            r.poll_interval_ms == self.poll_interval_ms,
            r.debounce_samples == n,
            r.backoff_max_ms == self.backoff_max_ms,
            r.auto_power_manage == self.auto_power_manage,
    {
        let mut b = self;
        b.debounce_samples = n;
        b
    }

    /// Maximum polling backoff in milliseconds.
    pub fn backoff_max_ms(self, ms: u32) -> (r: ContextBuilder<R, A>)
        ensures
            r.registry == self.registry,
            r.on_availability == self.on_availability,
            r.poll_interval_ms == self.poll_interval_ms,
            r.debounce_samples == self.debounce_samples,
            r.backoff_max_ms == ms,
            r.auto_power_manage == self.auto_power_manage,
    {
        let mut b = self;
        b.backoff_max_ms = ms;
        b
    }

    /// Whether Prism should auto-manage polling on power events.
    pub fn auto_power_manage(self, enabled: bool) -> (r: ContextBuilder<R, A>)
        ensures
            r.registry == self.registry,
            r.on_availability == self.on_availability,
            r.poll_interval_ms == self.poll_interval_ms,
            r.debounce_samples == self.debounce_samples,
            r.backoff_max_ms == self.backoff_max_ms,
            r.auto_power_manage == Some(enabled),
    {
        let mut b = self;
        b.auto_power_manage = Some(enabled);
        b
    }

    /// The native configuration's scalar fields for this builder, starting
    /// from the library's `defaults`: the configuration version is the one
    /// this binding targets, the polling numbers are the builder's, and the
    /// power-management switch is the builder's where it was set.
    pub fn settings(&self, defaults: ContextSettings) -> (r: ContextSettings)
        ensures
            r.version == CONFIG_VERSION,
            r.poll_interval_ms == self.poll_interval_ms,
            r.debounce_samples == self.debounce_samples,
            r.backoff_max_ms == self.backoff_max_ms,
            r.auto_power_manage == match self.auto_power_manage {
                Some(v) => v,
                None => defaults.auto_power_manage,
            },
    {
        let mut cfg = defaults;
        cfg.version = CONFIG_VERSION;
        cfg.poll_interval_ms = self.poll_interval_ms;
        cfg.debounce_samples = self.debounce_samples;
        cfg.backoff_max_ms = self.backoff_max_ms;
        if let Some(v) = self.auto_power_manage {
            cfg.auto_power_manage = v;
        }
        cfg
    }

    /// Hand over the registry and the callback, which the context keeps
    /// alive for as long as it runs.
    pub fn into_parts(self) -> (r: (Option<R>, Option<A>))
        ensures
            r.0 == self.registry,
            r.1 == self.on_availability,
    {
        (self.registry, self.on_availability)
    }
}

} // verus!
