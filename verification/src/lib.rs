//! A verified model of a late-bound dynamic-dispatch (automation) proxy.
//!
//! The library provides tagged dynamic values with checked conversions,
//! the packing of positional arguments for transmission (reversal and
//! marking of the distinguished property-put argument), a proxy that
//! resolves member names and invokes them against any `DynamicTarget`,
//! and an in-memory automation server that the proxy can be run against.

pub mod error;
pub mod params;
pub mod proxy;
pub mod server;
pub mod variant;

pub use error::{Error, ErrorV, InvokeKind};
pub use proxy::{DynamicTarget, IDispatchWrapper};
pub use variant::{Variant, VariantV};
