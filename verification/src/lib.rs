//! Platform font context handles for a text subsystem.
//!
//! A [`handle::FontContextHandle`] is an opaque, cheaply cloneable value that
//! stands for a live connection to the platform's font system. Upper layers
//! (font loading, shaping, glyph caching) hold and pass the handle without
//! knowing which backend is behind it. The handle participates in the
//! engine's memory-accounting protocol: it reports the bytes it exclusively
//! owns, and reports zero for resources owned by the operating system or by
//! another subsystem, so that shared memory is never counted twice.
//!
//! [`instrumented`] provides a stand-in font service that counts live
//! references, so that the lifecycle discipline every backend must follow
//! (each open or clone matched by exactly one release) can be stated, proved
//! and exercised.

pub mod handle;
pub mod instrumented;
