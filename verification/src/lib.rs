//! The verified core of a non-blocking raw socket that is driven by a
//! readiness-based event notifier.
//!
//! The library makes no call on the operating system and none on a registry.
//! It holds what is decided around such calls, as functions from plain values
//! to plain values, each with a contract that Verus has proved:
//!
//! - [`operation`]: what follows an attempt at an operation on the handle. An
//!   interrupted attempt is made again at once; a handle that is not ready, a
//!   success and any other failure are handed to the caller as they are.
//! - [`source`]: the owner of one raw handle and of the record of its
//!   registration. It hands every registration request to the registry, returns
//!   the registry's answer as it came, and changes its record only on the
//!   registry's consent.
//! - [`lifecycle`]: the same over whole runs of requests, with the proof that
//!   a registry which keeps the order of registrations never lets a source be
//!   registered twice over.
//! - [`interest`], [`token`], [`handle`], [`error`]: the values that these
//!   speak of.
//!
//! The code that owns the socket runs the loop: it makes the call, hands the
//! result to the library, and does what the library answers.

pub mod error;
pub mod handle;
pub mod interest;
pub mod lifecycle;
pub mod operation;
pub mod source;
pub mod token;
