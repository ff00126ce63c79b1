//! The verified core of the Peios userspace bindings.
//!
//! libpeios is the C library that sits beside glibc on Peios and speaks for the
//! kernel's security (KACS), event (KMES) and registry (LCS) interfaces. This
//! crate is the part of its Rust bindings that decides things: what each call
//! is handed, what each reply means, when a read is tried again and with which
//! buffer, which error comes out. It makes no call itself. A request is a record
//! of plain values; a reply comes in as plain values; a read that takes several
//! calls is a small state machine (see [`exchange`]).
//!
//! # Layout
//!
//! - [`error`] and [`util`]: the error type, return-value checks, C strings.
//! - [`exchange`] and [`probe`]: multi-call reads, and the two-call size probe.
//! - [`security`]: SIDs, masks, ACLs, security descriptors, SDDL requests.
//! - [`token`]: tokens, the token-spec builder, logon sessions.
//! - [`access`]: access checks.
//! - [`file`](mod@file): opens, descriptor I/O, mount policy.
//! - [`process`]: mitigation requests.
//! - [`event`]: event emission and consumption.
//! - [`msgpack`]: the log of a MessagePack writer, and the reader's replies.
//! - [`registry`]: the layered configuration registry.
//!
//! # Header constants
//!
//! The numeric codes that the C headers give to enumerations are not fixed here.
//! A function that maps an enumeration to or from its codes takes them as a
//! record, such as [`registry::TxnStateCodes`], which its caller fills from the
//! headers it was built against.

pub mod access;
pub mod bindings;
pub mod error;
pub mod event;
pub mod exchange;
pub mod file;
pub mod msgpack;
pub mod probe;
pub mod process;
pub mod registry;
pub mod security;
pub mod token;
pub mod util;

pub use error::{Error, Result};
