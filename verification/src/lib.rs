//! Trust-establishment core for enrolling a new user or device over an
//! untrusted relay.
//!
//! An already-trusted party (the greeter) and a new party (the claimer)
//! run a four-step commit-reveal handshake, mediated by a relay that only
//! stores and forwards opaque blobs keyed by an invitation token.  Both
//! sides derive a short authentication string that humans compare
//! out-of-band before any enrollment material is exchanged.
//!
//! The pieces, leaves first:
//! - [`ids`], [`handle`], [`profile`]: validated identity value types.
//! - [`crypto`], [`invite`]: key, digest and token material, and the
//!   invitation lifecycle enums.
//! - [`protocol`]: one request and one closed reply type per command.
//! - [`wire`], [`envelope`]: the deterministic binary envelope and its
//!   round-trip laws.
//! - [`registry`]: the relay-side state machine, specified as pure
//!   transitions, with the ordering and commit-reveal laws.
//! - [`sas`]: the short-authentication-string derivation.
//! - [`dispatch`]: maps each request to its registry operation.
//! - [`collection`], [`trustchain`], [`pki`], [`path`]: the thin interfaces
//!   this core offers its collaborators.

pub mod collection;
pub mod crypto;
pub mod dispatch;
pub mod envelope;
pub mod foreign;
pub mod handle;
pub mod ids;
pub mod invite;
pub mod path;
pub mod pki;
pub mod profile;
pub mod protocol;
pub mod registry;
pub mod sas;
pub mod trustchain;
pub mod wire;
