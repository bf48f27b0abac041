//! What a host checks before it connects: that it holds an access pass, and that it can show a proof
//! of its address.
//!
//! `client_ip` is a plain argument to user creation: nothing onchain attests that the caller can
//! originate traffic from it. A verification service closes that gap with a signed proof of the
//! source address it observes. Retrieving one is best-effort: a host with no reachable verifier
//! still connects, and the program decides.
//!
//! The crate decides and computes; it does no I/O. [`access_pass`] answers whether a pass is usable
//! over two closures that read the ledger. [`client`] begins a request for a proof, and
//! [`exchange`] says at each point what is due next. [`laws`] states what holds of every exchange
//! and of every check; [`access_laws`], [`exchange_laws`], [`wire_laws`] and [`text_laws`] say what
//! checks, requests, answers and texts come to, in terms of what goes in and what comes out.

pub mod access_laws;
pub mod access_pass;
pub mod address;
pub mod client;
pub mod error;
pub mod exchange;
pub mod exchange_laws;
pub mod keys;
pub mod laws;
pub mod text;
pub mod text_laws;
pub mod wire;
pub mod wire_laws;
