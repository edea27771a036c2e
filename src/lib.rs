//! Short links: minting collision-free short codes ("origins"), storing the
//! redirect record bound to each, and deciding the redirect that resolving an
//! origin issues.
//!
//! The store itself is reached by the caller: the functions here take what
//! the store returned and say what to do or answer next.
pub mod codegen;
pub mod cors;
pub mod create;
pub mod decimal;
pub mod laws;
pub mod qr;
pub mod record;
pub mod resolve;
