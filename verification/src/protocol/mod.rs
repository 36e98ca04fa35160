//! The protocol abstraction and its GB26875 implementation.
pub mod gb26875;
pub mod traits;
