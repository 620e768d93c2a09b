//! Inspect and rewrite the hardware (MAC) address of a network interface.
//!
//! The library holds the verified core: the 6-byte address value type with
//! its textual format, the policy for deriving a fresh random address, the
//! byte layout of the kernel control requests, and the decision table that
//! maps an operation mode to the address that is to be installed. The
//! process boundary (sockets, ioctls, entropy devices, the command line)
//! lives outside and hands this crate plain values.

pub mod entropy;
pub mod mac;
pub mod request;
pub mod resolve;

pub use mac::MAC;
pub use mac::ParseMACError;
