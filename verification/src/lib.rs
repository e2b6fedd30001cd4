//! Machine identifiers for the Steam login handshake.
//!
//! A [`MachineID`] holds three SHA-1 digests, one for each of the labels
//! `BB3`, `FF2` and `3B3`. It is derived from drawn entropy, from an account
//! name or from three texts of the caller's choice, and is sent to the
//! service as a binary message object of 155 bytes.

pub mod buffer;
pub mod digest;
pub mod error;
pub mod hex;
pub mod machine_id;
pub mod message;
pub mod text;

pub use error::MachineIDError;
pub use machine_id::MachineID;
pub use machine_id::MachineIDType;
