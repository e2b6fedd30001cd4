//! The error that the constructors report.

use vstd::prelude::*;

verus! {

/// Why a machine identifier could not be made.
#[derive(Debug, Copy, Clone, PartialEq, Eq, Structural)]
pub enum MachineIDError {
    /// A text supplied by the caller holds a zero byte. The message object
    /// ends each text with a zero byte and has no way to escape one.
    InvalidInput,
}

} // verus!
