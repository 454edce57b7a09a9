use vstd::prelude::*;

verus! {

/// Errors reported by the packet queue and the byte-level utilities.
#[derive(Debug, Clone, Copy, PartialEq, Eq, Structural)]
pub enum Error {
    /// No more data or capacity: the producer found the slot occupied, the
    /// consumer found it empty, or a writer or reader ran out of bytes.
    Eof,
    /// A requested slice read does not fit in the bytes that are left; on the
    /// consumer side this surfaces a payload length that exceeds the slot.
    InvalidLength,
}

} // verus!
