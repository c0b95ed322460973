//! The RETIRE_CONNECTION_ID frame: an endpoint sends it to tell its peer
//! that it no longer uses a connection ID that the peer issued.
use vstd::prelude::*;

verus! {

/// The frame type of RETIRE_CONNECTION_ID.
pub const RETIRE_CONNECTION_ID_TAG: u8 = 0x19;

/// A RETIRE_CONNECTION_ID frame.
#[derive(Clone, Copy, Debug, PartialEq, Eq, Structural)]
pub struct RetireConnectionID {
    /// The sequence number of the connection ID being retired
    pub sequence_number: u64,
}

impl RetireConnectionID {
    /// The frame type.
    pub fn tag(self) -> (r: u8)
        ensures
            r == RETIRE_CONNECTION_ID_TAG,
    {
        RETIRE_CONNECTION_ID_TAG
    }
}

} // verus!
