//! Wire frames: one discrete unit of data exchanged over the connection.

use vstd::prelude::*;

verus! {

/// One frame as the transport delivers or accepts it: either text or bytes.
#[derive(PartialEq, Eq, Debug)]
pub enum Frame {
    Text(String),
    Bytes(Vec<u8>),
}

} // verus!
