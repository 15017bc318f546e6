use vstd::prelude::*;

verus! {

/// Responses that carry private data are padded to a multiple of this many bytes.
pub const BLOCK_SIZE: usize = 256;

/// Length in bytes of a viewing-key digest.
pub const DIGEST_SIZE: usize = 32;

} // verus!
