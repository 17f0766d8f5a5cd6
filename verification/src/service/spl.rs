//! The interface of the random number service.

use vstd::prelude::*;
use crate::ipc::sf::OutMapAliasBuffer;
use crate::result::ResultCode;

verus! {

/// The random number service.
pub trait IRandomInterface {
    /// Fills the buffer with random bytes.
    fn generate_random_bytes(&mut self, out_buf: OutMapAliasBuffer) -> Result<(), ResultCode>;
}

} // verus!
