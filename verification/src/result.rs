use vstd::prelude::*;

use crate::error::Error;

verus! {

/// The library's uniform result type: any success value paired with the one
/// opaque error container.
pub type Result<T> = core::result::Result<T, Error>;

} // verus!
