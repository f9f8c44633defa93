//! One opaque error container for uniform error handling: it wraps any
//! concrete failure value, attaches human-readable context, exposes a
//! traversable chain of underlying causes, and recovers the original concrete
//! failure through a checked, token-gated downcast.

pub mod chain;
pub mod context;
pub mod error;
pub mod failure;
pub mod result;

pub use crate::chain::Chain;
pub use crate::chain::ChainExt;
pub use crate::context::Context;
pub use crate::context::ContextExt;
pub use crate::error::Error;
pub use crate::error::ErrorExt;
pub use crate::error::MESSAGE_TOKEN;
pub use crate::failure::Failure;
pub use crate::failure::Link;
pub use crate::result::Result;
