//! A readiness-based event registration capability.
//!
//! Any system-backed I/O resource (a socket, a descriptor, a timer handle)
//! takes part in event notification by implementing [`Evented`]: it can be
//! registered with, updated in, and removed from a central [`Registry`]
//! without the registry knowing its concrete type. A registration carries a
//! caller-chosen [`Token`], which the registry hands back with every
//! readiness event, and a non-empty [`Interests`] set naming the readiness
//! conditions the caller wants to hear about.
//!
//! Resources that merely wrap another resource forward the three operations
//! verbatim; [`Wrapper`] provides that forwarding generically, so composed
//! resources stay registrable through any number of layers.
//!
//! [`Evented`]: crate::evented::Evented
//! [`Registry`]: crate::registry::Registry
//! [`Token`]: crate::token::Token
//! [`Interests`]: crate::interests::Interests
//! [`Wrapper`]: crate::evented::Wrapper

pub mod evented;
pub mod interests;
pub mod registry;
pub mod token;
