use vstd::prelude::*;

verus! {

/// An identifier chosen by the caller and attached to a registration.
///
/// The registry returns the token alongside every readiness event delivered
/// for the registration, so an event loop can route the event back to the
/// resource that owns it. The token is opaque at this layer: it is carried
/// through unchanged, and no uniqueness policy is imposed on it here — that
/// policy, if any, belongs to the registry.
#[derive(Clone, Copy, PartialEq, Eq, Hash, Debug, Structural)]
pub struct Token(pub usize);

} // verus!
