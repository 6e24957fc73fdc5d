use vstd::prelude::*;

use crate::interests::Interests;
use crate::registry::deregister_outcome;
use crate::registry::register_outcome;
use crate::registry::reregister_outcome;
use crate::registry::IoError;
use crate::registry::Registration;
use crate::registry::Registry;
use crate::token::Token;

verus! {

/// A value that may be registered with a [`Registry`].
///
/// Every `Evented` value is ultimately backed by a system handle, and it is
/// that handle's identity — exposed here as the spec function [`id`] — that
/// the registry keys its associations by. An implementation almost always
/// delegates the three operations to a lower-level handle; a bare
/// [`RawHandle`] sits at the bottom of such a chain, and [`Wrapper`] extends
/// the capability through ownership wrappers with no further code.
///
/// The three operations share one discipline: each call either fully
/// succeeds, leaving exactly the association it promises, or fully fails,
/// leaving the registry exactly as it was. Errors are returned, never
/// swallowed and never turned into a panic, and retry policy belongs to the
/// caller. The registered-or-not preconditions are contractual: calling out
/// of order is answered with an error, not undefined behaviour, so callers
/// that cannot track the state may still probe safely. Operations on one
/// resource must be serialized by its owner; the registry itself only
/// synchronizes calls from distinct resources.
///
/// [`id`]: Evented::id
/// [`RawHandle`]: crate::evented::RawHandle
/// [`Wrapper`]: crate::evented::Wrapper
pub trait Evented {
    /// The registry identity of the backing system handle: the key under
    /// which this resource's association is held.
    spec fn id(&self) -> u64;

    /// Register `self` with the given registry under `token`, asking for
    /// the readiness conditions in `interests`.
    ///
    /// Succeeds exactly when `self` has no active association with the
    /// registry and a slot is free; on success exactly one association is
    /// added, and future readiness matching `interests` is reported back
    /// tagged with `token`. On failure the registry is unchanged and no
    /// events will ever be delivered for the attempt.
    fn register(&self, registry: &mut Registry, token: Token, interests: Interests) -> (result:
        Result<(), IoError>)
        ensures
            final(registry).capacity() == old(registry).capacity(),
            result == register_outcome(old(registry)@, old(registry).capacity(), self.id()),
            result is Ok ==> final(registry)@ == old(registry)@.insert(
                self.id(),
                Registration { token, interests },
            ),
            result is Err ==> final(registry)@ == old(registry)@,
    ;

    /// Replace the token and interest set of the active association between
    /// `self` and the given registry.
    ///
    /// Succeeds exactly when `self` is currently registered with the
    /// registry; calling before a successful `register` fails with
    /// [`IoError::NotRegistered`] and creates no association. On success
    /// exactly one association remains, under the new token and interests.
    fn reregister(&self, registry: &mut Registry, token: Token, interests: Interests) -> (result:
        Result<(), IoError>)
        ensures
            final(registry).capacity() == old(registry).capacity(),
            result == reregister_outcome(old(registry)@, self.id()),
            result is Ok ==> final(registry)@ == old(registry)@.insert(
                self.id(),
                Registration { token, interests },
            ),
            result is Err ==> final(registry)@ == old(registry)@,
    ;

    /// Remove the active association between `self` and the given registry.
    ///
    /// Succeeds exactly when `self` is currently registered with the
    /// registry; afterwards no further readiness events for `self` are
    /// delivered, and `self` may be registered afresh. A second call
    /// without an intervening `register` fails with
    /// [`IoError::NotRegistered`] and leaves the registry unchanged.
    fn deregister(&self, registry: &mut Registry) -> (result: Result<(), IoError>)
        ensures
            final(registry).capacity() == old(registry).capacity(),
            result == deregister_outcome(old(registry)@, self.id()),
            result is Ok ==> final(registry)@ == old(registry)@.remove(self.id()),
            result is Err ==> final(registry)@ == old(registry)@,
    ;
}

/// A bare system handle, named directly by its registry identity.
///
/// This is the bottom of every delegation chain: richer resources either
/// hold one of these or end, through their own delegation, at one.
#[derive(Clone, Copy, PartialEq, Eq, Hash, Debug, Structural)]
pub struct RawHandle {
    /// The identity the registry keys this handle's association by.
    pub raw: u64,
}

impl Evented for RawHandle {
    open spec fn id(&self) -> u64 {
        self.raw
    }

    fn register(&self, registry: &mut Registry, token: Token, interests: Interests) -> (result:
        Result<(), IoError>) {
        registry.register(self.raw, token, interests)
    }

    fn reregister(&self, registry: &mut Registry, token: Token, interests: Interests) -> (result:
        Result<(), IoError>) {
        registry.reregister(self.raw, token, interests)
    }

    fn deregister(&self, registry: &mut Registry) -> (result: Result<(), IoError>) {
        registry.deregister(self.raw)
    }
}

/// An ownership wrapper around one inner registrable resource.
///
/// A resource that merely owns another resource, exposes structural access
/// to it and adds no registration state of its own satisfies [`Evented`] by
/// forwarding each operation verbatim to the inner value. This type carries
/// that rule once, generically, so wrapper types need no hand-written
/// forwarding; and since the inner resource may itself be a `Wrapper`, the
/// rule applies through any number of layers. A wrapper that does add
/// registration semantics of its own (say, multiplexing one association
/// across several inner values) must not be expressed this way: it has to
/// implement the three operations explicitly.
#[derive(Clone, Copy, PartialEq, Eq, Hash, Debug, Structural)]
pub struct Wrapper<E> {
    /// The inner resource every operation is forwarded to.
    pub inner: E,
}

impl<E: Evented> Evented for Wrapper<E> {
    open spec fn id(&self) -> u64 {
        self.inner.id()
    }

    fn register(&self, registry: &mut Registry, token: Token, interests: Interests) -> (result:
        Result<(), IoError>) {
        self.inner.register(registry, token, interests)
    }

    fn reregister(&self, registry: &mut Registry, token: Token, interests: Interests) -> (result:
        Result<(), IoError>) {
        self.inner.reregister(registry, token, interests)
    }

    fn deregister(&self, registry: &mut Registry) -> (result: Result<(), IoError>) {
        self.inner.deregister(registry)
    }
}

/// A boxed resource is itself registrable: the ownership-wrapper rule
/// applied to `Box`, forwarding each operation to the boxed value, so a
/// handle moved to the heap stays usable wherever the inner type is.
impl<E: Evented> Evented for Box<E> {
    open spec fn id(&self) -> u64 {
        (**self).id()
    }

    fn register(&self, registry: &mut Registry, token: Token, interests: Interests) -> (result:
        Result<(), IoError>) {
        (**self).register(registry, token, interests)
    }

    fn reregister(&self, registry: &mut Registry, token: Token, interests: Interests) -> (result:
        Result<(), IoError>) {
        (**self).reregister(registry, token, interests)
    }

    fn deregister(&self, registry: &mut Registry) -> (result: Result<(), IoError>) {
        (**self).deregister(registry)
    }
}

/// Delegation transparency: a [`Wrapper`] has the same registry identity as
/// its inner resource, so each of the three operations, called on the
/// wrapper, owes exactly the outcome the same operation owes on the inner
/// resource — and since the operation contracts pin both result and effect
/// by that identity alone, the observable behaviour is identical.
pub proof fn lemma_delegation_transparent<E: Evented>(
    wrapper: &Wrapper<E>,
    table: Map<u64, Registration>,
    capacity: nat,
)
    ensures
        wrapper.id() == wrapper.inner.id(),
        register_outcome(table, capacity, wrapper.id()) == register_outcome(
            table,
            capacity,
            wrapper.inner.id(),
        ),
        reregister_outcome(table, wrapper.id()) == reregister_outcome(table, wrapper.inner.id()),
        deregister_outcome(table, wrapper.id()) == deregister_outcome(table, wrapper.inner.id()),
{
}

} // verus!
