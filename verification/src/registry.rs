use vstd::prelude::*;

use crate::interests::Interests;
use crate::token::Token;
use std::collections::HashMap;

verus! {

broadcast use vstd::std_specs::hash::group_hash_axioms;

/// The record a registry keeps for one registered resource: the token that
/// readiness events for the resource will carry, and the readiness
/// conditions the caller asked to be notified about.
#[derive(Clone, Copy, PartialEq, Eq, Structural, Debug)]
pub struct Registration {
    pub token: Token,
    pub interests: Interests,
}

/// The uniform error returned by the three registration operations.
///
/// Every failure is surfaced to the immediate caller as one of these values;
/// nothing is retried, logged or swallowed, and no operation ever panics.
#[derive(Clone, Copy, PartialEq, Eq, Structural, Debug)]
pub enum IoError {
    /// `register` was called for a resource that already has an active
    /// association with this registry.
    AlreadyRegistered,
    /// `reregister` or `deregister` was called for a resource that has no
    /// active association with this registry.
    NotRegistered,
    /// The underlying system refused the operation for want of resources:
    /// the registry has no free slot left for a new association.
    Exhausted,
}

/// The outcome `register` owes for a resource identity `id`, given the
/// associations `table` and the slot capacity of the registry: an error if
/// the resource is already registered or every slot is taken, success
/// otherwise.
pub open spec fn register_outcome(
    table: Map<u64, Registration>,
    capacity: nat,
    id: u64,
) -> Result<(), IoError> {
    if table.contains_key(id) {
        Err(IoError::AlreadyRegistered)
    } else if table.len() >= capacity {
        Err(IoError::Exhausted)
    } else {
        Ok(())
    }
}

/// The outcome `reregister` owes for a resource identity `id`: success
/// exactly when the resource currently has an association in `table`.
pub open spec fn reregister_outcome(table: Map<u64, Registration>, id: u64) -> Result<
    (),
    IoError,
> {
    if table.contains_key(id) {
        Ok(())
    } else {
        Err(IoError::NotRegistered)
    }
}

/// The outcome `deregister` owes for a resource identity `id`: success
/// exactly when the resource currently has an association in `table`.
pub open spec fn deregister_outcome(table: Map<u64, Registration>, id: u64) -> Result<
    (),
    IoError,
> {
    if table.contains_key(id) {
        Ok(())
    } else {
        Err(IoError::NotRegistered)
    }
}

/// The central authority that maps registered resources to polling state and
/// delivers readiness events tagged by token.
///
/// A registry is a table of associations, keyed by the resource identity of
/// the backing system handle, together with a fixed number of slots standing
/// for the finite capacity of the underlying selector. Its abstract state is
/// the map from resource identity to [`Registration`].
pub struct Registry {
    slots: HashMap<u64, Registration>,
    capacity: usize,
}

impl View for Registry {
    type V = Map<u64, Registration>;

    closed spec fn view(&self) -> Map<u64, Registration> {
        self.slots@
    }
}

impl Registry {
    /// The number of associations the registry can hold at once.
    pub closed spec fn capacity(&self) -> nat {
        self.capacity as nat
    }

    /// A fresh registry with no associations and the given number of slots.
    pub fn new(capacity: usize) -> (registry: Registry)
        ensures
            registry@ == Map::<u64, Registration>::empty(),
            registry.capacity() == capacity,
    {
        Registry { slots: HashMap::new(), capacity }
    }

    /// Establish an association between the resource identified by `id` and
    /// this registry, so that readiness matching `interests` is reported
    /// back tagged with `token`.
    ///
    /// Fails with [`IoError::AlreadyRegistered`] if the resource already has
    /// an active association here, and with [`IoError::Exhausted`] if every
    /// slot is taken. On success exactly the one new association is added;
    /// on failure the registry is left unchanged, so no events will ever be
    /// delivered for a failed registration attempt.
    pub fn register(&mut self, id: u64, token: Token, interests: Interests) -> (result: Result<
        (),
        IoError,
    >)
        ensures
            final(self).capacity() == old(self).capacity(),
            result == register_outcome(old(self)@, old(self).capacity(), id),
            result is Ok ==> final(self)@ == old(self)@.insert(
                id,
                Registration { token, interests },
            ),
            result is Err ==> final(self)@ == old(self)@,
    {
        if self.slots.contains_key(&id) {
            Err(IoError::AlreadyRegistered)
        } else if self.slots.len() >= self.capacity {
            Err(IoError::Exhausted)
        } else {
            self.slots.insert(id, Registration { token, interests });
            Ok(())
        }
    }

    /// Replace the token and interest set of the existing association for
    /// the resource identified by `id`.
    ///
    /// Fails with [`IoError::NotRegistered`] if the resource has no active
    /// association here, and in that case creates none as a side effect. On
    /// success exactly one association remains, carrying the new token and
    /// interests.
    pub fn reregister(&mut self, id: u64, token: Token, interests: Interests) -> (result: Result<
        (),
        IoError,
    >)
        ensures
            final(self).capacity() == old(self).capacity(),
            result == reregister_outcome(old(self)@, id),
            result is Ok ==> final(self)@ == old(self)@.insert(
                id,
                Registration { token, interests },
            ),
            result is Err ==> final(self)@ == old(self)@,
    {
        if self.slots.contains_key(&id) {
            self.slots.insert(id, Registration { token, interests });
            Ok(())
        } else {
            Err(IoError::NotRegistered)
        }
    }

    /// Remove the association for the resource identified by `id`; after a
    /// successful call the registry delivers no further readiness events for
    /// it, and the resource may legally be registered again.
    ///
    /// Fails with [`IoError::NotRegistered`] if the resource has no active
    /// association here; the registry is then left unchanged.
    pub fn deregister(&mut self, id: u64) -> (result: Result<(), IoError>)
        ensures
            final(self).capacity() == old(self).capacity(),
            result == deregister_outcome(old(self)@, id),
            result is Ok ==> final(self)@ == old(self)@.remove(id),
            result is Err ==> final(self)@ == old(self)@,
    {
        if self.slots.contains_key(&id) {
            self.slots.remove(&id);
            Ok(())
        } else {
            Err(IoError::NotRegistered)
        }
    }

    /// The registration currently associated with the resource identified by
    /// `id`, if any: the token its readiness events will carry and the
    /// interests they answer to.
    pub fn registration(&self, id: u64) -> (r: Option<Registration>)
        ensures
            r == (if self@.contains_key(id) {
                Some(self@[id])
            } else {
                None::<Registration>
            }),
    {
        match self.slots.get(&id) {
            Some(entry) => Some(*entry),
            None => None,
        }
    }

    /// Whether the resource identified by `id` currently has an active
    /// association with this registry.
    pub fn is_registered(&self, id: u64) -> (r: bool)
        ensures
            r == self@.contains_key(id),
    {
        self.slots.contains_key(&id)
    }

    /// The number of active associations.
    pub fn len(&self) -> (n: usize)
        ensures
            n == self@.len(),
    {
        self.slots.len()
    }
}

/// Registering and then deregistering restores the registry: after a
/// successful `register` of a fresh resource and a `deregister` of the same
/// resource, the association table is exactly what it was before, so a
/// fresh `register` — with the same or different token and interests — is
/// owed success again.
pub proof fn lemma_register_then_deregister_restores(
    table: Map<u64, Registration>,
    capacity: nat,
    id: u64,
    entry: Registration,
)
    requires
        register_outcome(table, capacity, id) is Ok,
    ensures
        deregister_outcome(table.insert(id, entry), id) is Ok,
        table.insert(id, entry).remove(id) == table,
        register_outcome(table.insert(id, entry).remove(id), capacity, id) is Ok,
{
    assert(table.insert(id, entry).remove(id) =~= table);
}

/// Reregistering before any successful registration fails: a resource with
/// no association in the table is owed exactly a not-registered error from
/// `reregister` — and the operation contract then leaves the table
/// unchanged, so no association is created as a side effect.
pub proof fn lemma_reregister_before_register_fails(table: Map<u64, Registration>, id: u64)
    requires
        !table.contains_key(id),
    ensures
        reregister_outcome(table, id) == Err::<(), IoError>(IoError::NotRegistered),
{
}

/// Registering twice without an intervening deregistration fails: once a
/// successful `register` has added the association, a second `register` of
/// the same resource is owed exactly an already-registered error — and the
/// operation contract then leaves the table unchanged, so no second
/// independent association is silently created.
pub proof fn lemma_register_twice_fails(
    table: Map<u64, Registration>,
    capacity: nat,
    id: u64,
    entry: Registration,
)
    requires
        register_outcome(table, capacity, id) is Ok,
    ensures
        register_outcome(table.insert(id, entry), capacity, id) == Err::<(), IoError>(
            IoError::AlreadyRegistered,
        ),
{
}

/// Deregistering is no idempotent operation: after a successful
/// `deregister` has removed the association, a second call without an
/// intervening `register` is owed exactly a not-registered error rather
/// than silent success.
pub proof fn lemma_deregister_twice_fails(table: Map<u64, Registration>, id: u64)
    requires
        deregister_outcome(table, id) is Ok,
    ensures
        deregister_outcome(table.remove(id), id) == Err::<(), IoError>(IoError::NotRegistered),
{
}

} // verus!
