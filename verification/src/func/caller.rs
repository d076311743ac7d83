//! The view that a host function gets of its caller.

use crate::engine::Engine;
use crate::store::{Extern, Instance, Store};
use vstd::prelude::*;

verus! {

/// The caller of a host function: the store with exclusive access for the
/// time of the call, and the instance the call came from.
///
/// The instance is `Some` exactly if the host function was called from a
/// WebAssembly function, which always belongs to an instance. It is `None` if
/// the embedder called the function directly.
pub struct Caller<'a, 'engine, T> {
    /// The store, borrowed for the time of the call.
    pub store: &'a mut Store<'engine, T>,
    /// The module instance that made the call.
    pub instance: Option<Instance>,
}

impl<'a, 'engine, T> Caller<'a, 'engine, T> {
    /// The store as it is now.
    pub open spec fn context(&self) -> Store<'engine, T> {
        *self.store
    }

    /// Creates the caller from the given store and the handle of the calling
    /// instance.
    pub fn new(ctx: &'a mut Store<'engine, T>, instance: Option<Instance>) -> (caller: Self)
        ensures
            caller.context() == *old(ctx),
            *final(caller.store) == *final(ctx),
            caller.instance == instance,
    {
        Caller { store: ctx, instance }
    }

    /// Creates the caller for a call that the embedder makes itself: there
    /// is no calling instance.
    pub fn from_context(ctx: &'a mut Store<'engine, T>) -> (caller: Self)
        ensures
            caller.context() == *old(ctx),
            *final(caller.store) == *final(ctx),
            caller.instance is None,
    {
        Caller { store: ctx, instance: None }
    }

    /// Queries the caller for an export by `name`.
    ///
    /// Returns `None` if there is no calling instance, if its handle is not
    /// one of the store, or if the instance has no export under that name;
    /// otherwise the first export with that name.
    pub fn get_export(&self, name: &str) -> (item: Option<Extern>)
        ensures
            item == (match self.instance {
                Some(instance) => if instance.0 < self.context()@.instances.len() {
                    match self.context()@.instances[instance.0 as int].find_export(name@) {
                        Some(i) => Some(self.context()@.instances[instance.0 as int].exports[i].1),
                        None => None,
                    }
                } else {
                    None
                },
                None => None,
            }),
    {
        match self.instance {
            Some(instance) => match self.store.instance(instance) {
                Some(entity) => entity.get_export(name),
                None => None,
            },
            None => None,
        }
    }

    /// Returns a shared reference to the data of the host.
    pub fn host_data(&self) -> (data: &T)
        ensures
            *data == self.context().spec_state(),
    {
        self.store.state()
    }

    /// Returns an exclusive reference to the data of the host. Nothing else of
    /// the store can change through it.
    pub fn host_data_mut(&mut self) -> (data: &mut T)
        ensures
            *data == old(self).context().spec_state(),
            final(self).context().spec_state() == *final(data),
            final(self).context()@ == old(self).context()@,
            final(self).context().spec_engine() == old(self).context().spec_engine(),
            old(self).context().wf() ==> final(self).context().wf(),
            final(self).instance == old(self).instance,
            *final(final(self).store) == *final(old(self).store),
    {
        self.store.state_mut()
    }

    /// Returns a shared reference to the engine of the store.
    pub fn engine(&self) -> (engine: &'engine Engine)
        ensures
            engine == self.context().spec_engine(),
    {
        self.store.engine()
    }

    /// Returns a shared reference to the store.
    pub fn as_context(&self) -> (store: &Store<'engine, T>)
        ensures
            *store == self.context(),
    {
        &*self.store
    }

    /// Returns an exclusive reference to the store.
    pub fn as_context_mut(&mut self) -> (store: &mut Store<'engine, T>)
        ensures
            *store == old(self).context(),
            final(self).context() == *final(store),
            final(self).instance == old(self).instance,
            *final(final(self).store) == *final(old(self).store),
    {
        &mut *self.store
    }
}

} // verus!
