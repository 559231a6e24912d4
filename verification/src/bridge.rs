//! Resources held on behalf of a caller that cannot own them. The caller
//! gets a handle for each resource and names the resource by it: to look at
//! it, to change it, and at last to release it. A handle is issued once and
//! never again, so the use of a handle after its release can always be told
//! from the use of a live one.

pub mod session;

use vstd::prelude::*;

verus! {

/// The name of a resource in the table that issued it.
#[derive(Clone, Copy, Debug, PartialEq, Eq, Structural)]
pub struct Handle {
    pub index: usize,
}

/// What a table stands for.
pub struct TableView<V> {
    /// How many handles the table has issued: the handles with a lower index.
    pub issued: nat,
    /// What the table holds, by handle.
    pub resources: Map<Handle, V>,
}

impl<V> TableView<V> {
    /// Whether the handle names a resource that the table holds.
    pub open spec fn live(self, handle: Handle) -> bool {
        self.resources.contains_key(handle)
    }

    /// Whether the handle was issued and its resource has been released.
    pub open spec fn released(self, handle: Handle) -> bool {
        handle.index < self.issued && !self.resources.contains_key(handle)
    }

    /// This table with the resource of `handle` replaced.
    pub open spec fn with(self, handle: Handle, resource: V) -> TableView<V> {
        TableView { resources: self.resources.insert(handle, resource), ..self }
    }

    /// This table after one more handle is issued, for `resource`.
    pub open spec fn with_new(self, resource: V) -> TableView<V> {
        TableView {
            issued: self.issued + 1,
            resources: self.resources.insert(Handle { index: self.issued as usize }, resource),
        }
    }

    /// This table after the resource of `handle` is released.
    pub open spec fn without(self, handle: Handle) -> TableView<V> {
        TableView { resources: self.resources.remove(handle), ..self }
    }

    /// Whether this table can have come from `before`: no handle was taken
    /// back, and nothing that was released is held again.
    pub open spec fn follows(self, before: TableView<V>) -> bool {
        &&& before.issued <= self.issued
        &&& forall|handle: Handle| before.released(handle) ==> self.released(handle)
    }
}

/// The resources that a caller on the other side of the boundary holds.
pub struct HandleTable<T> {
    slots: Vec<Option<T>>,
}

impl<T> HandleTable<T> {
    /// The resource behind each handle that the table has issued, in the
    /// order of issue, or nothing where it has been released.
    pub closed spec fn slots(self) -> Seq<Option<T>> {
        self.slots@
    }

    /// Whether the handle names a resource that the table holds.
    pub open spec fn live(self, handle: Handle) -> bool {
        handle.index < self.slots().len() && self.slots()[handle.index as int] is Some
    }

    /// The resource that a live handle names.
    pub open spec fn resource(self, handle: Handle) -> T {
        self.slots()[handle.index as int]->0
    }
}

impl<T: View> View for HandleTable<T> {
    type V = TableView<T::V>;

    open spec fn view(&self) -> TableView<T::V> {
        TableView {
            issued: self.slots().len(),
            resources: Map::new(
                |handle: Handle| self.live(handle),
                |handle: Handle| self.resource(handle)@,
            ),
        }
    }
}

impl<T: View> HandleTable<T> {
    /// A table that holds nothing and has issued no handle.
    pub fn new() -> (table: Self)
        ensures
            table@.issued == 0,
            table@.resources == Map::<Handle, T::V>::empty(),
    {
        let table = HandleTable { slots: Vec::new() };
        assert(table@.resources =~= Map::<Handle, T::V>::empty());
        table
    }

    /// How many handles the table has issued.
    pub fn issued(&self) -> (issued: usize)
        ensures
            issued == self@.issued,
    {
        self.slots.len()
    }

    /// Takes ownership of a resource and issues the handle for it.
    pub fn acquire(&mut self, resource: T) -> (handle: Handle)
        ensures
            handle.index == old(self)@.issued,
            final(self)@ == old(self)@.with_new(resource@),
            final(self).live(handle),
            final(self).resource(handle) == resource,
            final(self)@.follows(old(self)@),
    {
        let handle = Handle { index: self.slots.len() };
        self.slots.push(Some(resource));
        assert(self@.resources =~= old(self)@.with_new(resource@).resources);
        handle
    }

    /// Whether the handle names a resource that the table holds: the check
    /// to make before any use of a handle that may have been released.
    pub fn is_live(&self, handle: Handle) -> (live: bool)
        ensures
            live == self.live(handle),
            live == self@.live(handle),
            live ==> handle.index < self@.issued,
    {
        handle.index < self.slots.len() && self.slots[handle.index].is_some()
    }

    /// Lends the resource of a handle, to look at.
    pub fn borrow(&self, handle: Handle) -> (resource: &T)
        requires
            self.live(handle),
        ensures
            *resource == self.resource(handle),
            resource@ == self@.resources[handle],
    {
        self.slots[handle.index].as_ref().unwrap()
    }

    /// Lends the resource of a handle, to change. Nothing else in the table
    /// changes with it.
    pub fn borrow_mut(&mut self, handle: Handle) -> (resource: &mut T)
        requires
            old(self).live(handle),
        ensures
            *resource == old(self).resource(handle),
            final(self).slots() == old(self).slots().update(
                handle.index as int,
                Some(*final(resource)),
            ),
    {
        match &mut self.slots[handle.index] {
            Some(resource) => resource,
            None => unreached(),
        }
    }

    /// Gives the resource of a handle back to the caller of this function,
    /// to dispose of. The handle names nothing from then on.
    pub fn release(&mut self, handle: Handle) -> (resource: T)
        requires
            old(self).live(handle),
        ensures
            resource == old(self).resource(handle),
            resource@ == old(self)@.resources[handle],
            final(self)@ == old(self)@.without(handle),
            final(self)@.released(handle),
            final(self)@.follows(old(self)@),
    {
        let taken = self.slots[handle.index].take();
        assert(self@.resources =~= old(self)@.without(handle).resources);
        match taken {
            Some(resource) => resource,
            None => unreached(),
        }
    }

    /// After a resource was lent to change, the table is the table as it
    /// was, with the resource as it is now.
    pub proof fn lemma_changed(self, before: Self, handle: Handle, resource: T)
        requires
            before.live(handle),
            self.slots() == before.slots().update(handle.index as int, Some(resource)),
        ensures
            self@ == before@.with(handle, resource@),
            self.live(handle),
            self.resource(handle) == resource,
            self@.follows(before@),
    {
        assert(self@.resources =~= before@.with(handle, resource@).resources);
    }
}

/// Following carries over any number of operations: a handle that was
/// released stays released whatever is done to the table afterwards.
pub proof fn lemma_follows_carries_over<V>(
    first: TableView<V>,
    second: TableView<V>,
    third: TableView<V>,
)
    requires
        second.follows(first),
        third.follows(second),
    ensures
        third.follows(first),
        first.follows(first),
{
}

} // verus!
