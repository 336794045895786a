use vstd::prelude::*;

verus! {

/// An object id; only an [`IdAllocator`] makes one.
#[derive(Clone, Copy, Debug, PartialEq, Eq)]
pub struct ObjectId {
    value: u32,
}

impl ObjectId {
    pub closed spec fn spec_value(&self) -> u32 {
        self.value
    }

    pub fn value(&self) -> (r: u32)
        ensures
            r == self.spec_value(),
    {
        self.value
    }
}

/// Hands out object ids: 1, 2, 3, ... in order, each at most once.
pub struct IdAllocator {
    last: u32,
}

impl IdAllocator {
    /// The last id handed out, 0 before the first.
    pub closed spec fn spec_last(&self) -> u32 {
        self.last
    }

    pub fn new() -> (r: IdAllocator)
        ensures
            r.spec_last() == 0,
    {
        IdAllocator { last: 0 }
    }

    /// The next id, or `None` once every `u32` id has been handed out.
    pub fn next_id(&mut self) -> (r: Option<ObjectId>)
        ensures
            old(self).spec_last() < u32::MAX ==> (r matches Some(id) && id.spec_value() == old(
                self,
            ).spec_last() + 1) && final(self).spec_last() == old(self).spec_last() + 1,
            old(self).spec_last() == u32::MAX ==> r is None && final(self).spec_last() == u32::MAX,
    {
        if self.last < u32::MAX {
            self.last = self.last + 1;
            Some(ObjectId { value: self.last })
        } else {
            None
        }
    }
}

/// A mesh placed in the scene by a transform, stamped with an id at creation.
pub struct StarryGameObject<M, T> {
    pub id: ObjectId,
    pub model: M,
    pub transform: T,
}

impl<M, T> StarryGameObject<M, T> {
    /// A new object with the next id of `ids`; `None` once the ids are spent.
    pub fn create_new_game_object_with_transform(ids: &mut IdAllocator, model: M, transform: T) -> (r:
        Option<Self>)
        ensures
            old(ids).spec_last() < u32::MAX ==> r is Some && final(ids).spec_last() == old(
                ids,
            ).spec_last() + 1,
            old(ids).spec_last() == u32::MAX ==> r is None && final(ids).spec_last() == u32::MAX,
            r matches Some(o) ==> o.id.spec_value() == final(ids).spec_last() && o.model == model
                && o.transform == transform,
    {
        match ids.next_id() {
            Some(id) => Some(StarryGameObject { id, model, transform }),
            None => None,
        }
    }

    pub fn get_id(&self) -> (r: u32)
        ensures
            r == self.id.spec_value(),
    {
        self.id.value()
    }
}

} // verus!
