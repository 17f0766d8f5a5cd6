//! Domain multiplexing: many objects behind one session, each addressed
//! by a small integer id.
//!
//! Ids are handed out lowest first. Deleting an object frees its id for
//! the next object that is created, so the ids in use never grow beyond
//! the number of objects that are alive.

use vstd::prelude::*;
use vstd::set_lib::{lemma_len_subset, lemma_set_subset_finite};
use crate::ipc::message::Message;
use crate::result::{
    object_not_found, out_of_domain_entries, spec_object_not_found, spec_out_of_domain_entries,
    ResultCode,
};

verus! {

/// Whether `id` is the lowest id under which no object is alive.
pub open spec fn is_lowest_free<T>(alive: Map<u32, T>, id: u32) -> bool {
    &&& !alive.dom().contains(id)
    &&& forall|j: u32| j < id ==> alive.dom().contains(j)
}

/// The objects of one domain session, by id.
pub struct DomainTable<T> {
    slots: Vec<Option<T>>,
    capacity: u32,
}

impl<T> DomainTable<T> {
    /// The objects that are alive, by id.
    pub closed spec fn view(self) -> Map<u32, T> {
        Map::new(
            |id: u32|
                id < self.capacity && id < self.slots@.len() && self.slots@[id as int] is Some,
            |id: u32| self.slots@[id as int]->0,
        )
    }

    /// The largest number of objects the domain can hold; its ids are the
    /// numbers below it.
    pub closed spec fn limit(self) -> u32 {
        self.capacity
    }

    /// A domain holds finitely many objects.
    pub proof fn lemma_finite(self)
        ensures
            self@.dom().finite(),
    {
        lemma_ids_below(self.capacity);
        assert(self@.dom().subset_of(ids_below(self.capacity)));
        lemma_set_subset_finite(ids_below(self.capacity), self@.dom());
    }

    /// A domain without objects that can hold up to `capacity` of them.
    pub fn new(capacity: u32) -> (table: Self)
        ensures
            table@ == Map::<u32, T>::empty(),
            table.limit() == capacity,
    {
        let table = Self { slots: Vec::new(), capacity };
        assert(table@ =~= Map::<u32, T>::empty());
        table
    }

    /// Whether an object is alive under the id.
    pub fn contains(&self, id: u32) -> (b: bool)
        ensures
            b == self@.dom().contains(id),
    {
        let i: usize = id as usize;
        id < self.capacity && i < self.slots.len() && self.slots[i].is_some()
    }

    /// Whether every id of the domain is in use, so that `create` would
    /// fail.
    pub fn is_full(&self) -> (b: bool)
        ensures
            b == (forall|j: u32| j < self.limit() ==> self@.dom().contains(j)),
    {
        let held: usize = self.slots.len();
        if held < self.capacity as usize {
            assert(!self@.dom().contains(held as u32));
            return false;
        }
        let n: usize = self.capacity as usize;
        let mut i: usize = 0;
        while i < n
            invariant
                n == self.capacity,
                n <= self.slots@.len(),
                i <= n,
                forall|j: int| 0 <= j < i ==> self.slots@[j] is Some,
            decreases n - i,
        {
            if self.slots[i].is_none() {
                assert(!self@.dom().contains(i as u32));
                return false;
            }
            i += 1;
        }
        true
    }

    /// Adds an object under the lowest id that is free.
    ///
    /// Fails with the out-of-entries status, and changes nothing, exactly
    /// when every id below the limit is in use.
    pub fn create(&mut self, object: T) -> (r: Result<u32, ResultCode>)
        ensures
            final(self).limit() == old(self).limit(),
            match r {
                Ok(id) => {
                    &&& id < old(self).limit()
                    &&& is_lowest_free(old(self)@, id)
                    &&& final(self)@ == old(self)@.insert(id, object)
                },
                Err(e) => {
                    &&& e == spec_out_of_domain_entries()
                    &&& forall|j: u32| j < old(self).limit() ==> old(self)@.dom().contains(j)
                    &&& final(self)@ == old(self)@
                },
            },
    {
        let held: usize = self.slots.len();
        let n: usize = if held < self.capacity as usize { held } else { self.capacity as usize };
        let mut i: usize = 0;
        while i < n && self.slots[i].is_some()
            invariant
                n <= self.slots@.len(),
                i <= n,
                forall|j: int| 0 <= j < i ==> self.slots@[j] is Some,
            decreases n - i,
        {
            i += 1;
        }
        if i < n {
            self.slots[i] = Some(object);
            assert(self@ =~= old(self)@.insert(i as u32, object));
            Ok(i as u32)
        } else if held < self.capacity as usize {
            self.slots.push(Some(object));
            assert(self@ =~= old(self)@.insert(i as u32, object));
            Ok(i as u32)
        } else {
            Err(out_of_domain_entries())
        }
    }

    /// Removes the object under the id and hands it out; the id is free
    /// again.
    ///
    /// Fails with the object-not-found status, and changes nothing,
    /// exactly when no object is alive under the id.
    pub fn delete(&mut self, id: u32) -> (r: Result<T, ResultCode>)
        ensures
            final(self).limit() == old(self).limit(),
            match r {
                Ok(object) => {
                    &&& old(self)@.dom().contains(id)
                    &&& object == old(self)@[id]
                    &&& final(self)@ == old(self)@.remove(id)
                },
                Err(e) => {
                    &&& e == spec_object_not_found()
                    &&& !old(self)@.dom().contains(id)
                    &&& final(self)@ == old(self)@
                },
            },
    {
        let i: usize = id as usize;
        if id >= self.capacity || i >= self.slots.len() {
            return Err(object_not_found());
        }
        let taken: Option<T> = self.slots[i].take();
        match taken {
            Some(object) => {
                assert(self@ =~= old(self)@.remove(id));
                Ok(object)
            },
            None => {
                assert(self@ =~= old(self)@);
                Err(object_not_found())
            },
        }
    }

    /// The object that a request for the id is routed to.
    ///
    /// Fails with the object-not-found status exactly when no object is
    /// alive under the id.
    pub fn get(&self, id: u32) -> (r: Result<&T, ResultCode>)
        ensures
            match r {
                Ok(object) => self@.dom().contains(id) && *object == self@[id],
                Err(e) => e == spec_object_not_found() && !self@.dom().contains(id),
            },
    {
        let i: usize = id as usize;
        if id >= self.capacity || i >= self.slots.len() {
            return Err(object_not_found());
        }
        match &self.slots[i] {
            Some(object) => Ok(object),
            None => Err(object_not_found()),
        }
    }
}

/// Routes a request to the object of a domain that it addresses.
///
/// A request that names no domain object, or one under whose id no object
/// is alive, is refused with the object-not-found status.
pub fn route<'a, T>(table: &'a DomainTable<T>, request: &Message) -> (r: Result<&'a T, ResultCode>)
    ensures
        match request.domain_object_id {
            Some(id) if table@.dom().contains(id) => r matches Ok(object) && *object == table@[id],
            _ => r matches Err(e) && e == spec_object_not_found(),
        },
{
    match request.domain_object_id {
        Some(id) => table.get(id),
        None => Err(object_not_found()),
    }
}

/// The ids below `n`.
pub open spec fn ids_below(n: u32) -> Set<u32> {
    Set::new(|j: u32| j < n)
}

/// There are `n` ids below `n`.
pub proof fn lemma_ids_below(n: u32)
    ensures
        ids_below(n).finite(),
        ids_below(n).len() == n,
    decreases n,
{
    if n == 0 {
        assert(ids_below(0) =~= Set::<u32>::empty());
    } else {
        let m = (n - 1) as u32;
        lemma_ids_below(m);
        assert(ids_below(n) =~= ids_below(m).insert(m));
    }
}

/// The ids in use do not grow with the number of objects that were ever
/// created: the id that the next object gets is at most the number of
/// objects that are alive.
pub proof fn lemma_next_id_bounded<T>(alive: Map<u32, T>, id: u32)
    requires
        alive.dom().finite(),
        is_lowest_free(alive, id),
    ensures
        id <= alive.dom().len(),
{
    lemma_ids_below(id);
    assert(ids_below(id).subset_of(alive.dom()));
    lemma_len_subset(ids_below(id), alive.dom());
}

/// There is one lowest free id at most, so the id that `create` hands out
/// is determined by the objects that are alive.
pub proof fn lemma_lowest_free_unique<T>(alive: Map<u32, T>, a: u32, b: u32)
    requires
        is_lowest_free(alive, a),
        is_lowest_free(alive, b),
    ensures
        a == b,
{
    if a < b {
        assert(alive.dom().contains(a));
    }
    if b < a {
        assert(alive.dom().contains(b));
    }
}

/// A deleted id is used again: after the object under `id` was deleted,
/// the next object is created under `id` or under a lower id, and under
/// `id` itself when every lower id is in use. A request for `id` in
/// between finds no object.
pub proof fn lemma_deleted_id_is_reused<T>(alive: Map<u32, T>, id: u32, next: u32)
    requires
        alive.dom().contains(id),
        is_lowest_free(alive.remove(id), next),
    ensures
        !alive.remove(id).dom().contains(id),
        next <= id,
        (forall|j: u32| j < id ==> alive.dom().contains(j)) ==> next == id,
{
    if id < next {
        assert(alive.remove(id).dom().contains(id));
    }
    if next < id && (forall|j: u32| j < id ==> alive.dom().contains(j)) {
        assert(alive.dom().contains(next));
        assert(alive.remove(id).dom().contains(next));
    }
}

} // verus!
