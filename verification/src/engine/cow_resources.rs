//! Copy-on-write sharing of container resources.
//!
//! A [`CowResource`] hands out cheap shared references to one value and
//! copies the value only when it is changed while others still hold it.

use crate::names::NameTable;
use std::sync::Arc;
use vstd::prelude::*;
use vstd::string::*;

verus! {

/// `Arc::clone`: another pointer to the same allocation, and so to the same
/// value.
#[verifier::external_body]
fn arc_share<T>(arc: &Arc<T>) -> (shared: Arc<T>)
    ensures
        shared == *arc,
{
    Arc::clone(arc)
}

/// `Arc::strong_count`: the number of strong pointers to the allocation.
/// The pointer handed in is one of them; how many others there are depends
/// on who else holds the value.
#[verifier::external_body]
fn arc_strong_count<T>(arc: &Arc<T>) -> (count: usize)
    ensures
        count >= 1,
{
    Arc::strong_count(arc)
}

/// `Arc::make_mut`: a mutable reference into the pointer. Where other
/// pointers to the allocation remain, the value is first cloned into an
/// allocation of its own, so what the reference points at is the old value
/// or its clone; what is written through the reference is the value of the
/// pointer afterwards.
#[verifier::external_body]
fn arc_make_mut<T: Clone>(arc: &mut Arc<T>) -> (inner: &mut T)
    ensures
        cloned::<T>(**old(arc), *inner),
        **final(arc) == *final(inner),
{
    Arc::make_mut(arc)
}

/// A value that is shared until it is changed.
pub struct CowResource<T: Clone> {
    inner: Arc<T>,
}

impl<T: Clone> CowResource<T> {
    /// The value of the resource.
    pub closed spec fn value(&self) -> T {
        *self.inner
    }

    /// A resource with the given value.
    pub fn new(value: T) -> (resource: Self)
        ensures
            resource.value() == value,
    {
        Self { inner: Arc::new(value) }
    }

    /// A shared reference to the value.
    pub fn share(&self) -> (shared: Arc<T>)
        ensures
            *shared == self.value(),
    {
        arc_share(&self.inner)
    }

    /// A mutable reference to the value of the resource. Where the value is
    /// shared it is cloned first, and the references handed out before keep
    /// the old value.
    pub fn mutate(&mut self) -> (inner: &mut T)
        ensures
            cloned::<T>(old(self).value(), *inner),
            final(self).value() == *final(inner),
    {
        arc_make_mut(&mut self.inner)
    }

    /// Number of references to the value: this resource, and everyone the
    /// value was shared with who still holds it.
    pub fn ref_count(&self) -> (count: usize)
        ensures
            count >= 1,
    {
        arc_strong_count(&self.inner)
    }

    /// Whether anyone else holds the value just now: [`counts_as_shared`].
    pub fn is_shared(&self) -> (shared: bool) {
        counts_as_shared(arc_strong_count(&self.inner))
    }
}

impl<T: Clone> Clone for CowResource<T> {
    /// Another resource that shares the value.
    fn clone(&self) -> (copy: Self)
        ensures
            copy.value() == self.value(),
    {
        Self { inner: arc_share(&self.inner) }
    }
}

/// Whether a value with `count` references is shared: whether anyone holds
/// it besides the resource itself.
pub fn counts_as_shared(count: usize) -> (shared: bool)
    ensures
        shared == (count > 1),
{
    count > 1
}

/// The value of each resource.
spec fn values_of<T: Clone>(resources: Map<Seq<char>, CowResource<T>>) -> Map<Seq<char>, T> {
    resources.map_values(|resource: CowResource<T>| resource.value())
}

/// Named copy-on-write resources.
pub struct SharedResourceManager<T: Clone> {
    resources: NameTable<CowResource<T>>,
}

impl<T: Clone> View for SharedResourceManager<T> {
    type V = Map<Seq<char>, T>;

    /// The value of each named resource.
    closed spec fn view(&self) -> Map<Seq<char>, T> {
        values_of(self.resources@)
    }
}

impl<T: Clone> SharedResourceManager<T> {
    /// No name occurs twice. Every manager that this library hands out is
    /// well formed, and every operation keeps it so.
    pub closed spec fn well_formed(&self) -> bool {
        self.resources.well_formed()
    }

    /// A manager without resources.
    pub fn new() -> (manager: Self)
        ensures
            manager.well_formed(),
            manager@ == Map::<Seq<char>, T>::empty(),
    {
        let manager = Self { resources: NameTable::new() };
        assert(manager@ =~= Map::<Seq<char>, T>::empty());
        manager
    }

    /// Puts the value under the name. A resource that stood under the name
    /// before is replaced; those who share its value keep it.
    pub fn insert(&mut self, name: &str, value: T)
        requires
            old(self).well_formed(),
        ensures
            final(self).well_formed(),
            final(self)@ == old(self)@.insert(name@, value),
    {
        let _ = self.resources.insert(String::from_str(name), CowResource::new(value));
        assert(self@ =~= old(self)@.insert(name@, value));
    }

    /// A shared reference to the value under the name.
    pub fn share(&self, name: &str) -> (shared: Option<Arc<T>>)
        requires
            self.well_formed(),
        ensures
            shared is Some == self@.contains_key(name@),
            shared matches Some(value) ==> *value == self@[name@],
    {
        match self.resources.get(name) {
            Some(resource) => Some(resource.share()),
            None => None,
        }
    }

    /// A mutable reference to the value under the name. Where the value is
    /// shared it is cloned first, and the references handed out before keep
    /// the old value.
    pub fn mutate(&mut self, name: &str) -> (inner: Option<&mut T>)
        requires
            old(self).well_formed(),
        ensures
            final(self).well_formed(),
            inner is Some == old(self)@.contains_key(name@),
            inner matches Some(value) ==> cloned::<T>(old(self)@[name@], *value) && final(self)@
                == old(self)@.insert(name@, *final(value)),
            inner is None ==> final(self)@ == old(self)@,
    {
        proof {
            assert forall|resource: CowResource<T>| #[trigger]
                values_of(old(self).resources@.insert(name@, resource)) =~= old(self)@.insert(
                    name@,
                    resource.value(),
                ) by {}
        }
        match self.resources.get_mut(name) {
            Some(resource) => Some(resource.mutate()),
            None => None,
        }
    }

    /// Number of references to the value under the name.
    pub fn ref_count(&self, name: &str) -> (count: Option<usize>)
        requires
            self.well_formed(),
        ensures
            count is Some == self@.contains_key(name@),
            count matches Some(n) ==> n >= 1,
    {
        match self.resources.get(name) {
            Some(resource) => Some(resource.ref_count()),
            None => None,
        }
    }

    /// Whether anyone else holds the value under the name.
    pub fn is_shared(&self, name: &str) -> (shared: Option<bool>)
        requires
            self.well_formed(),
        ensures
            shared is Some == self@.contains_key(name@),
    {
        match self.resources.get(name) {
            Some(resource) => Some(resource.is_shared()),
            None => None,
        }
    }

    /// Number of resources.
    pub fn len(&self) -> (n: usize)
        requires
            self.well_formed(),
        ensures
            n == self@.len(),
            self@.dom().finite(),
    {
        assert(self@.dom() =~= self.resources@.dom());
        self.resources.len()
    }

    /// Whether the manager has no resource.
    pub fn is_empty(&self) -> (empty: bool)
        requires
            self.well_formed(),
        ensures
            empty == (self@.len() == 0),
            self@.dom().finite(),
    {
        self.len() == 0
    }
}

impl<T: Clone> Default for SharedResourceManager<T> {
    fn default() -> (manager: Self)
        ensures
            manager.well_formed(),
            manager@ == Map::<Seq<char>, T>::empty(),
    {
        Self::new()
    }
}

} // verus!
