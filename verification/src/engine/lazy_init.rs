//! Lazily initialized resources.
//!
//! A [`LazyResource`] is made empty and filled on first use; the closure
//! that fills it runs at most once. A [`LazyResourcePool`] keeps such
//! resources by name.

use vstd::hash_map::StringHashMap;
use vstd::prelude::*;
use vstd::string::*;

verus! {

/// A resource that is made on first use.
pub struct LazyResource<T> {
    name: String,
    inner: Option<T>,
}

impl<T> LazyResource<T> {
    /// The label of the resource.
    pub closed spec fn spec_name(&self) -> Seq<char> {
        self.name@
    }

    /// The resource, once it was made.
    pub closed spec fn value(&self) -> Option<T> {
        self.inner
    }

    /// A resource with the given label that is not made yet.
    pub fn new(name: &str) -> (resource: Self)
        ensures
            resource.spec_name() == name@,
            resource.value() is None,
    {
        Self { name: String::from_str(name), inner: None }
    }

    /// The resource, made by `init` where it was not made before. On a
    /// resource that was made, `init` is not called.
    pub fn get_or_init<F>(&mut self, init: F) -> (value: &T) where F: FnOnce() -> T
        requires
            old(self).value() is None ==> init.requires(()),
        ensures
            final(self).value() == Some(*value),
            final(self).spec_name() == old(self).spec_name(),
            old(self).value() matches Some(made) ==> *value == made,
            old(self).value() is None ==> init.ensures((), *value),
    {
        if self.inner.is_none() {
            self.inner = Some(init());
        }
        self.inner.as_ref().unwrap()
    }

    /// The resource, if it was made.
    pub fn get(&self) -> (value: Option<&T>)
        ensures
            value is Some == self.value() is Some,
            value matches Some(made) ==> Some(*made) == self.value(),
    {
        self.inner.as_ref()
    }

    /// Whether the resource was made.
    pub fn is_initialized(&self) -> (made: bool)
        ensures
            made == self.value() is Some,
    {
        self.inner.is_some()
    }

    /// Gives the resource up, if it was made.
    pub fn into_inner(self) -> (value: Option<T>)
        ensures
            value == self.value(),
    {
        self.inner
    }
}

/// Named resources that are made on first use.
#[verifier::reject_recursive_types(T)]
pub struct LazyResourcePool<T> {
    resources: StringHashMap<LazyResource<T>>,
}

impl<T> View for LazyResourcePool<T> {
    type V = Map<Seq<char>, Option<T>>;

    /// The registered names, each with its resource once that was made.
    closed spec fn view(&self) -> Map<Seq<char>, Option<T>> {
        self.resources@.map_values(|resource: LazyResource<T>| resource.value())
    }
}

impl<T> LazyResourcePool<T> {
    /// The pool has finitely many names. Every pool that this library hands
    /// out is well formed, and every operation keeps it so.
    pub closed spec fn well_formed(&self) -> bool {
        self.resources@.dom().finite()
    }

    /// An empty pool.
    pub fn new() -> (pool: Self)
        ensures
            pool.well_formed(),
            pool@ == Map::<Seq<char>, Option<T>>::empty(),
    {
        let pool = Self { resources: StringHashMap::new() };
        assert(pool@ =~= Map::<Seq<char>, Option<T>>::empty());
        pool
    }

    /// Registers a name without making its resource. A name that is
    /// registered stays as it is.
    pub fn register(&mut self, name: &str)
        requires
            old(self).well_formed(),
        ensures
            final(self).well_formed(),
            final(self)@ == (if old(self)@.contains_key(name@) {
                old(self)@
            } else {
                old(self)@.insert(name@, None)
            }),
    {
        if !self.resources.contains_key(name) {
            self.resources.insert(String::from_str(name), LazyResource::new(name));
            assert(self@ =~= old(self)@.insert(name@, None));
        } else {
            assert(self@ =~= old(self)@);
        }
    }

    /// The resource of the name, made by `init` where it was not made
    /// before; the name is registered where it was not. On a resource that
    /// was made, `init` is not called.
    pub fn get_or_init<F>(&mut self, name: &str, init: F) -> (value: &T) where F: FnOnce() -> T
        requires
            old(self).well_formed(),
            !(old(self)@.contains_key(name@) && old(self)@[name@] is Some) ==> init.requires(()),
        ensures
            final(self).well_formed(),
            final(self)@ == old(self)@.insert(name@, Some(*value)),
            old(self)@.contains_key(name@) && old(self)@[name@] is Some ==> Some(*value) == old(
                self,
            )@[name@],
            !(old(self)@.contains_key(name@) && old(self)@[name@] is Some) ==> init.ensures(
                (),
                *value,
            ),
    {
        let made = match self.resources.get(name) {
            Some(resource) => resource.is_initialized(),
            None => false,
        };
        if !made {
            let mut resource = LazyResource::new(name);
            let _ = resource.get_or_init(init);
            self.resources.insert(String::from_str(name), resource);
        }
        let value = self.resources.get(name).unwrap().get().unwrap();
        assert(self@ =~= old(self)@.insert(name@, Some(*value)));
        value
    }

    /// Whether the resource of the name was made. A name that is not
    /// registered has no resource.
    pub fn is_initialized(&self, name: &str) -> (made: bool)
        ensures
            made == (self@.contains_key(name@) && self@[name@] is Some),
    {
        match self.resources.get(name) {
            Some(resource) => resource.is_initialized(),
            None => false,
        }
    }

    /// Removes the name and its resource. Says whether the name was
    /// registered.
    pub fn reset(&mut self, name: &str) -> (removed: bool)
        requires
            old(self).well_formed(),
        ensures
            final(self).well_formed(),
            removed == old(self)@.contains_key(name@),
            final(self)@ == old(self)@.remove(name@),
    {
        let removed = self.resources.contains_key(name);
        self.resources.remove(name);
        assert(self@ =~= old(self)@.remove(name@));
        removed
    }

    /// Number of registered names.
    pub fn len(&self) -> (n: usize)
        requires
            self.well_formed(),
        ensures
            n == self@.len(),
            self@.dom().finite(),
    {
        assert(self@.dom() =~= self.resources@.dom());
        self.resources.len()
    }

    /// Whether no name is registered.
    pub fn is_empty(&self) -> (empty: bool)
        requires
            self.well_formed(),
        ensures
            empty == (self@.len() == 0),
            self@.dom().finite(),
    {
        assert(self@.dom() =~= self.resources@.dom());
        self.resources.len() == 0
    }
}

impl<T> Default for LazyResourcePool<T> {
    fn default() -> (pool: Self)
        ensures
            pool.well_formed(),
            pool@ == Map::<Seq<char>, Option<T>>::empty(),
    {
        Self::new()
    }
}

} // verus!
