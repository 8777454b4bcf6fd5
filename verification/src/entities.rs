//! The entities of a game, found again by the number they were given.
use vstd::prelude::*;
use crate::geometry::Point2D;

verus! {

/// The number by which an entity is found again.
pub type EntityId = usize;

/// Something that has a place in the world and a glyph to show there.
pub trait Entity<T> {
    fn pixel(&self) -> char;

    fn position(&self) -> Point2D<T>;
}

/// The entities of a game. An entity's number is its place in the order in
/// which the entities were added.
#[verifier::reject_recursive_types(T)]
pub struct Entities<T> {
    inner: Vec<Box<dyn Entity<T>>>,
}

impl<T> View for Entities<T> {
    type V = Seq<Box<dyn Entity<T>>>;

    closed spec fn view(&self) -> Seq<Box<dyn Entity<T>>> {
        self.inner@
    }
}

impl<T> Entities<T> {
    /// No entities, with room for `cap` of them.
    pub fn with_capacity(cap: usize) -> (entities: Self)
        ensures
            entities@ == Seq::<Box<dyn Entity<T>>>::empty(),
    {
        Self { inner: Vec::with_capacity(cap) }
    }

    /// The entity with the given number.
    pub fn get(&self, index: EntityId) -> (entity: &Box<dyn Entity<T>>)
        requires
            index < self@.len(),
        ensures
            *entity == self@[index as int],
    {
        &self.inner[index]
    }

    /// Add an entity and return its number.
    pub fn push(&mut self, ent: Box<dyn Entity<T>>) -> (id: EntityId)
        ensures
            id == old(self)@.len(),
            final(self)@ == old(self)@.push(ent),
    {
        let id = self.inner.len();
        self.inner.push(ent);
        id
    }
}

} // verus!
