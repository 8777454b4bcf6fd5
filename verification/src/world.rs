//! The world of a game: zones, and the entities placed in them.
use vstd::prelude::*;
use crate::geometry::Point2D;

verus! {

/// A part of the world, with the entities in it and where they are.
pub struct Zone<T> {
    pub entities: Vec<(usize, Point2D<T>)>,
}

impl<T> Zone<T> {
    /// A zone without entities.
    pub fn new() -> (zone: Self)
        ensures
            zone.entities@ == Seq::<(usize, Point2D<T>)>::empty(),
    {
        Self { entities: Vec::new() }
    }

    /// Place an entity in the zone, behind those that are there.
    pub fn add(&mut self, ent_id: usize, pos: Point2D<T>)
        ensures
            final(self).entities@ == old(self).entities@.push((ent_id, pos)),
    {
        self.entities.push((ent_id, pos));
    }
}

/// The zones of a game, in the order in which they were added.
pub struct World<T> {
    zones: Vec<Zone<T>>,
}

impl<T> View for World<T> {
    type V = Seq<Zone<T>>;

    closed spec fn view(&self) -> Seq<Zone<T>> {
        self.zones@
    }
}

impl<T> World<T> {
    /// A world without zones.
    pub fn new() -> (world: Self)
        ensures
            world@ == Seq::<Zone<T>>::empty(),
    {
        Self { zones: Vec::new() }
    }

    /// Add a zone behind those that are there.
    pub fn add_zone(&mut self, zone: Zone<T>)
        ensures
            final(self)@ == old(self)@.push(zone),
    {
        self.zones.push(zone);
    }
}

} // verus!
