//! Consumable items a run can hold.

use vstd::prelude::*;

verus! {

/// Types of consumables.
#[derive(Debug, Clone, Copy, PartialEq, Eq, Structural)]
pub enum ConsumableType {
    TarotCard,
    PlanetCard,
    SpectralCard,
    Voucher,
    BoosterPack,
}

/// A consumable item that can be used during a run.
#[derive(Debug, Clone)]
pub struct Consumable {
    pub name: String,
    pub description: String,
    pub consumable_type: ConsumableType,
    pub cost: i64,
}

impl Consumable {
    /// Create a new consumable.
    pub fn new(name: String, description: String, consumable_type: ConsumableType, cost: i64) -> (r:
        Consumable)
        ensures
            r.name == name,
            r.description == description,
            r.consumable_type == consumable_type,
            r.cost == cost,
    {
        Consumable { name, description, consumable_type, cost }
    }
}

/// A collection of consumables.
#[derive(Debug, Clone)]
pub struct Consumables {
    pub consumables: Vec<Consumable>,
}

impl Consumables {
    /// Create a new empty collection.
    pub fn new() -> (r: Consumables)
        ensures
            r.consumables@ == Seq::<Consumable>::empty(),
    {
        Consumables { consumables: Vec::new() }
    }

    /// The number of consumables.
    pub fn len(&self) -> (r: usize)
        ensures
            r == self.consumables@.len(),
    {
        self.consumables.len()
    }

    /// Check if the collection is empty.
    pub fn is_empty(&self) -> (r: bool)
        ensures
            r == (self.consumables@.len() == 0),
    {
        self.consumables.len() == 0
    }

    /// Add a consumable at the end.
    pub fn push(&mut self, consumable: Consumable)
        ensures
            final(self).consumables@ == old(self).consumables@.push(consumable),
    {
        self.consumables.push(consumable);
    }

    /// The consumable at a position.
    pub fn get(&self, index: usize) -> (r: Option<&Consumable>)
        ensures
            index < self.consumables@.len() ==> (r matches Some(c) && *c == self.consumables@[
                index as int]),
            index >= self.consumables@.len() ==> r is None,
    {
        if index < self.consumables.len() {
            Some(&self.consumables[index])
        } else {
            None
        }
    }
}

impl Default for Consumables {
    /// An empty collection.
    fn default() -> (r: Consumables)
        ensures
            r.consumables@ == Seq::<Consumable>::empty(),
    {
        Consumables::new()
    }
}

} // verus!
