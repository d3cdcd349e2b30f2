//! The reminder catalog: which reminder types exist, and how long a cycle
//! of each lasts.

use crate::table::NameTable;
use vstd::prelude::*;

verus! {

/// The configuration of one reminder type.
#[derive(Clone, Copy, Debug, PartialEq, Eq, Structural)]
pub struct ReminderConfig {
    /// The length of one cycle, in minutes.
    pub interval_minutes: u32,
    /// Whether the reminder is switched on. The engine records the flag
    /// and does not act on it.
    pub enabled: bool,
}

/// The catalog of reminder types, read as a finite map from the type's
/// name to its configuration.
pub struct Catalog {
    table: NameTable<ReminderConfig>,
}

impl View for Catalog {
    type V = Map<Seq<char>, ReminderConfig>;

    closed spec fn view(&self) -> Map<Seq<char>, ReminderConfig> {
        self.table@
    }
}

impl Catalog {
    /// The catalog without any reminder type.
    pub fn new() -> (catalog: Self)
        ensures
            catalog@ == Map::<Seq<char>, ReminderConfig>::empty(),
    {
        Catalog { table: NameTable::new() }
    }

    /// The configuration of the reminder type `name`, if the catalog has
    /// one.
    pub fn get(&self, name: &String) -> (config: Option<ReminderConfig>)
        ensures
            config == if self@.contains_key(name@) {
                Some(self@[name@])
            } else {
                None
            },
    {
        self.table.get(name)
    }

    /// Inserts the reminder type `name`, or replaces its configuration.
    /// Every other type keeps its configuration.
    pub fn upsert(&mut self, name: String, config: ReminderConfig)
        ensures
            final(self)@ == old(self)@.insert(name@, config),
    {
        self.table.set(name, config);
    }

    /// The reminder types with their configurations, each type once.
    pub fn to_vec(&self) -> (pairs: Vec<(String, ReminderConfig)>)
        ensures
            crate::table::lists_map(pairs@, self@),
    {
        self.table.to_vec()
    }
}

} // verus!
