//! The table that says which family's algorithm serves a target.
//!
//! A family is registered under a key, and serves every target whose name
//! holds that key. The table is filled once and only read afterwards, so
//! it can be shared without a lock. Where several keys stand in a name,
//! the one that was registered first decides.

use crate::common::plunger_error::{PlungerError, PlungerErrorView};
use crate::text::{contains, contains_text, same_text};
use vstd::prelude::*;
use vstd::string::*;

verus! {

/// A family of targets with an algorithm of its own.
#[derive(Debug, Clone, Copy, PartialEq, Eq, Structural)]
pub enum Family {
    Stm32l0,
}

/// The key under which the STM32L0 family is registered.
pub const STM32L0_KEY: &'static str = "STM32L0";

/// The text of the error for a key that is registered twice.
pub const DUPLICATE_KEY: &'static str = "a family is already registered under this key";

/// One line of the table.
#[derive(Debug, Clone, PartialEq, Eq)]
pub struct Entry {
    key: String,
    family: Family,
}

/// The table of families, in the order of registration.
#[derive(Debug, Clone, PartialEq, Eq)]
pub struct Registry {
    entries: Vec<Entry>,
}

/// The key at `i` stands in `name`, and no earlier key does.
pub open spec fn first_match(table: Seq<(Seq<char>, Family)>, name: Seq<char>, i: int) -> bool {
    &&& 0 <= i < table.len()
    &&& contains_text(name, table[i].0)
    &&& forall|j: int| 0 <= j < i ==> !contains_text(name, #[trigger] table[j].0)
}

/// No key stands in `name`.
pub open spec fn no_match(table: Seq<(Seq<char>, Family)>, name: Seq<char>) -> bool {
    forall|i: int| 0 <= i < table.len() ==> !contains_text(name, #[trigger] table[i].0)
}

/// The family that serves `name`: that of the first key that stands in the
/// name, if any does.
pub open spec fn family_of(table: Seq<(Seq<char>, Family)>, name: Seq<char>) -> Option<Family> {
    if exists|i: int| first_match(table, name, i) {
        Some(table[choose|i: int| first_match(table, name, i)].1)
    } else {
        None
    }
}

/// `key` is one of the keys of the table.
pub open spec fn has_key(table: Seq<(Seq<char>, Family)>, key: Seq<char>) -> bool {
    exists|i: int| 0 <= i < table.len() && (#[trigger] table[i]).0 == key
}

/// No key occurs twice.
pub open spec fn distinct_keys(table: Seq<(Seq<char>, Family)>) -> bool {
    forall|i: int, j: int|
        0 <= i < j < table.len() ==> (#[trigger] table[i]).0 != (#[trigger] table[j]).0
}

impl View for Registry {
    type V = Seq<(Seq<char>, Family)>;

    closed spec fn view(&self) -> Seq<(Seq<char>, Family)> {
        Seq::new(self.entries@.len(), |i: int| (self.entries@[i].key@, self.entries@[i].family))
    }
}

impl Registry {
    /// The table without entries.
    pub fn new() -> (registry: Registry)
        ensures
            registry@ == Seq::<(Seq<char>, Family)>::empty(),
    {
        let registry = Registry { entries: Vec::new() };
        assert(registry@ =~= Seq::<(Seq<char>, Family)>::empty());
        registry
    }

    /// The table of the families that the library knows: the STM32L0
    /// family, under its key.
    pub fn standard() -> (registry: Registry)
        ensures
            registry@ == seq![(STM32L0_KEY@, Family::Stm32l0)],
            distinct_keys(registry@),
    {
        let mut entries: Vec<Entry> = Vec::new();
        entries.push(Entry { key: String::from_str(STM32L0_KEY), family: Family::Stm32l0 });
        let registry = Registry { entries };
        assert(registry@ =~= seq![(STM32L0_KEY@, Family::Stm32l0)]);
        registry
    }

    /// How many families are registered.
    pub fn len(&self) -> (len: usize)
        ensures
            len == self@.len(),
    {
        self.entries.len()
    }

    /// Whether a family is registered under `key`.
    pub fn has_key(&self, key: &str) -> (found: bool)
        ensures
            found == has_key(self@, key@),
    {
        let mut i: usize = 0;
        while i < self.entries.len()
            invariant
                i <= self.entries.len(),
                forall|j: int| 0 <= j < i ==> (#[trigger] self@[j]).0 != key@,
            decreases self.entries.len() - i,
        {
            if same_text(self.entries[i].key.as_str(), key) {
                assert(self@[i as int].0 == key@);
                return true;
            }
            i += 1;
        }
        false
    }

    /// Registers `family` under `key`, behind the families registered
    /// before. A key that is registered already is refused, and the table
    /// stays as it was.
    pub fn register(&mut self, key: String, family: Family) -> (done: Result<(), PlungerError>)
        ensures
            match done {
                Ok(()) => !has_key(old(self)@, key@) && final(self)@ == old(self)@.push(
                    (key@, family),
                ),
                Err(err) => has_key(old(self)@, key@) && final(self)@ == old(self)@ && err@
                    == PlungerErrorView::StateError(DUPLICATE_KEY@),
            },
            distinct_keys(old(self)@) ==> distinct_keys(final(self)@),
    {
        if self.has_key(key.as_str()) {
            return Err(PlungerError::StateError(String::from_str(DUPLICATE_KEY)));
        }
        let ghost before = self@;
        self.entries.push(Entry { key, family });
        assert(self@ =~= before.push((key@, family)));
        Ok(())
    }

    /// The family that serves the target `target_name`: that of the first
    /// registered key that stands in the name. No family serves a name in
    /// which no key stands.
    pub fn lookup(&self, target_name: &str) -> (found: Option<Family>)
        ensures
            found == family_of(self@, target_name@),
            match found {
                Some(family) => exists|i: int| #[trigger]
                    first_match(self@, target_name@, i) && self@[i].1 == family,
                None => no_match(self@, target_name@),
            },
    {
        let mut i: usize = 0;
        while i < self.entries.len()
            invariant
                i <= self.entries.len(),
                forall|j: int| 0 <= j < i ==> !contains_text(target_name@, #[trigger] self@[j].0),
            decreases self.entries.len() - i,
        {
            if contains(target_name, self.entries[i].key.as_str()) {
                proof {
                    assert(first_match(self@, target_name@, i as int));
                    lemma_one_first_match(
                        self@,
                        target_name@,
                        i as int,
                        choose|c: int| first_match(self@, target_name@, c),
                    );
                }
                return Some(self.entries[i].family);
            }
            i += 1;
        }
        None
    }
}

/// At most one key is the first that stands in a name.
pub proof fn lemma_one_first_match(
    table: Seq<(Seq<char>, Family)>,
    name: Seq<char>,
    i: int,
    j: int,
)
    requires
        first_match(table, name, i),
        first_match(table, name, j),
    ensures
        i == j,
{
}

} // verus!
