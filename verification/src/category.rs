//! Product categories.

use crate::entity::Entity;
use crate::ids::gen_id_chars;
use crate::ids::is_generated_id;
use crate::ids::IdGen;
use vstd::prelude::*;

verus! {

/// A product category: organizes products in the shop.
#[derive(Debug, Clone, PartialEq)]
pub struct Category {
    pub id: String,
    pub name: String,
    pub description: String,
    pub created_at: i64,
}

impl Category {
    /// A new category, with a fresh identifier from the generator and
    /// creation time `now`.
    pub fn new(name: String, description: String, gen: &mut IdGen, now: i64) -> (c: Category)
        ensures
            exists|suffix: Seq<char>| c.id@ == gen_id_chars(old(gen).issued, suffix),
            is_generated_id(c.id@),
            c.name == name,
            c.description == description,
            c.created_at == now,
            final(gen).issued == if old(gen).issued < u64::MAX {
                (old(gen).issued + 1) as u64
            } else {
                u64::MAX
            },
    {
        Category { id: gen.fresh_id(), name, description, created_at: now }
    }
}

impl Entity for Category {
    open spec fn key(self) -> Seq<char> {
        self.id@
    }

    open spec fn stamp(self) -> i64 {
        self.created_at
    }

    fn key_ref(&self) -> (r: &String) {
        &self.id
    }

    fn created(&self) -> (r: i64) {
        self.created_at
    }

    fn copied(&self) -> (r: Category) {
        Category {
            id: self.id.clone(),
            name: self.name.clone(),
            description: self.description.clone(),
            created_at: self.created_at,
        }
    }
}

} // verus!
