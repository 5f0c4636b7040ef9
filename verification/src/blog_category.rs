//! Blog categories.

use crate::entity::Entity;
use crate::ids::gen_id_chars;
use crate::ids::is_generated_id;
use crate::ids::IdGen;
use vstd::prelude::*;

verus! {

/// A blog category: organizes posts by topic.
#[derive(Debug, Clone, PartialEq)]
pub struct BlogCategory {
    pub id: String,
    pub name: String,
    pub description: String,
    pub created_at: i64,
}

impl BlogCategory {
    /// A new blog category, with a fresh identifier from the generator and
    /// creation time `now`.
    pub fn new(name: String, description: String, gen: &mut IdGen, now: i64) -> (c: BlogCategory)
        ensures
            exists|suffix: Seq<char>| c.id@ == gen_id_chars(old(gen).issued, suffix),
            is_generated_id(c.id@),
            c.name == name,
            c.description == description,
            c.created_at == now,
            final(gen).issued == if old(gen).issued < u64::MAX {
                (old(gen).issued + 1) as u64
            } else {
                u64::MAX
            },
    {
        BlogCategory { id: gen.fresh_id(), name, description, created_at: now }
    }
}

impl Entity for BlogCategory {
    open spec fn key(self) -> Seq<char> {
        self.id@
    }

    open spec fn stamp(self) -> i64 {
        self.created_at
    }

    fn key_ref(&self) -> (r: &String) {
        &self.id
    }

    fn created(&self) -> (r: i64) {
        self.created_at
    }

    fn copied(&self) -> (r: BlogCategory) {
        BlogCategory {
            id: self.id.clone(),
            name: self.name.clone(),
            description: self.description.clone(),
            created_at: self.created_at,
        }
    }
}

} // verus!
