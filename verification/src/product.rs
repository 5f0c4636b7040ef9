//! Products of the shop.

use crate::entity::Entity;
use crate::ids::gen_id_chars;
use crate::ids::is_generated_id;
use crate::ids::IdGen;
use vstd::prelude::*;

verus! {

/// A product. The price is held in cents; the stock may be negative, in
/// which case the product merely counts as unavailable. The category
/// reference is advisory: it is never validated against the category
/// repository.
#[derive(Debug, Clone, PartialEq)]
pub struct Product {
    pub id: String,
    pub name: String,
    pub description: String,
    pub price_cents: i64,
    pub category_id: String,
    pub image_url: Option<String>,
    pub stock: i32,
    pub created_at: i64,
    pub updated_at: i64,
}

/// The value a product takes after an in-place update: the four mutable
/// fields replaced and the update time refreshed, everything else kept.
pub open spec fn product_updated(
    p: Product,
    name: String,
    description: String,
    price_cents: i64,
    stock: i32,
    now: i64,
) -> Product {
    Product { name, description, price_cents, stock, updated_at: now, ..p }
}

impl Product {
    /// A new product, with a fresh identifier from the generator, no image,
    /// and both timestamps set to `now`.
    pub fn new(
        name: String,
        description: String,
        price_cents: i64,
        category_id: String,
        stock: i32,
        gen: &mut IdGen,
        now: i64,
    ) -> (p: Product)
        ensures
            exists|suffix: Seq<char>| p.id@ == gen_id_chars(old(gen).issued, suffix),
            is_generated_id(p.id@),
            p.name == name,
            p.description == description,
            p.price_cents == price_cents,
            p.category_id == category_id,
            p.image_url is None,
            p.stock == stock,
            p.created_at == now,
            p.updated_at == now,
            final(gen).issued == if old(gen).issued < u64::MAX {
                (old(gen).issued + 1) as u64
            } else {
                u64::MAX
            },
    {
        Product {
            id: gen.fresh_id(),
            name,
            description,
            price_cents,
            category_id,
            image_url: None,
            stock,
            created_at: now,
            updated_at: now,
        }
    }

    /// Replaces the mutable fields in place and refreshes the update time.
    /// No validation of price or stock: negative or zero values are accepted
    /// and only affect availability.
    pub fn update(
        &mut self,
        name: String,
        description: String,
        price_cents: i64,
        stock: i32,
        now: i64,
    )
        ensures
            *final(self) == product_updated(*old(self), name, description, price_cents, stock, now),
    {
        self.name = name;
        self.description = description;
        self.price_cents = price_cents;
        self.stock = stock;
        self.updated_at = now;
    }

    /// A product is available exactly when its stock is positive.
    pub fn is_available(&self) -> (r: bool)
        ensures
            r == (self.stock > 0),
    {
        self.stock > 0
    }
}

impl Entity for Product {
    open spec fn key(self) -> Seq<char> {
        self.id@
    }

    open spec fn stamp(self) -> i64 {
        self.created_at
    }

    fn key_ref(&self) -> (r: &String) {
        &self.id
    }

    fn created(&self) -> (r: i64) {
        self.created_at
    }

    fn copied(&self) -> (r: Product) {
        Product {
            id: self.id.clone(),
            name: self.name.clone(),
            description: self.description.clone(),
            price_cents: self.price_cents,
            category_id: self.category_id.clone(),
            image_url: match &self.image_url {
                Some(u) => Some(u.clone()),
                None => None,
            },
            stock: self.stock,
            created_at: self.created_at,
            updated_at: self.updated_at,
        }
    }
}

} // verus!
