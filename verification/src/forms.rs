//! Plain input values for the creating operations, exactly what the
//! request handlers decode out of submitted forms before calling the
//! store. Decoding failures are rejected before these are built: the store
//! never sees a partially constructed input.

use vstd::prelude::*;

verus! {

/// Input for creating a product category — and for creating a blog
/// category, which takes the same two fields.
#[derive(Debug, Clone)]
pub struct CreateCategoryForm {
    pub name: String,
    pub description: String,
}

/// Input for creating a product. The price arrives in cents.
#[derive(Debug, Clone)]
pub struct CreateProductForm {
    pub name: String,
    pub description: String,
    pub price_cents: i64,
    pub category_id: String,
    pub stock: i32,
}

/// Input for creating a post.
#[derive(Debug, Clone)]
pub struct CreatePostForm {
    pub title: String,
    pub content: String,
    pub excerpt: String,
    pub category_id: String,
    pub author: String,
}

} // verus!
