//! The common interface of the four entity kinds.

use vstd::prelude::*;

verus! {

/// Every entity carries an immutable identifier that keys it in its
/// repository, and a creation timestamp that display listings order by.
pub trait Entity: Sized {
    /// The identifier, as the mathematical key of the entity.
    spec fn key(self) -> Seq<char>;

    /// The creation timestamp.
    spec fn stamp(self) -> i64;

    /// The identifier field.
    fn key_ref(&self) -> (r: &String)
        ensures
            r@ == self.key(),
    ;

    /// The creation timestamp field.
    fn created(&self) -> (r: i64)
        ensures
            r == self.stamp(),
    ;

    /// An equal copy of the entity.
    fn copied(&self) -> (r: Self)
        ensures
            r == *self,
    ;
}

} // verus!
