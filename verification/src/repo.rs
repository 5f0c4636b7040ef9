//! Keyed repositories.
//!
//! A repository holds all live instances of one entity kind, keyed by their
//! identifiers. Its mathematical model is the sequence of entities it holds,
//! with pairwise distinct keys; `lookup` reads that sequence as a map from
//! key to entity. Absent keys are never an error: getting one yields
//! nothing, deleting or updating one is a silent no-op.

use crate::entity::Entity;
use crate::post::post_updated;
use crate::post::post_with_published;
use crate::post::Post;
use crate::product::product_updated;
use crate::product::Product;
use vstd::prelude::*;

verus! {

/// First match of a key in a sequence of entities.
pub open spec fn lookup<E: Entity>(s: Seq<E>, id: Seq<char>) -> Option<E>
    decreases s.len(),
{
    if s.len() == 0 {
        None
    } else if s[0].key() == id {
        Some(s[0])
    } else {
        lookup(s.drop_first(), id)
    }
}

/// Whether some entity in the sequence has the key.
pub open spec fn has_key<E: Entity>(s: Seq<E>, id: Seq<char>) -> bool {
    exists|i: int| 0 <= i < s.len() && (#[trigger] s[i]).key() == id
}

/// The index of the entity with the key; meaningful under `distinct_keys`
/// when the key is present.
pub open spec fn key_index<E: Entity>(s: Seq<E>, id: Seq<char>) -> int {
    choose|i: int| 0 <= i < s.len() && (#[trigger] s[i]).key() == id
}

/// Pairwise distinct keys.
pub open spec fn distinct_keys<E: Entity>(s: Seq<E>) -> bool {
    forall|i: int, j: int|
        0 <= i < j < s.len() ==> (#[trigger] s[i]).key() != (#[trigger] s[j]).key()
}

/// The sequence after an insertion: last writer wins, so an entity carrying
/// an already present key replaces the old entry in place, and a new key
/// goes to the end.
pub open spec fn inserted<E: Entity>(s: Seq<E>, e: E) -> Seq<E> {
    if has_key(s, e.key()) {
        s.update(key_index(s, e.key()), e)
    } else {
        s.push(e)
    }
}

/// Keeping an entity on deletion of `id`: its key differs from `id`.
pub open spec fn key_differs<E: Entity>(id: Seq<char>) -> spec_fn(E) -> bool {
    |x: E| x.key() != id
}

/// The sequence after a deletion: every entity but the key's one, in order.
pub open spec fn removed<E: Entity>(s: Seq<E>, id: Seq<char>) -> Seq<E> {
    s.filter(key_differs(id))
}

/// Under distinct keys, the key of the entity at `i` is found exactly at
/// `i`.
pub proof fn lemma_key_index_at<E: Entity>(s: Seq<E>, i: int)
    requires
        distinct_keys(s),
        0 <= i < s.len(),
    ensures
        has_key(s, s[i].key()),
        key_index(s, s[i].key()) == i,
{
    assert(has_key(s, s[i].key()));
    let j = key_index(s, s[i].key());
    assert(0 <= j < s.len() && s[j].key() == s[i].key());
    if i < j {
        assert(s[i].key() != s[j].key());
    } else if j < i {
        assert(s[j].key() != s[i].key());
    }
}

/// A key that no entity has is not looked up.
pub proof fn lemma_lookup_absent<E: Entity>(s: Seq<E>, id: Seq<char>)
    requires
        !has_key(s, id),
    ensures
        lookup(s, id) is None,
    decreases s.len(),
{
    if s.len() > 0 {
        assert(s[0].key() != id);
        assert(!has_key(s.drop_first(), id)) by {
            if has_key(s.drop_first(), id) {
                let i = choose|i: int|
                    0 <= i < s.drop_first().len() && (#[trigger] s.drop_first()[i]).key() == id;
                assert(s[i + 1].key() == id);
            }
        }
        lemma_lookup_absent(s.drop_first(), id);
    }
}

/// Under distinct keys, looking up the key of the entity at `i` yields that
/// entity.
pub proof fn lemma_lookup_at<E: Entity>(s: Seq<E>, i: int)
    requires
        distinct_keys(s),
        0 <= i < s.len(),
    ensures
        lookup(s, s[i].key()) == Some(s[i]),
    decreases s.len(),
{
    if i == 0 {
        assert(lookup(s, s[0].key()) == Some(s[0]));
    } else {
        assert(s[0].key() != s[i].key());
        let t = s.drop_first();
        assert(distinct_keys(t)) by {
            assert(forall|p: int, q: int|
                0 <= p < q < t.len() ==> (#[trigger] t[p]).key() != (#[trigger] t[q]).key())
                by {
                assert(forall|p: int| 0 <= p < t.len() ==> #[trigger] t[p] == s[p + 1]);
            }
        }
        assert(t[i - 1] == s[i]);
        lemma_lookup_at(t, i - 1);
    }
}

/// The first match of a scan is the lookup result, also without distinct
/// keys.
pub proof fn lemma_lookup_first<E: Entity>(s: Seq<E>, i: int)
    requires
        0 <= i < s.len(),
        forall|k: int| 0 <= k < i ==> (#[trigger] s[k]).key() != s[i].key(),
    ensures
        lookup(s, s[i].key()) == Some(s[i]),
    decreases s.len(),
{
    if i > 0 {
        let t = s.drop_first();
        assert(forall|k: int| 0 <= k < t.len() ==> #[trigger] t[k] == s[k + 1]);
        lemma_lookup_first(t, i - 1);
    }
}

/// A successful lookup is exactly the presence of the key, and returns an
/// entity carrying it.
pub proof fn lemma_lookup_means_present<E: Entity>(s: Seq<E>, id: Seq<char>)
    ensures
        (lookup(s, id) is Some) == has_key(s, id),
        lookup(s, id) matches Some(e) ==> e.key() == id && s.contains(e),
    decreases s.len(),
{
    if s.len() > 0 {
        if s[0].key() == id {
            assert(has_key(s, id));
        } else {
            let t = s.drop_first();
            lemma_lookup_means_present(t, id);
            assert(forall|i: int| 0 <= i < t.len() ==> #[trigger] t[i] == s[i + 1]);
            if has_key(s, id) {
                let i = choose|i: int| 0 <= i < s.len() && (#[trigger] s[i]).key() == id;
                assert(i != 0);
                assert(t[i - 1].key() == id);
                assert(has_key(t, id));
            }
            assert(lookup(t, id) matches Some(e) ==> t.contains(e) && s.contains(e)) by {
                if lookup(t, id) is Some {
                    let e = lookup(t, id)->Some_0;
                    if t.contains(e) {
                        let i = choose|i: int| 0 <= i < t.len() && t[i] == e;
                        assert(s[i + 1] == e);
                    }
                }
            }
        }
    }
}

/// A sequence whose entities all satisfy a predicate is left whole by the
/// corresponding filter.
pub proof fn lemma_filter_of_all<E>(s: Seq<E>, p: spec_fn(E) -> bool)
    requires
        forall|i: int| 0 <= i < s.len() ==> p(#[trigger] s[i]),
    ensures
        s.filter(p) == s,
    decreases s.len(),
{
    reveal(Seq::filter);
    if s.len() > 0 {
        lemma_filter_of_all(s.drop_last(), p);
        assert(s.filter(p) =~= s);
    }
}

/// Under distinct keys, deleting a present key is exactly dropping its
/// entity at its index.
pub proof fn lemma_removed_is_remove_at<E: Entity>(s: Seq<E>, i: int)
    requires
        distinct_keys(s),
        0 <= i < s.len(),
    ensures
        removed(s, s[i].key()) == s.remove(i),
{
    broadcast use vstd::seq_lib::group_seq_lib_default;

    let id = s[i].key();
    let p = key_differs::<E>(id);
    let front = s.subrange(0, i);
    let middle = s.subrange(i, i + 1);
    let back = s.subrange(i + 1, s.len() as int);
    assert(s =~= front + middle + back);
    assert(front.filter(p) == front) by {
        assert(forall|k: int| 0 <= k < front.len() ==> p(#[trigger] front[k])) by {
            assert(forall|k: int| 0 <= k < front.len() ==> #[trigger] front[k] == s[k]);
        }
        lemma_filter_of_all(front, p);
    }
    assert(back.filter(p) == back) by {
        assert(forall|k: int| 0 <= k < back.len() ==> p(#[trigger] back[k])) by {
            assert(forall|k: int| 0 <= k < back.len() ==> #[trigger] back[k] == s[k + i + 1]);
        }
        lemma_filter_of_all(back, p);
    }
    assert(middle.filter(p) =~= Seq::<E>::empty()) by {
        reveal(Seq::filter);
        assert(middle.drop_last() =~= Seq::<E>::empty());
        assert(middle.last() == s[i]);
        assert(Seq::<E>::empty().filter(p) =~= Seq::<E>::empty());
    }
    assert((front + middle + back).filter(p) == front.filter(p) + middle.filter(p) + back.filter(
        p,
    ));
    assert(removed(s, id) =~= front + back);
    assert(s.remove(i) =~= front + back);
}

/// Round trip: after an insertion, looking up the inserted entity's key
/// yields exactly that entity, in all fields.
pub proof fn lemma_insert_then_lookup<E: Entity>(s: Seq<E>, e: E)
    requires
        distinct_keys(s),
    ensures
        lookup(inserted(s, e), e.key()) == Some(e),
        distinct_keys(inserted(s, e)),
{
    let t = inserted(s, e);
    if has_key(s, e.key()) {
        let i = key_index(s, e.key());
        assert(0 <= i < s.len() && s[i].key() == e.key());
        assert(distinct_keys(t)) by {
            assert(forall|k: int| 0 <= k < t.len() && k != i ==> #[trigger] t[k] == s[k]);
            assert(t[i] == e);
        }
        lemma_lookup_at(t, i);
        assert(t[i] == e);
    } else {
        assert(distinct_keys(t)) by {
            assert(forall|k: int| 0 <= k < s.len() ==> #[trigger] t[k] == s[k]);
            assert(t[s.len() as int] == e);
            assert(forall|k: int|
                0 <= k < s.len() ==> (#[trigger] t[k]).key() != e.key());
        }
        lemma_lookup_at(t, s.len() as int);
    }
}

/// Deleting is idempotent: a second deletion of the same key changes
/// nothing.
pub proof fn lemma_remove_idempotent<E: Entity>(s: Seq<E>, id: Seq<char>)
    ensures
        removed(removed(s, id), id) == removed(s, id),
{
    broadcast use vstd::seq_lib::group_filter_ensures;

    let p = key_differs::<E>(id);
    lemma_filter_of_all(s.filter(p), p);
}

/// Deleting an absent key is a no-op.
pub proof fn lemma_remove_absent<E: Entity>(s: Seq<E>, id: Seq<char>)
    requires
        !has_key(s, id),
    ensures
        removed(s, id) == s,
{
    let p = key_differs::<E>(id);
    assert(forall|i: int| 0 <= i < s.len() ==> p(#[trigger] s[i]));
    lemma_filter_of_all(s, p);
}

/// A repository of one entity kind. Its view is the sequence of entities it
/// holds; well-formedness is pairwise distinctness of their keys.
pub struct Repo<E> {
    items: Vec<E>,
}

impl<E: Entity> View for Repo<E> {
    type V = Seq<E>;

    closed spec fn view(&self) -> Seq<E> {
        self.items@
    }
}

impl<E: Entity> Repo<E> {
    /// Pairwise distinct keys: established at construction and preserved by
    /// every operation.
    pub open spec fn wf(&self) -> bool {
        distinct_keys(self@)
    }

    /// An empty repository.
    pub fn new() -> (r: Repo<E>)
        ensures
            r@ == Seq::<E>::empty(),
            r.wf(),
    {
        Repo { items: Vec::new() }
    }

    /// The number of entities currently held.
    pub fn count(&self) -> (r: usize)
        ensures
            r == self@.len(),
    {
        self.items.len()
    }

    /// The index of the key's entity, if present.
    pub fn find_index(&self, id: &String) -> (r: Option<usize>)
        ensures
            match r {
                Some(i) => i < self@.len() && self@[i as int].key() == id@,
                None => !has_key(self@, id@),
            },
    {
        let n = self.items.len();
        let mut i: usize = 0;
        while i < n
            invariant
                n == self@.len(),
                i <= n,
                forall|k: int| 0 <= k < i ==> (#[trigger] self@[k]).key() != id@,
            decreases n - i,
        {
            let e = &self.items[i];
            if *e.key_ref() == *id {
                return Some(i);
            }
            i = i + 1;
        }
        None
    }

    /// A copy of the key's entity, or nothing when the key is absent.
    pub fn get(&self, id: &String) -> (r: Option<E>)
        requires
            self.wf(),
        ensures
            r == lookup(self@, id@),
    {
        match self.find_index(id) {
            Some(i) => {
                proof {
                    lemma_lookup_at(self@, i as int);
                }
                Some(self.items[i].copied())
            },
            None => {
                proof {
                    lemma_lookup_absent(self@, id@);
                }
                None
            },
        }
    }

    /// A copy of the whole contents, in repository order.
    pub fn list(&self) -> (r: Vec<E>)
        ensures
            r@ == self@,
    {
        let n = self.items.len();
        let mut out: Vec<E> = Vec::new();
        let mut i: usize = 0;
        while i < n
            invariant
                n == self@.len(),
                i <= n,
                out@ =~= self@.subrange(0, i as int),
            decreases n - i,
        {
            out.push(self.items[i].copied());
            proof {
                assert(out@ =~= self@.subrange(0, i + 1));
            }
            i = i + 1;
        }
        proof {
            assert(self@.subrange(0, n as int) =~= self@);
        }
        out
    }

    /// Stores the entity under its own key. Last writer wins: an already
    /// present key has its entry overwritten; this is not expected to occur
    /// for generated identifiers, but it is not rejected either.
    pub fn insert(&mut self, e: E)
        requires
            old(self).wf(),
        ensures
            final(self).wf(),
            final(self)@ == inserted(old(self)@, e),
            lookup(final(self)@, e.key()) == Some(e),
    {
        let ghost s = self@;
        let i_opt = self.find_index(e.key_ref());
        match i_opt {
            Some(i) => {
                proof {
                    lemma_key_index_at(s, i as int);
                }
                self.items.remove(i);
                self.items.insert(i, e);
                proof {
                    assert(self@ =~= s.update(i as int, e));
                    lemma_insert_then_lookup(s, e);
                }
            },
            None => {
                self.items.push(e);
                proof {
                    lemma_insert_then_lookup(s, e);
                }
            },
        }
    }

    /// Deletes the key's entity if present; deleting an absent key is a
    /// no-op, not an error.
    pub fn remove(&mut self, id: &String)
        requires
            old(self).wf(),
        ensures
            final(self).wf(),
            final(self)@ == removed(old(self)@, id@),
            !has_key(final(self)@, id@),
    {
        let ghost s = self@;
        match self.find_index(id) {
            Some(i) => {
                self.items.remove(i);
                proof {
                    lemma_removed_is_remove_at(s, i as int);
                    assert(self@ == s.remove(i as int));
                    assert(final(self).wf()) by {
                        assert(forall|k: int|
                            0 <= k < i ==> #[trigger] self@[k] == s[k]);
                        assert(forall|k: int|
                            i <= k < self@.len() ==> #[trigger] self@[k] == s[k + 1]);
                    }
                    assert(!has_key(self@, id@)) by {
                        broadcast use vstd::seq_lib::group_filter_ensures;

                        if has_key(self@, id@) {
                            let k = choose|k: int|
                                0 <= k < self@.len() && (#[trigger] self@[k]).key() == id@;
                            assert(!(key_differs::<E>(id@)(self@[k])));
                        }
                    }
                }
            },
            None => {
                proof {
                    lemma_remove_absent(s, id@);
                }
            },
        }
    }

    /// Replaces the entity at `i` by one carrying the same key.
    fn replace_at(&mut self, i: usize, e: E)
        requires
            old(self).wf(),
            i < old(self)@.len(),
            e.key() == old(self)@[i as int].key(),
        ensures
            final(self).wf(),
            final(self)@ == old(self)@.update(i as int, e),
    {
        let ghost s = self@;
        self.items.remove(i);
        self.items.insert(i, e);
        proof {
            assert(self@ =~= s.update(i as int, e));
            assert(final(self).wf()) by {
                assert(forall|k: int| 0 <= k < s.len() && k != i ==> #[trigger] self@[k] == s[k]);
            }
        }
    }
}

impl Repo<Product> {
    /// Soft update: if the key is present, replaces the product's mutable
    /// fields in place and refreshes its update time; an absent key is a
    /// silent no-op.
    pub fn update_product(
        &mut self,
        id: &String,
        name: String,
        description: String,
        price_cents: i64,
        stock: i32,
        now: i64,
    )
        requires
            old(self).wf(),
        ensures
            final(self).wf(),
            has_key(old(self)@, id@) ==> final(self)@ == old(self)@.update(
                key_index(old(self)@, id@),
                product_updated(
                    old(self)@[key_index(old(self)@, id@)],
                    name,
                    description,
                    price_cents,
                    stock,
                    now,
                ),
            ),
            !has_key(old(self)@, id@) ==> final(self)@ == old(self)@,
    {
        let ghost s = self@;
        match self.find_index(id) {
            Some(i) => {
                proof {
                    lemma_key_index_at(s, i as int);
                }
                let mut p = self.items[i].copied();
                p.update(name, description, price_cents, stock, now);
                self.replace_at(i, p);
            },
            None => {},
        }
    }
}

impl Repo<Post> {
    /// Soft update: if the key is present, replaces the post's content
    /// fields in place and refreshes its update time; an absent key is a
    /// silent no-op. The published flag is not touched.
    pub fn update_post(
        &mut self,
        id: &String,
        title: String,
        content: String,
        excerpt: String,
        now: i64,
    )
        requires
            old(self).wf(),
        ensures
            final(self).wf(),
            has_key(old(self)@, id@) ==> final(self)@ == old(self)@.update(
                key_index(old(self)@, id@),
                post_updated(old(self)@[key_index(old(self)@, id@)], title, content, excerpt, now),
            ),
            !has_key(old(self)@, id@) ==> final(self)@ == old(self)@,
    {
        let ghost s = self@;
        match self.find_index(id) {
            Some(i) => {
                proof {
                    lemma_key_index_at(s, i as int);
                }
                let mut p = self.items[i].copied();
                p.update(title, content, excerpt, now);
                self.replace_at(i, p);
            },
            None => {},
        }
    }

    /// Soft publish or unpublish: if the key is present, sets the post's
    /// published flag and refreshes its update time — also when the flag
    /// does not change; an absent key is a silent no-op.
    pub fn set_post_published(&mut self, id: &String, published: bool, now: i64)
        requires
            old(self).wf(),
        ensures
            final(self).wf(),
            has_key(old(self)@, id@) ==> final(self)@ == old(self)@.update(
                key_index(old(self)@, id@),
                post_with_published(old(self)@[key_index(old(self)@, id@)], published, now),
            ),
            !has_key(old(self)@, id@) ==> final(self)@ == old(self)@,
    {
        let ghost s = self@;
        match self.find_index(id) {
            Some(i) => {
                proof {
                    lemma_key_index_at(s, i as int);
                }
                let mut p = self.items[i].copied();
                if published {
                    p.publish(now);
                } else {
                    p.unpublish(now);
                }
                self.replace_at(i, p);
            },
            None => {},
        }
    }

    /// Flips the post's published flag: a draft is published, a published
    /// post withdrawn; an absent key is a silent no-op.
    pub fn toggle_post(&mut self, id: &String, now: i64)
        requires
            old(self).wf(),
        ensures
            final(self).wf(),
            has_key(old(self)@, id@) ==> final(self)@ == old(self)@.update(
                key_index(old(self)@, id@),
                post_with_published(
                    old(self)@[key_index(old(self)@, id@)],
                    !old(self)@[key_index(old(self)@, id@)].published,
                    now,
                ),
            ),
            !has_key(old(self)@, id@) ==> final(self)@ == old(self)@,
    {
        let ghost s = self@;
        match self.find_index(id) {
            Some(i) => {
                proof {
                    lemma_key_index_at(s, i as int);
                }
                let mut p = self.items[i].copied();
                if p.published {
                    p.unpublish(now);
                } else {
                    p.publish(now);
                }
                self.replace_at(i, p);
            },
            None => {},
        }
    }
}

} // verus!
