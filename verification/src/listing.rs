//! Display listings.
//!
//! Repositories hand out their contents unordered; display listings apply a
//! deterministic ordering — newest first, stable for equal creation times —
//! and the public pages additionally filter: the shop shows available
//! products only, the blog published posts only. A category reference that
//! does not resolve is rendered with a fixed fallback label, never an error.

use crate::blog_category::BlogCategory;
use crate::category::Category;
use crate::entity::Entity;
use crate::post::Post;
use crate::product::Product;
use crate::repo::lemma_lookup_absent;
use crate::repo::lemma_lookup_first;
use crate::repo::lookup;
use vstd::prelude::*;
use vstd::seq_lib::lemma_multiset_commutative;

verus! {

/// Where an entity goes in a listing prefix: after every entity created no
/// earlier than itself, which puts later creations first and makes the
/// ordering stable.
pub open spec fn insert_newest<E: Entity>(s: Seq<E>, e: E) -> Seq<E>
    decreases s.len(),
{
    if s.len() == 0 {
        seq![e]
    } else if s[0].stamp() >= e.stamp() {
        seq![s[0]] + insert_newest(s.drop_first(), e)
    } else {
        seq![e] + s
    }
}

/// The display order of a listing: newest first, stable for equal creation
/// times.
pub open spec fn sort_newest<E: Entity>(s: Seq<E>) -> Seq<E>
    decreases s.len(),
{
    if s.len() == 0 {
        Seq::empty()
    } else {
        insert_newest(sort_newest(s.drop_last()), s.last())
    }
}

/// Non-increasing creation times.
pub open spec fn newest_first<E: Entity>(s: Seq<E>) -> bool {
    forall|i: int, j: int|
        0 <= i < j < s.len() ==> (#[trigger] s[i]).stamp() >= (#[trigger] s[j]).stamp()
}

/// Keeping a product for the public shop: positive stock.
pub open spec fn product_available() -> spec_fn(Product) -> bool {
    |p: Product| p.stock > 0
}

/// Keeping a post for the public blog: the published flag set.
pub open spec fn post_published() -> spec_fn(Post) -> bool {
    |p: Post| p.published
}

/// Inserting into a listing adds exactly the inserted entity.
pub proof fn lemma_insert_newest_multiset<E: Entity>(s: Seq<E>, e: E)
    ensures
        insert_newest(s, e).to_multiset() == s.to_multiset().insert(e),
    decreases s.len(),
{
    broadcast use vstd::seq_lib::group_to_multiset_ensures;
    broadcast use vstd::multiset::group_multiset_axioms;

    if s.len() == 0 {
        assert(seq![e] =~= Seq::<E>::empty().push(e));
        assert(s =~= Seq::<E>::empty());
        assert(insert_newest(s, e).to_multiset() =~= s.to_multiset().insert(e));
    } else if s[0].stamp() >= e.stamp() {
        let t = s.drop_first();
        lemma_insert_newest_multiset(t, e);
        lemma_multiset_commutative(seq![s[0]], insert_newest(t, e));
        lemma_multiset_commutative(seq![s[0]], t);
        assert(s =~= seq![s[0]] + t);
        assert(insert_newest(s, e).to_multiset() =~= s.to_multiset().insert(e));
    } else {
        lemma_multiset_commutative(seq![e], s);
        assert(seq![e] =~= Seq::<E>::empty().push(e));
        assert(insert_newest(s, e).to_multiset() =~= s.to_multiset().insert(e));
    }
}

/// A listing holds exactly the entities it was built from: sorting neither
/// loses, duplicates nor invents an entry.
pub proof fn lemma_sort_newest_permutes<E: Entity>(s: Seq<E>)
    ensures
        sort_newest(s).to_multiset() == s.to_multiset(),
        forall|x: E| sort_newest(s).contains(x) <==> s.contains(x),
    decreases s.len(),
{
    broadcast use vstd::seq_lib::group_to_multiset_ensures;
    broadcast use vstd::multiset::group_multiset_axioms;

    if s.len() == 0 {
    } else {
        let t = s.drop_last();
        lemma_sort_newest_permutes(t);
        lemma_insert_newest_multiset(sort_newest(t), s.last());
        assert(s =~= t.push(s.last()));
        assert(sort_newest(s).to_multiset() =~= s.to_multiset());
    }
    assert forall|x: E| sort_newest(s).contains(x) <==> s.contains(x) by {
        assert(sort_newest(s).contains(x) <==> sort_newest(s).to_multiset().count(x) > 0);
        assert(s.contains(x) <==> s.to_multiset().count(x) > 0);
    }
}

/// Inserting into an ordered listing keeps it ordered.
pub proof fn lemma_insert_newest_ordered<E: Entity>(s: Seq<E>, e: E)
    requires
        newest_first(s),
    ensures
        newest_first(insert_newest(s, e)),
    decreases s.len(),
{
    broadcast use vstd::seq_lib::group_to_multiset_ensures;
    broadcast use vstd::multiset::group_multiset_axioms;

    let r = insert_newest(s, e);
    if s.len() == 0 {
    } else if s[0].stamp() >= e.stamp() {
        let t = s.drop_first();
        assert(forall|k: int| 0 <= k < t.len() ==> #[trigger] t[k] == s[k + 1]);
        lemma_insert_newest_ordered(t, e);
        let u = insert_newest(t, e);
        lemma_insert_newest_multiset(t, e);
        assert forall|k: int| 0 <= k < u.len() implies s[0].stamp() >= (#[trigger] u[k]).stamp() by {
            let x = u[k];
            assert(u.contains(x));
            assert(u.to_multiset().count(x) > 0);
            assert(u.to_multiset() == t.to_multiset().insert(e));
            if x != e {
                assert(t.to_multiset().insert(e).count(x) == t.to_multiset().count(x));
                assert(t.contains(x));
                let m = choose|m: int| 0 <= m < t.len() && t[m] == x;
                assert(s[m + 1] == x);
                assert(s[0].stamp() >= s[m + 1].stamp());
            }
        }
        assert(r == seq![s[0]] + u);
        assert(forall|k: int| 0 <= k < u.len() ==> r[k + 1] == #[trigger] u[k]);
        assert(newest_first(r));
    } else {
        assert(r == seq![e] + s);
        assert(forall|k: int| 0 <= k < s.len() ==> r[k + 1] == #[trigger] s[k]);
        assert(forall|k: int| 0 <= k < s.len() ==> e.stamp() > (#[trigger] s[k]).stamp()) by {
            assert(forall|k: int| 1 <= k < s.len() ==> s[0].stamp() >= (#[trigger] s[k]).stamp());
        }
        assert(newest_first(r));
    }
}

/// A listing is ordered newest first.
pub proof fn lemma_sort_newest_ordered<E: Entity>(s: Seq<E>)
    ensures
        newest_first(sort_newest(s)),
    decreases s.len(),
{
    if s.len() > 0 {
        lemma_sort_newest_ordered(s.drop_last());
        lemma_insert_newest_ordered(sort_newest(s.drop_last()), s.last());
    }
}

/// The first index whose entity was created strictly earlier than `e`, or
/// the length when there is none.
fn insertion_point<E: Entity>(out: &Vec<E>, e: &E) -> (j: usize)
    ensures
        j <= out@.len(),
        forall|k: int| 0 <= k < j ==> (#[trigger] out@[k]).stamp() >= e.stamp(),
        j < out@.len() ==> out@[j as int].stamp() < e.stamp(),
{
    let n = out.len();
    let mut j: usize = 0;
    while j < n
        invariant
            n == out@.len(),
            j <= n,
            forall|k: int| 0 <= k < j ==> (#[trigger] out@[k]).stamp() >= e.stamp(),
        decreases n - j,
    {
        if out[j].created() < e.created() {
            return j;
        }
        j = j + 1;
    }
    j
}

/// Inserting at the first index created strictly earlier is exactly the
/// listing insertion.
proof fn lemma_insert_newest_at<E: Entity>(s: Seq<E>, e: E, j: int)
    requires
        0 <= j <= s.len(),
        forall|k: int| 0 <= k < j ==> (#[trigger] s[k]).stamp() >= e.stamp(),
        j < s.len() ==> s[j].stamp() < e.stamp(),
    ensures
        insert_newest(s, e) == s.insert(j, e),
    decreases s.len(),
{
    if s.len() == 0 {
        assert(insert_newest(s, e) =~= s.insert(0, e));
    } else if j == 0 {
        assert(s[0].stamp() < e.stamp());
        assert(seq![e] + s =~= s.insert(0, e));
    } else {
        assert(s[0].stamp() >= e.stamp());
        let t = s.drop_first();
        assert(forall|k: int| 0 <= k < t.len() ==> #[trigger] t[k] == s[k + 1]);
        lemma_insert_newest_at(t, e, j - 1);
        assert(seq![s[0]] + t.insert(j - 1, e) =~= s.insert(j, e));
    }
}

/// A copy of the entities ordered for display, newest first.
pub fn sorted_newest<E: Entity>(v: &Vec<E>) -> (r: Vec<E>)
    ensures
        r@ == sort_newest(v@),
{
    let n = v.len();
    let mut out: Vec<E> = Vec::new();
    let mut i: usize = 0;
    while i < n
        invariant
            n == v@.len(),
            i <= n,
            out@ == sort_newest(v@.subrange(0, i as int)),
        decreases n - i,
    {
        let e = v[i].copied();
        let j = insertion_point(&out, &e);
        proof {
            lemma_insert_newest_at(out@, e, j as int);
            assert(v@.subrange(0, i + 1).drop_last() =~= v@.subrange(0, i as int));
            assert(v@.subrange(0, i + 1).last() == v@[i as int]);
        }
        out.insert(j, e);
        i = i + 1;
    }
    proof {
        assert(v@.subrange(0, n as int) =~= v@);
    }
    out
}

/// The products fit for the public shop: exactly those with positive
/// stock, in their incoming order.
pub fn available_products(v: &Vec<Product>) -> (r: Vec<Product>)
    ensures
        r@ == v@.filter(product_available()),
{
    let n = v.len();
    let mut out: Vec<Product> = Vec::new();
    let mut i: usize = 0;
    proof {
        reveal(Seq::filter);
        assert(v@.subrange(0, 0).filter(product_available()) =~= Seq::<Product>::empty());
    }
    while i < n
        invariant
            n == v@.len(),
            i <= n,
            out@ == v@.subrange(0, i as int).filter(product_available()),
        decreases n - i,
    {
        let e = &v[i];
        proof {
            reveal(Seq::filter);
            assert(v@.subrange(0, i + 1).drop_last() =~= v@.subrange(0, i as int));
            assert(v@.subrange(0, i + 1).last() == v@[i as int]);
        }
        if e.is_available() {
            out.push(e.copied());
        }
        i = i + 1;
    }
    proof {
        assert(v@.subrange(0, n as int) =~= v@);
    }
    out
}

/// The posts fit for the public blog: exactly the published ones, in their
/// incoming order.
pub fn published_posts(v: &Vec<Post>) -> (r: Vec<Post>)
    ensures
        r@ == v@.filter(post_published()),
{
    let n = v.len();
    let mut out: Vec<Post> = Vec::new();
    let mut i: usize = 0;
    proof {
        reveal(Seq::filter);
        assert(v@.subrange(0, 0).filter(post_published()) =~= Seq::<Post>::empty());
    }
    while i < n
        invariant
            n == v@.len(),
            i <= n,
            out@ == v@.subrange(0, i as int).filter(post_published()),
        decreases n - i,
    {
        let e = &v[i];
        proof {
            reveal(Seq::filter);
            assert(v@.subrange(0, i + 1).drop_last() =~= v@.subrange(0, i as int));
            assert(v@.subrange(0, i + 1).last() == v@[i as int]);
        }
        if e.published {
            out.push(e.copied());
        }
        i = i + 1;
    }
    proof {
        assert(v@.subrange(0, n as int) =~= v@);
    }
    out
}

/// The public shop listing: the available products, newest first.
pub fn shop_listing(v: &Vec<Product>) -> (r: Vec<Product>)
    ensures
        r@ == sort_newest(v@.filter(product_available())),
{
    let kept = available_products(v);
    sorted_newest(&kept)
}

/// The public blog listing: the published posts, newest first.
pub fn blog_listing(v: &Vec<Post>) -> (r: Vec<Post>)
    ensures
        r@ == sort_newest(v@.filter(post_published())),
{
    let kept = published_posts(v);
    sorted_newest(&kept)
}

/// A product of the snapshot appears in the shop listing exactly when it
/// is available, that is, when its stock is positive.
pub proof fn lemma_shop_listing_membership(v: Seq<Product>, p: Product)
    requires
        v.contains(p),
    ensures
        sort_newest(v.filter(product_available())).contains(p) <==> p.stock > 0,
{
    broadcast use vstd::seq_lib::group_filter_ensures;

    let kept = v.filter(product_available());
    lemma_sort_newest_permutes(kept);
    if p.stock > 0 {
        let i = choose|i: int| 0 <= i < v.len() && v[i] == p;
        v.lemma_filter_contains(product_available(), i);
    } else {
        if kept.contains(p) {
            let i = choose|i: int| 0 <= i < kept.len() && kept[i] == p;
            assert(product_available()(kept[i]));
        }
    }
}

/// A post of the snapshot appears in the blog listing exactly when it is
/// published.
pub proof fn lemma_blog_listing_membership(v: Seq<Post>, p: Post)
    requires
        v.contains(p),
    ensures
        sort_newest(v.filter(post_published())).contains(p) <==> p.published,
{
    broadcast use vstd::seq_lib::group_filter_ensures;

    let kept = v.filter(post_published());
    lemma_sort_newest_permutes(kept);
    if p.published {
        let i = choose|i: int| 0 <= i < v.len() && v[i] == p;
        v.lemma_filter_contains(post_published(), i);
    } else {
        if kept.contains(p) {
            let i = choose|i: int| 0 <= i < kept.len() && kept[i] == p;
            assert(post_published()(kept[i]));
        }
    }
}

/// A product without positive stock never appears in the shop listing,
/// whatever else is listed.
pub proof fn lemma_unavailable_product_excluded(v: Seq<Product>, p: Product)
    requires
        p.stock <= 0,
    ensures
        !sort_newest(v.filter(product_available())).contains(p),
{
    broadcast use vstd::seq_lib::group_filter_ensures;

    let kept = v.filter(product_available());
    lemma_sort_newest_permutes(kept);
    if kept.contains(p) {
        let i = choose|i: int| 0 <= i < kept.len() && kept[i] == p;
        assert(product_available()(kept[i]));
    }
}

/// The name of the product category an identifier resolves to, or nothing
/// when the reference dangles.
pub fn category_name(cats: &Vec<Category>, id: &String) -> (r: Option<String>)
    ensures
        match lookup(cats@, id@) {
            Some(c) => r == Some(c.name),
            None => r is None,
        },
{
    let n = cats.len();
    let mut i: usize = 0;
    while i < n
        invariant
            n == cats@.len(),
            i <= n,
            forall|k: int| 0 <= k < i ==> (#[trigger] cats@[k]).key() != id@,
        decreases n - i,
    {
        let c = &cats[i];
        if *c.key_ref() == *id {
            proof {
                lemma_lookup_first(cats@, i as int);
            }
            return Some(c.name.clone());
        }
        i = i + 1;
    }
    proof {
        lemma_lookup_absent(cats@, id@);
    }
    None
}

/// The name of the blog category an identifier resolves to, or nothing
/// when the reference dangles.
pub fn blog_category_name(cats: &Vec<BlogCategory>, id: &String) -> (r: Option<String>)
    ensures
        match lookup(cats@, id@) {
            Some(c) => r == Some(c.name),
            None => r is None,
        },
{
    let n = cats.len();
    let mut i: usize = 0;
    while i < n
        invariant
            n == cats@.len(),
            i <= n,
            forall|k: int| 0 <= k < i ==> (#[trigger] cats@[k]).key() != id@,
        decreases n - i,
    {
        let c = &cats[i];
        if *c.key_ref() == *id {
            proof {
                lemma_lookup_first(cats@, i as int);
            }
            return Some(c.name.clone());
        }
        i = i + 1;
    }
    proof {
        lemma_lookup_absent(cats@, id@);
    }
    None
}

/// The category label on public shop pages: the category's name, or this
/// literal fallback when the reference dangles.
pub fn shop_category_label(cats: &Vec<Category>, id: &String) -> (r: String)
    ensures
        match lookup(cats@, id@) {
            Some(c) => r == c.name,
            None => r@ == "Uncategorized"@,
        },
{
    match category_name(cats, id) {
        Some(name) => name,
        None => String::from_str("Uncategorized"),
    }
}

/// The category label on the admin product pages: the category's name, or
/// this literal fallback when the reference dangles.
pub fn admin_category_label(cats: &Vec<Category>, id: &String) -> (r: String)
    ensures
        match lookup(cats@, id@) {
            Some(c) => r == c.name,
            None => r@ == "Unknown"@,
        },
{
    match category_name(cats, id) {
        Some(name) => name,
        None => String::from_str("Unknown"),
    }
}

/// The category label on public blog pages: the blog category's name, or
/// this literal fallback when the reference dangles.
pub fn blog_category_label(cats: &Vec<BlogCategory>, id: &String) -> (r: String)
    ensures
        match lookup(cats@, id@) {
            Some(c) => r == c.name,
            None => r@ == "Uncategorized"@,
        },
{
    match blog_category_name(cats, id) {
        Some(name) => name,
        None => String::from_str("Uncategorized"),
    }
}

/// The category label on the admin post pages: the blog category's name,
/// or this literal fallback when the reference dangles.
pub fn admin_blog_category_label(cats: &Vec<BlogCategory>, id: &String) -> (r: String)
    ensures
        match lookup(cats@, id@) {
            Some(c) => r == c.name,
            None => r@ == "Unknown"@,
        },
{
    match blog_category_name(cats, id) {
        Some(name) => name,
        None => String::from_str("Unknown"),
    }
}

/// The public single-post view: the post when it exists and is published;
/// an unpublished or missing post yields nothing, exactly as a missing one
/// does.
pub fn visible_post(posts: &Vec<Post>, id: &String) -> (r: Option<Post>)
    ensures
        match lookup(posts@, id@) {
            Some(p) => r == if p.published {
                Some(p)
            } else {
                None::<Post>
            },
            None => r is None,
        },
{
    let n = posts.len();
    let mut i: usize = 0;
    while i < n
        invariant
            n == posts@.len(),
            i <= n,
            forall|k: int| 0 <= k < i ==> (#[trigger] posts@[k]).key() != id@,
        decreases n - i,
    {
        let p = &posts[i];
        if *p.key_ref() == *id {
            proof {
                lemma_lookup_first(posts@, i as int);
            }
            if p.published {
                return Some(p.copied());
            } else {
                return None;
            }
        }
        i = i + 1;
    }
    proof {
        lemma_lookup_absent(posts@, id@);
    }
    None
}

/// An unpublished post never appears in the blog listing, whatever else is
/// listed.
pub proof fn lemma_unpublished_post_excluded(v: Seq<Post>, p: Post)
    requires
        !p.published,
    ensures
        !sort_newest(v.filter(post_published())).contains(p),
{
    broadcast use vstd::seq_lib::group_filter_ensures;

    let kept = v.filter(post_published());
    lemma_sort_newest_permutes(kept);
    if kept.contains(p) {
        let i = choose|i: int| 0 <= i < kept.len() && kept[i] == p;
        assert(post_published()(kept[i]));
    }
}

} // verus!
