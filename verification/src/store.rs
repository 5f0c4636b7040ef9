//! The concurrent store.
//!
//! One repository per entity kind, each behind its own reader–writer lock:
//! many concurrent readers or one exclusive writer per repository, and
//! operations on different repositories never contend. There is no
//! cross-repository transaction — an operation that reads two repositories
//! takes each lock separately, so a concurrent deletion may leave a
//! momentarily dangling category reference; that is resolved by the
//! display-time fallback label, never treated as an error. Every lock
//! carries the repository's well-formedness as its invariant, so every
//! handler, on any thread, works on a well-formed repository. Callers
//! receive snapshot copies, never live aliases of the contents.

use crate::blog_category::BlogCategory;
use crate::category::Category;
use crate::clock::now_millis;
use crate::entity::Entity;
use crate::forms::CreateCategoryForm;
use crate::forms::CreatePostForm;
use crate::forms::CreateProductForm;
use crate::ids::gen_id_chars;
use crate::ids::is_generated_id;
use crate::ids::IdGen;
use crate::post::Post;
use crate::product::Product;
use crate::repo::distinct_keys;
use crate::repo::lemma_lookup_means_present;
use crate::repo::Repo;
use vstd::prelude::*;
use vstd::rwlock::RwLock;
use vstd::rwlock::RwLockPredicate;

verus! {

/// The invariant every repository lock protects: well-formedness of the
/// repository. It does not depend on the predicate value, so every handle
/// on such a lock knows it.
pub struct RepoLockInv {}

impl<E: Entity> RwLockPredicate<Repo<E>> for RepoLockInv {
    open spec fn inv(self, v: Repo<E>) -> bool {
        v.wf()
    }
}

/// The shared in-memory store: the only shared mutable state of the
/// system.
pub struct Store {
    products: RwLock<Repo<Product>, RepoLockInv>,
    categories: RwLock<Repo<Category>, RepoLockInv>,
    posts: RwLock<Repo<Post>, RepoLockInv>,
    blog_categories: RwLock<Repo<BlogCategory>, RepoLockInv>,
}

impl Store {
    /// A store with four empty repositories.
    pub fn new() -> Store {
        Store {
            products: RwLock::new(Repo::new(), Ghost(RepoLockInv {  })),
            categories: RwLock::new(Repo::new(), Ghost(RepoLockInv {  })),
            posts: RwLock::new(Repo::new(), Ghost(RepoLockInv {  })),
            blog_categories: RwLock::new(Repo::new(), Ghost(RepoLockInv {  })),
        }
    }

    /// Stores a product under its identifier; an existing entry with the
    /// same identifier is overwritten.
    pub fn insert_product(&self, p: Product) {
        let (mut repo, handle) = self.products.acquire_write();
        repo.insert(p);
        handle.release_write(repo);
    }

    /// Stores a category under its identifier.
    pub fn insert_category(&self, c: Category) {
        let (mut repo, handle) = self.categories.acquire_write();
        repo.insert(c);
        handle.release_write(repo);
    }

    /// Stores a post under its identifier.
    pub fn insert_post(&self, p: Post) {
        let (mut repo, handle) = self.posts.acquire_write();
        repo.insert(p);
        handle.release_write(repo);
    }

    /// Stores a blog category under its identifier.
    pub fn insert_blog_category(&self, c: BlogCategory) {
        let (mut repo, handle) = self.blog_categories.acquire_write();
        repo.insert(c);
        handle.release_write(repo);
    }

    /// A snapshot copy of the product with the identifier, if any; what
    /// comes back carries the identifier it was asked for.
    pub fn get_product(&self, id: &String) -> (r: Option<Product>)
        ensures
            r matches Some(p) ==> p.id@ == id@,
    {
        let handle = self.products.acquire_read();
        let r = handle.borrow().get(id);
        proof {
            lemma_lookup_means_present(handle.view()@, id@);
        }
        handle.release_read();
        r
    }

    /// A snapshot copy of the category with the identifier, if any; what
    /// comes back carries the identifier it was asked for.
    pub fn get_category(&self, id: &String) -> (r: Option<Category>)
        ensures
            r matches Some(c) ==> c.id@ == id@,
    {
        let handle = self.categories.acquire_read();
        let r = handle.borrow().get(id);
        proof {
            lemma_lookup_means_present(handle.view()@, id@);
        }
        handle.release_read();
        r
    }

    /// A snapshot copy of the post with the identifier, if any; what
    /// comes back carries the identifier it was asked for.
    pub fn get_post(&self, id: &String) -> (r: Option<Post>)
        ensures
            r matches Some(p) ==> p.id@ == id@,
    {
        let handle = self.posts.acquire_read();
        let r = handle.borrow().get(id);
        proof {
            lemma_lookup_means_present(handle.view()@, id@);
        }
        handle.release_read();
        r
    }

    /// A snapshot copy of the blog category with the identifier, if any;
    /// what comes back carries the identifier it was asked for.
    pub fn get_blog_category(&self, id: &String) -> (r: Option<BlogCategory>)
        ensures
            r matches Some(c) ==> c.id@ == id@,
    {
        let handle = self.blog_categories.acquire_read();
        let r = handle.borrow().get(id);
        proof {
            lemma_lookup_means_present(handle.view()@, id@);
        }
        handle.release_read();
        r
    }

    /// A snapshot of all products, unordered; their identifiers are
    /// pairwise distinct.
    pub fn list_products(&self) -> (r: Vec<Product>)
        ensures
            distinct_keys(r@),
    {
        let handle = self.products.acquire_read();
        let r = handle.borrow().list();
        handle.release_read();
        r
    }

    /// A snapshot of all categories, unordered; their identifiers are
    /// pairwise distinct.
    pub fn list_categories(&self) -> (r: Vec<Category>)
        ensures
            distinct_keys(r@),
    {
        let handle = self.categories.acquire_read();
        let r = handle.borrow().list();
        handle.release_read();
        r
    }

    /// A snapshot of all posts, unordered; their identifiers are pairwise
    /// distinct.
    pub fn list_posts(&self) -> (r: Vec<Post>)
        ensures
            distinct_keys(r@),
    {
        let handle = self.posts.acquire_read();
        let r = handle.borrow().list();
        handle.release_read();
        r
    }

    /// A snapshot of all blog categories, unordered; their identifiers are
    /// pairwise distinct.
    pub fn list_blog_categories(&self) -> (r: Vec<BlogCategory>)
        ensures
            distinct_keys(r@),
    {
        let handle = self.blog_categories.acquire_read();
        let r = handle.borrow().list();
        handle.release_read();
        r
    }

    /// The number of products, at the instant of the call.
    pub fn count_products(&self) -> usize {
        let handle = self.products.acquire_read();
        let r = handle.borrow().count();
        handle.release_read();
        r
    }

    /// The number of categories, at the instant of the call.
    pub fn count_categories(&self) -> usize {
        let handle = self.categories.acquire_read();
        let r = handle.borrow().count();
        handle.release_read();
        r
    }

    /// The number of posts, at the instant of the call.
    pub fn count_posts(&self) -> usize {
        let handle = self.posts.acquire_read();
        let r = handle.borrow().count();
        handle.release_read();
        r
    }

    /// The number of blog categories, at the instant of the call.
    pub fn count_blog_categories(&self) -> usize {
        let handle = self.blog_categories.acquire_read();
        let r = handle.borrow().count();
        handle.release_read();
        r
    }

    /// Deletes the product with the identifier; deleting an absent one is
    /// a no-op.
    pub fn delete_product(&self, id: &String) {
        let (mut repo, handle) = self.products.acquire_write();
        repo.remove(id);
        handle.release_write(repo);
    }

    /// Deletes the category with the identifier; dependent products keep
    /// their now dangling reference and are not touched.
    pub fn delete_category(&self, id: &String) {
        let (mut repo, handle) = self.categories.acquire_write();
        repo.remove(id);
        handle.release_write(repo);
    }

    /// Deletes the post with the identifier; deleting an absent one is a
    /// no-op.
    pub fn delete_post(&self, id: &String) {
        let (mut repo, handle) = self.posts.acquire_write();
        repo.remove(id);
        handle.release_write(repo);
    }

    /// Deletes the blog category with the identifier; dependent posts keep
    /// their now dangling reference and are not touched.
    pub fn delete_blog_category(&self, id: &String) {
        let (mut repo, handle) = self.blog_categories.acquire_write();
        repo.remove(id);
        handle.release_write(repo);
    }

    /// Soft update of a product's mutable fields; an absent identifier is
    /// silently ignored.
    pub fn update_product(
        &self,
        id: &String,
        name: String,
        description: String,
        price_cents: i64,
        stock: i32,
        now: i64,
    ) {
        let (mut repo, handle) = self.products.acquire_write();
        repo.update_product(id, name, description, price_cents, stock, now);
        handle.release_write(repo);
    }

    /// Soft update of a post's content fields; an absent identifier is
    /// silently ignored.
    pub fn update_post(&self, id: &String, title: String, content: String, excerpt: String, now: i64) {
        let (mut repo, handle) = self.posts.acquire_write();
        repo.update_post(id, title, content, excerpt, now);
        handle.release_write(repo);
    }

    /// Publishes or unpublishes the post with the identifier; an absent
    /// identifier is silently ignored.
    pub fn set_post_published(&self, id: &String, published: bool, now: i64) {
        let (mut repo, handle) = self.posts.acquire_write();
        repo.set_post_published(id, published, now);
        handle.release_write(repo);
    }

    /// Flips the published flag of the post with the identifier; an absent
    /// identifier is silently ignored.
    pub fn toggle_post(&self, id: &String, now: i64) {
        let (mut repo, handle) = self.posts.acquire_write();
        repo.toggle_post(id, now);
        handle.release_write(repo);
    }

    /// Creates a category from the decoded form, with a fresh identifier,
    /// and stores it; the returned copy is what was stored.
    pub fn create_category(&self, form: CreateCategoryForm, gen: &mut IdGen, now: i64) -> (c:
        Category)
        ensures
            exists|suffix: Seq<char>| c.id@ == gen_id_chars(old(gen).issued, suffix),
            is_generated_id(c.id@),
            c.name == form.name,
            c.description == form.description,
            c.created_at == now,
    {
        let c = Category::new(form.name, form.description, gen, now);
        let copy = c.copied();
        self.insert_category(c);
        copy
    }

    /// Creates a blog category from the decoded form — the same input
    /// shape as a product category — with a fresh identifier, and stores
    /// it; the returned copy is what was stored.
    pub fn create_blog_category(&self, form: CreateCategoryForm, gen: &mut IdGen, now: i64) -> (c:
        BlogCategory)
        ensures
            exists|suffix: Seq<char>| c.id@ == gen_id_chars(old(gen).issued, suffix),
            is_generated_id(c.id@),
            c.name == form.name,
            c.description == form.description,
            c.created_at == now,
    {
        let c = BlogCategory::new(form.name, form.description, gen, now);
        let copy = c.copied();
        self.insert_blog_category(c);
        copy
    }

    /// Creates a product from the decoded form, with a fresh identifier,
    /// and stores it; the returned copy is what was stored.
    pub fn create_product(&self, form: CreateProductForm, gen: &mut IdGen, now: i64) -> (p:
        Product)
        ensures
            exists|suffix: Seq<char>| p.id@ == gen_id_chars(old(gen).issued, suffix),
            is_generated_id(p.id@),
            p.name == form.name,
            p.description == form.description,
            p.price_cents == form.price_cents,
            p.category_id == form.category_id,
            p.image_url is None,
            p.stock == form.stock,
            p.created_at == now,
            p.updated_at == now,
    {
        let p = Product::new(
            form.name,
            form.description,
            form.price_cents,
            form.category_id,
            form.stock,
            gen,
            now,
        );
        let copy = p.copied();
        self.insert_product(p);
        copy
    }

    /// Creates a post — a draft — from the decoded form, with a fresh
    /// identifier, and stores it; the returned copy is what was stored.
    pub fn create_post(&self, form: CreatePostForm, gen: &mut IdGen, now: i64) -> (p: Post)
        ensures
            exists|suffix: Seq<char>| p.id@ == gen_id_chars(old(gen).issued, suffix),
            is_generated_id(p.id@),
            p.title == form.title,
            p.content == form.content,
            p.excerpt == form.excerpt,
            p.category_id == form.category_id,
            p.author == form.author,
            !p.published,
            p.created_at == now,
            p.updated_at == now,
    {
        let p = Post::new(
            form.title,
            form.content,
            form.excerpt,
            form.category_id,
            form.author,
            gen,
            now,
        );
        let copy = p.copied();
        self.insert_post(p);
        copy
    }

    /// Seeds the store with the sample fixture, stamped with the current
    /// time, and advances the generator by exactly the twelve identifiers
    /// issued.
    pub fn init_with_sample_data(&self, gen: &mut IdGen)
        ensures
            final(gen).issued == if old(gen).issued <= u64::MAX - 12 {
                (old(gen).issued + 12) as u64
            } else {
                u64::MAX
            },
    {
        let now = now_millis();
        let s = sample_fixture(gen, now);
        let mut i: usize = 0;
        while i < s.categories.len()
            invariant
                i <= s.categories@.len(),
            decreases s.categories@.len() - i,
        {
            self.insert_category(s.categories[i].copied());
            i = i + 1;
        }
        let mut i: usize = 0;
        while i < s.products.len()
            invariant
                i <= s.products@.len(),
            decreases s.products@.len() - i,
        {
            self.insert_product(s.products[i].copied());
            i = i + 1;
        }
        let mut i: usize = 0;
        while i < s.blog_categories.len()
            invariant
                i <= s.blog_categories@.len(),
            decreases s.blog_categories@.len() - i,
        {
            self.insert_blog_category(s.blog_categories[i].copied());
            i = i + 1;
        }
        let mut i: usize = 0;
        while i < s.posts.len()
            invariant
                i <= s.posts@.len(),
            decreases s.posts@.len() - i,
        {
            self.insert_post(s.posts[i].copied());
            i = i + 1;
        }
    }
}

/// One batch of demonstration data: everything `init_with_sample_data`
/// stores.
pub struct SampleData {
    pub categories: Vec<Category>,
    pub products: Vec<Product>,
    pub blog_categories: Vec<BlogCategory>,
    pub posts: Vec<Post>,
}

/// Builds the demonstration entities, stamped with `now`: three product
/// categories; four products, each in stock and referencing one of those
/// categories; two blog categories; and three posts, each published and
/// referencing one of the blog categories. Issues exactly twelve
/// identifiers.
pub fn sample_fixture(gen: &mut IdGen, now: i64) -> (s: SampleData)
    ensures
        s.categories@.len() == 3,
        s.products@.len() == 4,
        s.blog_categories@.len() == 2,
        s.posts@.len() == 3,
        forall|i: int|
            0 <= i < s.categories@.len() ==> (#[trigger] s.categories@[i]).created_at == now,
        forall|i: int|
            0 <= i < s.blog_categories@.len() ==> (#[trigger] s.blog_categories@[i]).created_at
                == now,
        forall|i: int|
            0 <= i < s.products@.len() ==> (#[trigger] s.products@[i]).stock > 0
                && s.products@[i].created_at == now && s.products@[i].updated_at == now,
        forall|i: int|
            0 <= i < s.products@.len() ==> exists|j: int|
                0 <= j < s.categories@.len() && (#[trigger] s.products@[i]).category_id@
                    == s.categories@[j].id@,
        forall|i: int|
            0 <= i < s.posts@.len() ==> (#[trigger] s.posts@[i]).published
                && s.posts@[i].created_at == now && s.posts@[i].updated_at == now,
        forall|i: int|
            0 <= i < s.posts@.len() ==> exists|j: int|
                0 <= j < s.blog_categories@.len() && (#[trigger] s.posts@[i]).category_id@
                    == s.blog_categories@[j].id@,
        final(gen).issued == if old(gen).issued <= u64::MAX - 12 {
            (old(gen).issued + 12) as u64
        } else {
            u64::MAX
        },
{
    let electronics = Category::new(
        String::from_str("Electronics"),
        String::from_str("Electronic devices and gadgets"),
        gen,
        now,
    );
    let clothing = Category::new(
        String::from_str("Clothing"),
        String::from_str("Fashion and apparel"),
        gen,
        now,
    );
    let books = Category::new(
        String::from_str("Books"),
        String::from_str("Books and educational materials"),
        gen,
        now,
    );

    let laptop = Product::new(
        String::from_str("Gaming Laptop"),
        String::from_str("High-performance laptop for gaming and professional work"),
        129999,
        electronics.id.clone(),
        15,
        gen,
        now,
    );
    let headphones = Product::new(
        String::from_str("Wireless Headphones"),
        String::from_str("Noise-canceling wireless headphones with premium sound quality"),
        24999,
        electronics.id.clone(),
        30,
        gen,
        now,
    );
    let tshirt = Product::new(
        String::from_str("Cotton T-Shirt"),
        String::from_str("Comfortable cotton t-shirt available in multiple colors"),
        2999,
        clothing.id.clone(),
        100,
        gen,
        now,
    );
    let rust_book = Product::new(
        String::from_str("Rust Programming Book"),
        String::from_str("Complete guide to Rust programming language"),
        4999,
        books.id.clone(),
        50,
        gen,
        now,
    );

    let tech = BlogCategory::new(
        String::from_str("Technology"),
        String::from_str("Tech news and tutorials"),
        gen,
        now,
    );
    let lifestyle = BlogCategory::new(
        String::from_str("Lifestyle"),
        String::from_str("Lifestyle tips and articles"),
        gen,
        now,
    );

    let mut post1 = Post::new(
        String::from_str("Getting Started with Rust"),
        String::from_str(
            "Rust is a systems programming language that runs blazingly fast, prevents segfaults, and guarantees thread safety. In this article, we'll explore the basics of Rust and why it's becoming increasingly popular among developers.",
        ),
        String::from_str("Learn the basics of Rust programming language"),
        tech.id.clone(),
        String::from_str("Admin"),
        gen,
        now,
    );
    post1.publish(now);

    let mut post2 = Post::new(
        String::from_str("Building Web Applications"),
        String::from_str(
            "Web development with Rust has become much easier with modern frameworks like Axum, Actix-web, and Rocket. This post covers the fundamentals of building web applications using Rust and demonstrates best practices.",
        ),
        String::from_str("How to build modern web apps with Rust"),
        tech.id.clone(),
        String::from_str("Admin"),
        gen,
        now,
    );
    post2.publish(now);

    let mut post3 = Post::new(
        String::from_str("Productivity Tips for Developers"),
        String::from_str(
            "As developers, we're always looking for ways to improve our productivity. Here are some proven strategies that can help you write better code faster and maintain a healthy work-life balance.",
        ),
        String::from_str("Improve your coding productivity"),
        lifestyle.id.clone(),
        String::from_str("Admin"),
        gen,
        now,
    );
    post3.publish(now);

    let mut categories: Vec<Category> = Vec::new();
    categories.push(electronics);
    categories.push(clothing);
    categories.push(books);
    let mut products: Vec<Product> = Vec::new();
    products.push(laptop);
    products.push(headphones);
    products.push(tshirt);
    products.push(rust_book);
    let mut blog_categories: Vec<BlogCategory> = Vec::new();
    blog_categories.push(tech);
    blog_categories.push(lifestyle);
    let mut posts: Vec<Post> = Vec::new();
    posts.push(post1);
    posts.push(post2);
    posts.push(post3);

    proof {
        assert(products@[0].category_id@ == categories@[0].id@);
        assert(products@[1].category_id@ == categories@[0].id@);
        assert(products@[2].category_id@ == categories@[1].id@);
        assert(products@[3].category_id@ == categories@[2].id@);
        assert(posts@[0].category_id@ == blog_categories@[0].id@);
        assert(posts@[1].category_id@ == blog_categories@[0].id@);
        assert(posts@[2].category_id@ == blog_categories@[1].id@);
    }
    SampleData { categories, products, blog_categories, posts }
}

impl Default for Store {
    /// A store with four empty repositories.
    fn default() -> Store {
        Store::new()
    }
}

} // verus!
