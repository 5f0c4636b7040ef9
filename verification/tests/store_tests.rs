use mystore_cms::forms::CreateCategoryForm;
use mystore_cms::forms::CreatePostForm;
use mystore_cms::forms::CreateProductForm;
use mystore_cms::ids::IdGen;
use mystore_cms::listing::blog_listing;
use mystore_cms::listing::shop_category_label;
use mystore_cms::listing::shop_listing;
use mystore_cms::listing::blog_category_label;
use mystore_cms::product::Product;
use mystore_cms::store::sample_fixture;
use mystore_cms::store::Store;

fn category_form(name: &str) -> CreateCategoryForm {
    CreateCategoryForm { name: name.to_string(), description: "desc".to_string() }
}

fn product_form(name: &str, price_cents: i64, category_id: &str, stock: i32) -> CreateProductForm {
    CreateProductForm {
        name: name.to_string(),
        description: "desc".to_string(),
        price_cents,
        category_id: category_id.to_string(),
        stock,
    }
}

fn post_form(title: &str, category_id: &str) -> CreatePostForm {
    CreatePostForm {
        title: title.to_string(),
        content: "content".to_string(),
        excerpt: "excerpt".to_string(),
        category_id: category_id.to_string(),
        author: "Admin".to_string(),
    }
}

#[test]
fn new_store_is_empty() {
    let store = Store::new();
    assert_eq!(store.count_products(), 0);
    assert_eq!(store.count_categories(), 0);
    assert_eq!(store.count_posts(), 0);
    assert_eq!(store.count_blog_categories(), 0);
}

#[test]
fn insert_then_get_round_trips_all_fields() {
    let store = Store::new();
    let mut gen = IdGen::new();
    let created = store.create_product(product_form("Novel", 999, "cat-1", 3), &mut gen, 42);
    let fetched = store.get_product(&created.id).expect("inserted product is found");
    assert_eq!(fetched, created);
    assert_eq!(store.get_product(&"missing".to_string()), None);
}

#[test]
fn insert_overwrites_same_identifier() {
    let store = Store::new();
    let mut gen = IdGen::new();
    let first = store.create_product(product_form("Novel", 999, "cat-1", 3), &mut gen, 42);
    let mut second = first.clone();
    second.name = "Novel, second edition".to_string();
    store.insert_product(second.clone());
    assert_eq!(store.count_products(), 1);
    let fetched = store.get_product(&first.id).expect("product is still there");
    assert_eq!(fetched, second);
}

#[test]
fn delete_is_idempotent() {
    let store = Store::new();
    let mut gen = IdGen::new();
    let keeper = store.create_product(product_form("Keeper", 100, "cat-1", 1), &mut gen, 1);
    let doomed = store.create_product(product_form("Doomed", 100, "cat-1", 1), &mut gen, 2);
    store.delete_product(&doomed.id);
    assert_eq!(store.count_products(), 1);
    assert!(store.get_product(&doomed.id).is_none());
    // A second deletion is a no-op, not an error.
    store.delete_product(&doomed.id);
    assert_eq!(store.count_products(), 1);
    assert!(store.get_product(&doomed.id).is_none());
    assert!(store.get_product(&keeper.id).is_some());
}

#[test]
fn update_on_missing_is_a_no_op() {
    let store = Store::new();
    let mut gen = IdGen::new();
    let p = store.create_product(product_form("Novel", 999, "cat-1", 3), &mut gen, 42);
    store.update_product(
        &"nonexistent-id".to_string(),
        "Changed".to_string(),
        "Changed".to_string(),
        1,
        1,
        50,
    );
    assert_eq!(store.count_products(), 1);
    let fetched = store.get_product(&p.id).expect("product is untouched");
    assert_eq!(fetched, p);
}

#[test]
fn update_replaces_fields_in_place() {
    let store = Store::new();
    let mut gen = IdGen::new();
    let p = store.create_product(product_form("Novel", 999, "cat-1", 3), &mut gen, 42);
    store.update_product(
        &p.id,
        "Novella".to_string(),
        "Shorter".to_string(),
        499,
        9,
        55,
    );
    let fetched = store.get_product(&p.id).expect("product is found");
    assert_eq!(fetched.name, "Novella");
    assert_eq!(fetched.description, "Shorter");
    assert_eq!(fetched.price_cents, 499);
    assert_eq!(fetched.stock, 9);
    assert_eq!(fetched.created_at, 42);
    assert_eq!(fetched.updated_at, 55);
}

#[test]
fn toggle_post_flips_published() {
    let store = Store::new();
    let mut gen = IdGen::new();
    let p = store.create_post(post_form("Title", "cat-1"), &mut gen, 10);
    assert!(!p.published);
    store.toggle_post(&p.id, 20);
    assert!(store.get_post(&p.id).unwrap().published);
    store.toggle_post(&p.id, 30);
    let back = store.get_post(&p.id).unwrap();
    assert!(!back.published);
    assert_eq!(back.updated_at, 30);
    // Toggling a missing identifier is silently ignored.
    store.toggle_post(&"missing".to_string(), 40);
    assert_eq!(store.count_posts(), 1);
}

#[test]
fn category_deletion_orphans_products_with_fallback() {
    let store = Store::new();
    let mut gen = IdGen::new();
    let books = store.create_category(category_form("Books"), &mut gen, 1);
    let novel = store.create_product(product_form("Novel", 999, &books.id, 3), &mut gen, 2);
    assert!(novel.is_available());
    assert_eq!(store.list_products().len(), 1);
    let cats = store.list_categories();
    assert_eq!(shop_category_label(&cats, &novel.category_id), "Books");

    store.delete_category(&books.id);

    let products: Vec<Product> = store.list_products();
    assert_eq!(products.len(), 1);
    assert_eq!(products[0], novel);
    let cats = store.list_categories();
    assert_eq!(shop_category_label(&cats, &novel.category_id), "Uncategorized");
}

#[test]
fn publish_then_delete_drives_the_public_blog() {
    let store = Store::new();
    let mut gen = IdGen::new();
    let t1 = store.create_post(post_form("T1", "cat-1"), &mut gen, 10);
    assert_eq!(blog_listing(&store.list_posts()).len(), 0);

    store.set_post_published(&t1.id, true, 20);
    let listing = blog_listing(&store.list_posts());
    assert_eq!(listing.len(), 1);
    assert_eq!(listing[0].id, t1.id);
    assert_eq!(listing[0].title, "T1");

    store.delete_post(&t1.id);
    assert_eq!(blog_listing(&store.list_posts()).len(), 0);
}

#[test]
fn shop_listing_reads_the_store_snapshot() {
    let store = Store::new();
    let mut gen = IdGen::new();
    store.create_product(product_form("Sold out", 100, "cat-1", 0), &mut gen, 10);
    let shown = store.create_product(product_form("In stock", 100, "cat-1", 2), &mut gen, 5);
    let listing = shop_listing(&store.list_products());
    assert_eq!(listing.len(), 1);
    assert_eq!(listing[0].id, shown.id);
}

#[test]
fn sample_data_counts() {
    let store = Store::new();
    let mut gen = IdGen::new();
    store.init_with_sample_data(&mut gen);
    assert_eq!(store.count_categories(), 3);
    assert_eq!(store.count_products(), 4);
    assert_eq!(store.count_blog_categories(), 2);
    assert_eq!(store.count_posts(), 3);
    // All sample posts are published.
    assert_eq!(blog_listing(&store.list_posts()).len(), 3);
    // Every sample product is in stock, so the whole catalogue is shown.
    assert_eq!(shop_listing(&store.list_products()).len(), 4);
}

#[test]
fn sample_fixture_shape() {
    let mut gen = IdGen::new();
    let s = sample_fixture(&mut gen, 77);
    assert_eq!(s.categories.len(), 3);
    assert_eq!(s.products.len(), 4);
    assert_eq!(s.blog_categories.len(), 2);
    assert_eq!(s.posts.len(), 3);
    assert!(s.categories.iter().all(|c| c.created_at == 77));
    assert!(s.products.iter().all(|p| p.stock > 0 && p.created_at == 77 && p.updated_at == 77));
    assert!(s.posts.iter().all(|p| p.published && p.created_at == 77));
    for p in &s.products {
        assert!(s.categories.iter().any(|c| c.id == p.category_id));
    }
    for p in &s.posts {
        assert!(s.blog_categories.iter().any(|c| c.id == p.category_id));
    }
    assert_eq!(gen.issued, 12);
}

#[test]
fn sample_posts_reference_existing_blog_categories() {
    let store = Store::new();
    let mut gen = IdGen::new();
    store.init_with_sample_data(&mut gen);
    let blog_cats = store.list_blog_categories();
    for post in blog_listing(&store.list_posts()) {
        assert_ne!(blog_category_label(&blog_cats, &post.category_id), "Uncategorized");
    }
}

#[test]
fn get_returns_the_identifier_asked_for() {
    let store = Store::new();
    let mut gen = IdGen::new();
    let p = store.create_product(product_form("Novel", 999, "cat-1", 3), &mut gen, 42);
    let fetched = store.get_product(&p.id).expect("inserted product is found");
    assert_eq!(fetched.id, p.id);
}

#[test]
fn default_store_is_empty() {
    let store = Store::default();
    assert_eq!(store.count_products(), 0);
}
