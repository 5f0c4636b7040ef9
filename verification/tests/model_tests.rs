use mystore_cms::blog_category::BlogCategory;
use mystore_cms::category::Category;
use mystore_cms::ids::IdGen;
use mystore_cms::post::Post;
use mystore_cms::product::Product;

#[test]
fn category_construction_sets_fields() {
    let mut gen = IdGen::new();
    let c = Category::new("Books".to_string(), "All kinds".to_string(), &mut gen, 1000);
    assert_eq!(c.name, "Books");
    assert_eq!(c.description, "All kinds");
    assert_eq!(c.created_at, 1000);
    assert!(!c.id.is_empty());
}

#[test]
fn blog_category_construction_sets_fields() {
    let mut gen = IdGen::new();
    let c = BlogCategory::new("Tech".to_string(), "News".to_string(), &mut gen, 5);
    assert_eq!(c.name, "Tech");
    assert_eq!(c.description, "News");
    assert_eq!(c.created_at, 5);
}

#[test]
fn product_construction_and_availability() {
    let mut gen = IdGen::new();
    let p = Product::new(
        "Novel".to_string(),
        "A story".to_string(),
        999,
        "cat-1".to_string(),
        3,
        &mut gen,
        42,
    );
    assert_eq!(p.name, "Novel");
    assert_eq!(p.price_cents, 999);
    assert_eq!(p.category_id, "cat-1");
    assert_eq!(p.image_url, None);
    assert_eq!(p.stock, 3);
    assert_eq!(p.created_at, 42);
    assert_eq!(p.updated_at, 42);
    assert!(p.is_available());
}

#[test]
fn availability_is_positive_stock() {
    let mut gen = IdGen::new();
    let mut p = Product::new(
        "Novel".to_string(),
        "A story".to_string(),
        999,
        "cat-1".to_string(),
        0,
        &mut gen,
        42,
    );
    assert!(!p.is_available());
    p.update("Novel".to_string(), "A story".to_string(), 999, -5, 43);
    assert!(!p.is_available());
    p.update("Novel".to_string(), "A story".to_string(), 999, 1, 44);
    assert!(p.is_available());
}

#[test]
fn product_update_replaces_fields_and_bumps_updated_at() {
    let mut gen = IdGen::new();
    let mut p = Product::new(
        "Old".to_string(),
        "Old desc".to_string(),
        100,
        "cat-1".to_string(),
        1,
        &mut gen,
        10,
    );
    let id = p.id.clone();
    p.update("New".to_string(), "New desc".to_string(), 250, 7, 20);
    assert_eq!(p.id, id);
    assert_eq!(p.name, "New");
    assert_eq!(p.description, "New desc");
    assert_eq!(p.price_cents, 250);
    assert_eq!(p.stock, 7);
    assert_eq!(p.category_id, "cat-1");
    assert_eq!(p.created_at, 10);
    assert_eq!(p.updated_at, 20);
}

#[test]
fn post_starts_as_draft() {
    let mut gen = IdGen::new();
    let p = Post::new(
        "Title".to_string(),
        "Content".to_string(),
        "Excerpt".to_string(),
        "cat-1".to_string(),
        "Admin".to_string(),
        &mut gen,
        100,
    );
    assert!(!p.published);
    assert_eq!(p.created_at, 100);
    assert_eq!(p.updated_at, 100);
}

#[test]
fn publish_lifecycle_bumps_updated_at() {
    let mut gen = IdGen::new();
    let mut p = Post::new(
        "Title".to_string(),
        "Content".to_string(),
        "Excerpt".to_string(),
        "cat-1".to_string(),
        "Admin".to_string(),
        &mut gen,
        100,
    );
    p.publish(150);
    assert!(p.published);
    assert!(p.updated_at > 100);
    assert_eq!(p.updated_at, 150);
    p.unpublish(200);
    assert!(!p.published);
    assert_eq!(p.updated_at, 200);
    // An idempotent publish still refreshes the timestamp, deliberately.
    p.publish(250);
    p.publish(300);
    assert!(p.published);
    assert_eq!(p.updated_at, 300);
}

#[test]
fn post_update_keeps_published_flag() {
    let mut gen = IdGen::new();
    let mut p = Post::new(
        "Title".to_string(),
        "Content".to_string(),
        "Excerpt".to_string(),
        "cat-1".to_string(),
        "Admin".to_string(),
        &mut gen,
        100,
    );
    p.publish(110);
    p.update(
        "New title".to_string(),
        "New content".to_string(),
        "New excerpt".to_string(),
        120,
    );
    assert!(p.published);
    assert_eq!(p.title, "New title");
    assert_eq!(p.content, "New content");
    assert_eq!(p.excerpt, "New excerpt");
    assert_eq!(p.author, "Admin");
    assert_eq!(p.updated_at, 120);
}
