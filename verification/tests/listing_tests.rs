use mystore_cms::blog_category::BlogCategory;
use mystore_cms::category::Category;
use mystore_cms::ids::IdGen;
use mystore_cms::listing::admin_blog_category_label;
use mystore_cms::listing::admin_category_label;
use mystore_cms::listing::blog_category_label;
use mystore_cms::listing::blog_listing;
use mystore_cms::listing::shop_category_label;
use mystore_cms::listing::shop_listing;
use mystore_cms::listing::sorted_newest;
use mystore_cms::listing::visible_post;
use mystore_cms::post::Post;
use mystore_cms::product::Product;

fn product(gen: &mut IdGen, name: &str, stock: i32, created_at: i64) -> Product {
    Product::new(
        name.to_string(),
        "desc".to_string(),
        999,
        "cat-1".to_string(),
        stock,
        gen,
        created_at,
    )
}

fn post(gen: &mut IdGen, title: &str, created_at: i64) -> Post {
    Post::new(
        title.to_string(),
        "content".to_string(),
        "excerpt".to_string(),
        "cat-1".to_string(),
        "Admin".to_string(),
        gen,
        created_at,
    )
}

#[test]
fn sorted_newest_orders_by_creation_descending() {
    let mut gen = IdGen::new();
    let a = product(&mut gen, "a", 1, 5);
    let b = product(&mut gen, "b", 1, 10);
    let c = product(&mut gen, "c", 1, 7);
    let v = vec![a, b, c];
    let sorted = sorted_newest(&v);
    let names: Vec<&str> = sorted.iter().map(|p| p.name.as_str()).collect();
    assert_eq!(names, vec!["b", "c", "a"]);
}

#[test]
fn sorted_newest_is_stable_for_equal_timestamps() {
    let mut gen = IdGen::new();
    let a = product(&mut gen, "first", 1, 10);
    let b = product(&mut gen, "second", 1, 10);
    let c = product(&mut gen, "third", 1, 10);
    let v = vec![a, b, c];
    let sorted = sorted_newest(&v);
    let names: Vec<&str> = sorted.iter().map(|p| p.name.as_str()).collect();
    assert_eq!(names, vec!["first", "second", "third"]);
}

#[test]
fn sorted_newest_of_empty_is_empty() {
    let v: Vec<Product> = Vec::new();
    assert_eq!(sorted_newest(&v).len(), 0);
}

#[test]
fn shop_listing_excludes_unavailable_products() {
    let mut gen = IdGen::new();
    let sold_out = product(&mut gen, "sold out", 0, 10);
    let in_stock = product(&mut gen, "in stock", 3, 5);
    let negative = product(&mut gen, "negative", -2, 7);
    let v = vec![sold_out, in_stock, negative];
    let listing = shop_listing(&v);
    assert_eq!(listing.len(), 1);
    assert_eq!(listing[0].name, "in stock");
}

#[test]
fn blog_listing_holds_published_posts_only_newest_first() {
    let mut gen = IdGen::new();
    let mut p1 = post(&mut gen, "older published", 10);
    p1.publish(11);
    let p2 = post(&mut gen, "draft", 20);
    let mut p3 = post(&mut gen, "newer published", 30);
    p3.publish(31);
    let v = vec![p1, p2, p3];
    let listing = blog_listing(&v);
    let titles: Vec<&str> = listing.iter().map(|p| p.title.as_str()).collect();
    assert_eq!(titles, vec!["newer published", "older published"]);
}

#[test]
fn labels_fall_back_on_dangling_references() {
    let mut gen = IdGen::new();
    let cats = vec![Category::new(
        "Books".to_string(),
        "desc".to_string(),
        &mut gen,
        1,
    )];
    let blog_cats = vec![BlogCategory::new(
        "Tech".to_string(),
        "desc".to_string(),
        &mut gen,
        1,
    )];
    let missing = "no-such-id".to_string();
    assert_eq!(shop_category_label(&cats, &missing), "Uncategorized");
    assert_eq!(admin_category_label(&cats, &missing), "Unknown");
    assert_eq!(blog_category_label(&blog_cats, &missing), "Uncategorized");
    assert_eq!(admin_blog_category_label(&blog_cats, &missing), "Unknown");
}

#[test]
fn labels_resolve_existing_references() {
    let mut gen = IdGen::new();
    let cat = Category::new("Books".to_string(), "desc".to_string(), &mut gen, 1);
    let id = cat.id.clone();
    let cats = vec![cat];
    assert_eq!(shop_category_label(&cats, &id), "Books");
    assert_eq!(admin_category_label(&cats, &id), "Books");
    let blog_cat = BlogCategory::new("Tech".to_string(), "desc".to_string(), &mut gen, 1);
    let blog_id = blog_cat.id.clone();
    let blog_cats = vec![blog_cat];
    assert_eq!(blog_category_label(&blog_cats, &blog_id), "Tech");
    assert_eq!(admin_blog_category_label(&blog_cats, &blog_id), "Tech");
}

#[test]
fn visible_post_requires_existence_and_published() {
    let mut gen = IdGen::new();
    let draft = post(&mut gen, "draft", 10);
    let draft_id = draft.id.clone();
    let mut published = post(&mut gen, "published", 20);
    published.publish(21);
    let published_id = published.id.clone();
    let v = vec![draft, published];
    assert!(visible_post(&v, &"missing".to_string()).is_none());
    assert!(visible_post(&v, &draft_id).is_none());
    let shown = visible_post(&v, &published_id).expect("published post is visible");
    assert_eq!(shown.title, "published");
}
