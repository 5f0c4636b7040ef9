//! An in-memory content-management backend: four entity kinds — products,
//! product categories, blog posts, blog categories — each held in its own
//! repository behind a reader-writer lock, with identity and timestamps
//! assigned at creation and the few cross-entity rules the system has:
//! advisory category references resolved by display-time fallbacks, and the
//! publish/draft lifecycle of posts. Request handling, routing and HTML
//! rendering live outside the library and speak to it in plain values.

pub mod blog_category;
pub mod category;
pub mod clock;
pub mod entity;
pub mod forms;
pub mod ids;
pub mod listing;
pub mod post;
pub mod product;
pub mod repo;
pub mod store;
