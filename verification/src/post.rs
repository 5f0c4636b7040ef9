//! Blog posts.

use crate::entity::Entity;
use crate::ids::gen_id_chars;
use crate::ids::is_generated_id;
use crate::ids::IdGen;
use vstd::prelude::*;

verus! {

/// A blog post. A post starts as a draft and may be published and
/// unpublished any number of times. The category reference is advisory: it
/// is never validated against the blog category repository.
#[derive(Debug, Clone, PartialEq)]
pub struct Post {
    pub id: String,
    pub title: String,
    pub content: String,
    pub excerpt: String,
    pub category_id: String,
    pub author: String,
    pub published: bool,
    pub created_at: i64,
    pub updated_at: i64,
}

/// The value a post takes after an in-place update of its content fields:
/// title, content and excerpt replaced and the update time refreshed,
/// everything else — the published flag included — kept.
pub open spec fn post_updated(
    p: Post,
    title: String,
    content: String,
    excerpt: String,
    now: i64,
) -> Post {
    Post { title, content, excerpt, updated_at: now, ..p }
}

/// The value a post takes when its published flag is set to `published`.
/// The update time is refreshed even when the flag does not change: an
/// idempotent publish still bumps the timestamp, deliberately.
pub open spec fn post_with_published(p: Post, published: bool, now: i64) -> Post {
    Post { published, updated_at: now, ..p }
}

impl Post {
    /// A new post: a draft (not published), with a fresh identifier from
    /// the generator and both timestamps set to `now`.
    pub fn new(
        title: String,
        content: String,
        excerpt: String,
        category_id: String,
        author: String,
        gen: &mut IdGen,
        now: i64,
    ) -> (p: Post)
        ensures
            exists|suffix: Seq<char>| p.id@ == gen_id_chars(old(gen).issued, suffix),
            is_generated_id(p.id@),
            p.title == title,
            p.content == content,
            p.excerpt == excerpt,
            p.category_id == category_id,
            p.author == author,
            !p.published,
            p.created_at == now,
            p.updated_at == now,
            final(gen).issued == if old(gen).issued < u64::MAX {
                (old(gen).issued + 1) as u64
            } else {
                u64::MAX
            },
    {
        Post {
            id: gen.fresh_id(),
            title,
            content,
            excerpt,
            category_id,
            author,
            published: false,
            created_at: now,
            updated_at: now,
        }
    }

    /// Replaces title, content and excerpt in place and refreshes the
    /// update time; does not touch the published flag.
    pub fn update(&mut self, title: String, content: String, excerpt: String, now: i64)
        ensures
            *final(self) == post_updated(*old(self), title, content, excerpt, now),
    {
        self.title = title;
        self.content = content;
        self.excerpt = excerpt;
        self.updated_at = now;
    }

    /// Publishes the post and refreshes the update time, also when the post
    /// was already published.
    pub fn publish(&mut self, now: i64)
        ensures
            *final(self) == post_with_published(*old(self), true, now),
            final(self).published,
    {
        self.published = true;
        self.updated_at = now;
    }

    /// Unpublishes the post and refreshes the update time, also when the
    /// post was already a draft.
    pub fn unpublish(&mut self, now: i64)
        ensures
            *final(self) == post_with_published(*old(self), false, now),
            !final(self).published,
    {
        self.published = false;
        self.updated_at = now;
    }
}

/// The publish lifecycle: publishing sets the flag and — whenever the
/// clock has advanced past the post's last update — strictly increases the
/// update time; unpublishing clears the flag again.
pub proof fn lemma_publish_lifecycle(p: Post, now: i64)
    requires
        now > p.updated_at,
    ensures
        post_with_published(p, true, now).published,
        post_with_published(p, true, now).updated_at > p.updated_at,
        !post_with_published(post_with_published(p, true, now), false, now).published,
{
}

impl Entity for Post {
    open spec fn key(self) -> Seq<char> {
        self.id@
    }

    open spec fn stamp(self) -> i64 {
        self.created_at
    }

    fn key_ref(&self) -> (r: &String) {
        &self.id
    }

    fn created(&self) -> (r: i64) {
        self.created_at
    }

    fn copied(&self) -> (r: Post) {
        Post {
            id: self.id.clone(),
            title: self.title.clone(),
            content: self.content.clone(),
            excerpt: self.excerpt.clone(),
            category_id: self.category_id.clone(),
            author: self.author.clone(),
            published: self.published,
            created_at: self.created_at,
            updated_at: self.updated_at,
        }
    }
}

} // verus!
