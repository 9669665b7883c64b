//! Blog posts: the stored row, the shapes the API answers with, the request
//! bodies, and the conversions between them.
use vstd::prelude::*;

use crate::json::{json_text_list, read_text_list};
use crate::text::owned;

verus! {

// ── Database row ─────────────────────────────────────────────────────────────
/// One row of the `blog_posts` table.
#[derive(Debug, Clone, PartialEq, Eq)]
pub struct BlogPostRow {
    pub id: String,
    pub slug: String,
    pub title: String,
    pub excerpt: String,
    pub content: String,
    pub date: String,
    pub read_time: String,
    pub category: String,
    pub category_color: String,
    pub image_url: Option<String>,
    pub image_alt: Option<String>,
    /// The tags, stored as a JSON array of strings.
    pub tags: String,
    pub code_snippet: Option<String>,
    pub views: i64,
    pub created_at: String,
    pub updated_at: String,
}

// ── API responses ────────────────────────────────────────────────────────────
/// A post as list endpoints show it (no content).
#[derive(Debug, Clone, PartialEq, Eq)]
pub struct BlogPostSummary {
    pub slug: String,
    pub title: String,
    pub excerpt: String,
    pub date: String,
    pub read_time: String,
    pub category: String,
    pub category_color: String,
    pub image_url: Option<String>,
    pub image_alt: Option<String>,
    pub tags: Vec<String>,
    pub code_snippet: Option<String>,
    pub views: i64,
}

/// A full post, as the detail endpoint shows it.
#[derive(Debug, Clone, PartialEq, Eq)]
pub struct BlogPostDetail {
    pub summary: BlogPostSummary,
    pub content: String,
}

/// One page of the post list.
#[derive(Debug, Clone, PartialEq, Eq)]
pub struct BlogListResponse {
    pub posts: Vec<BlogPostSummary>,
    pub total: i64,
    pub page: i64,
    pub per_page: i64,
    pub total_pages: i64,
}

// ── API request bodies ───────────────────────────────────────────────────────
/// The body of a create request, with the defaults of omitted fields filled in.
#[derive(Debug, Clone, PartialEq, Eq)]
pub struct CreateBlogPost {
    pub slug: String,
    pub title: String,
    pub excerpt: String,
    pub content: String,
    pub date: String,
    pub read_time: String,
    pub category: String,
    pub category_color: String,
    pub image_url: Option<String>,
    pub image_alt: Option<String>,
    pub tags: Vec<String>,
    pub code_snippet: Option<String>,
}

/// The body of an update request: every field that is given replaces the
/// stored one.
#[derive(Debug, Clone, PartialEq, Eq)]
pub struct UpdateBlogPost {
    pub title: Option<String>,
    pub excerpt: Option<String>,
    pub content: Option<String>,
    pub date: Option<String>,
    pub read_time: Option<String>,
    pub category: Option<String>,
    pub category_color: Option<String>,
    pub image_url: Option<String>,
    pub image_alt: Option<String>,
    pub tags: Option<Vec<String>>,
    pub code_snippet: Option<String>,
}

/// The reading time a new post gets when none is given.
pub fn default_read_time() -> (s: String)
    ensures
        s@ == "5 min read"@,
{
    owned("5 min read")
}

/// The category a new post gets when none is given.
pub fn default_category() -> (s: String)
    ensures
        s@ == "GENERAL"@,
{
    owned("GENERAL")
}

/// The category style a new post gets when none is given.
pub fn default_category_color() -> (s: String)
    ensures
        s@ == "border-outline-variant text-on-surface-variant"@,
{
    owned("border-outline-variant text-on-surface-variant")
}

// ── Conversions ──────────────────────────────────────────────────────────────
/// The tags a row shows: the stored JSON array, or none when it cannot be read.
pub open spec fn stored_tags(text: Seq<char>) -> Seq<Seq<char>> {
    match json_text_list(text) {
        Some(items) => items,
        None => Seq::empty(),
    }
}

impl BlogPostRow {
    /// `summary` shows this row: every column but the content, the id and the
    /// timestamps, with the tags read from their JSON text.
    pub open spec fn summarized_as(self, summary: BlogPostSummary) -> bool {
        &&& summary.slug == self.slug
        &&& summary.title == self.title
        &&& summary.excerpt == self.excerpt
        &&& summary.date == self.date
        &&& summary.read_time == self.read_time
        &&& summary.category == self.category
        &&& summary.category_color == self.category_color
        &&& summary.image_url == self.image_url
        &&& summary.image_alt == self.image_alt
        &&& summary.tags.deep_view() == stored_tags(self.tags@)
        &&& summary.code_snippet == self.code_snippet
        &&& summary.views == self.views
    }

    /// `detail` shows this row: its summary and its content.
    pub open spec fn detailed_as(self, detail: BlogPostDetail) -> bool {
        &&& self.summarized_as(detail.summary)
        &&& detail.content == self.content
    }

    /// The list view of a post.
    pub fn into_summary(self) -> (summary: BlogPostSummary)
        ensures
            self.summarized_as(summary),
    {
        let tags: Vec<String> = match read_text_list(self.tags.as_str()) {
            Some(items) => items,
            None => Vec::new(),
        };
        assert(tags.deep_view() =~= stored_tags(self.tags@));
        BlogPostSummary {
            slug: self.slug,
            title: self.title,
            excerpt: self.excerpt,
            date: self.date,
            read_time: self.read_time,
            category: self.category,
            category_color: self.category_color,
            image_url: self.image_url,
            image_alt: self.image_alt,
            tags,
            code_snippet: self.code_snippet,
            views: self.views,
        }
    }

    /// The detail view of a post.
    pub fn into_detail(self) -> (detail: BlogPostDetail)
        ensures
            self.detailed_as(detail),
    {
        let content = self.content.clone();
        BlogPostDetail { summary: self.into_summary(), content }
    }
}

} // verus!
