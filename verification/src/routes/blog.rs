//! The rules of the blog endpoints: paging and filtering the list, the admin
//! check, and what is written to the store on create, update, delete and view.
use vstd::prelude::*;

use crate::error::ApiError;
use crate::json::{json_text_list, json_text_list_encoding, write_text_list};
use crate::models::blog::{
    stored_tags, BlogListResponse, BlogPostDetail, BlogPostRow, BlogPostSummary, CreateBlogPost,
    UpdateBlogPost,
};
use crate::text::{
    all_ascii, ascii_upper, concat3, owned, same_text, to_uppercase, unicode_uppercase,
};

verus! {

// ── Query params ─────────────────────────────────────────────────────────────
/// The query string of `GET /api/blog/posts`.
#[derive(Debug, Clone, PartialEq, Eq)]
pub struct ListParams {
    pub page: Option<i64>,
    pub per_page: Option<i64>,
    pub category: Option<String>,
}

/// What the list query asks the store for: one page of `per_page` posts
/// starting at `offset`, of one upper-cased category or of all.
#[derive(Debug, Clone, PartialEq, Eq)]
pub struct ListQuery {
    pub page: i64,
    pub per_page: i64,
    pub offset: i64,
    pub category: Option<String>,
}

/// The page asked for: 1 when absent, and never below 1.
pub open spec fn effective_page(page: Option<i64>) -> int {
    match page {
        Some(p) => if p < 1 {
            1
        } else {
            p as int
        },
        None => 1,
    }
}

/// The page size asked for: 10 when absent, kept within 1..=50.
pub open spec fn effective_per_page(per_page: Option<i64>) -> int {
    let n: int = match per_page {
        Some(n) => n as int,
        None => 10,
    };
    if n < 1 {
        1
    } else if n > 50 {
        50
    } else {
        n
    }
}

/// The category the list is narrowed to: the upper-cased category asked for,
/// unless it is absent or upper-cases to `ALL`.
pub open spec fn category_filter(category: Option<String>) -> Option<Seq<char>> {
    match category {
        Some(c) => if unicode_uppercase(c@) != "ALL"@ {
            Some(unicode_uppercase(c@))
        } else {
            None
        },
        None => None,
    }
}

/// The view of an optional text.
pub open spec fn opt_text(o: Option<String>) -> Option<Seq<char>> {
    match o {
        Some(s) => Some(s@),
        None => None,
    }
}

/// The number of pages of `per_page` posts that `total` posts fill:
/// `total / per_page` rounded up.
pub open spec fn page_count(total: int, per_page: int) -> int {
    -((-total) / per_page)
}

/// Reads the list parameters. `None` when the offset of the page asked for
/// does not fit in an `i64` (the computation overflows).
pub fn plan_list(params: &ListParams) -> (q: Option<ListQuery>)
    ensures
        q is Some <==> (effective_page(params.page) - 1) * effective_per_page(params.per_page)
            <= i64::MAX,
        q matches Some(q) ==> {
            &&& q.page == effective_page(params.page)
            &&& q.per_page == effective_per_page(params.per_page)
            &&& q.offset == (q.page - 1) * q.per_page
            &&& opt_text(q.category) == category_filter(params.category)
            &&& (params.category matches Some(c) ==> (all_ascii(c@) ==> unicode_uppercase(c@)
                == c@.map_values(|ch: char| ascii_upper(ch))))
        },
{
    let page: i64 = match params.page {
        Some(p) => if p < 1 {
            1
        } else {
            p
        },
        None => 1,
    };
    let asked: i64 = match params.per_page {
        Some(n) => n,
        None => 10,
    };
    let per_page: i64 = if asked < 1 {
        1
    } else if asked > 50 {
        50
    } else {
        asked
    };
    let offset = match (page - 1).checked_mul(per_page) {
        Some(o) => o,
        None => {
            return None;
        },
    };
    let category = match &params.category {
        Some(cat) => {
            let upper = to_uppercase(cat.as_str());
            if same_text(upper.as_str(), "ALL") {
                None
            } else {
                Some(upper)
            }
        },
        None => None,
    };
    Some(ListQuery { page, per_page, offset, category })
}

/// `posts[i]` shows `rows[i]`, for every row, in order.
pub open spec fn summaries_of(rows: Seq<BlogPostRow>, posts: Seq<BlogPostSummary>) -> bool {
    &&& posts.len() == rows.len()
    &&& forall|i: int| 0 <= i < rows.len() ==> #[trigger] rows[i].summarized_as(posts[i])
}

/// The answer to a list query: the rows of the page, shown as summaries, the
/// total count, and the number of pages.
pub fn list_response(rows: Vec<BlogPostRow>, total: i64, query: &ListQuery) -> (r: BlogListResponse)
    requires
        1 <= query.per_page,
    ensures
        summaries_of(rows@, r.posts@),
        r.total == total,
        r.page == query.page,
        r.per_page == query.per_page,
        r.total_pages == page_count(total as int, query.per_page as int),
{
    let ghost all = rows@;
    let mut posts: Vec<BlogPostSummary> = Vec::new();
    for row in it: rows.into_iter()
        invariant
            it.seq() == all,
            posts.len() == it.index(),
            forall|i: int| 0 <= i < it.index() ==> #[trigger] all[i].summarized_as(posts@[i]),
    {
        posts.push(row.into_summary());
    }
    let per_page = query.per_page;
    let total_pages: i64 = if total >= 0 {
        let whole = total / per_page;
        if total % per_page != 0 {
            assert(whole < i64::MAX) by (nonlinear_arith)
                requires
                    whole == total / per_page,
                    total % per_page != 0,
                    total >= 0,
                    per_page >= 1,
            {
                assert(per_page >= 2);
                assert(whole * per_page <= total);
                assert(whole * 2 <= whole * per_page);
            }
            whole + 1
        } else {
            whole
        }
    } else {
        let magnitude: i128 = -(total as i128);
        (-(magnitude / (per_page as i128))) as i64
    };
    proof {
        if total >= 0 {
            lemma_page_count_whole(total as int, per_page as int);
        }
    }
    BlogListResponse { posts, total, page: query.page, per_page: query.per_page, total_pages }
}

// ── Admin check ──────────────────────────────────────────────────────────────
/// Whether a request presents the admin key: its `x-api-key` header is
/// present (and readable as text) and equal to the key.
pub open spec fn presents_key(header: Option<String>, key: Seq<char>) -> bool {
    match header {
        Some(h) => h@ == key,
        None => false,
    }
}

/// Admits a request exactly when it carries an `x-api-key` header equal to
/// the admin key; a request without the header is refused, whatever the key.
pub fn check_admin(header: &Option<String>, key: &str) -> (r: Result<(), ApiError>)
    ensures
        r is Ok <==> presents_key(*header, key@),
        r is Err ==> r == Err::<(), ApiError>(ApiError::Unauthorized),
{
    match header {
        Some(h) => {
            if same_text(h.as_str(), key) {
                Ok(())
            } else {
                Err(ApiError::Unauthorized)
            }
        },
        None => Err(ApiError::Unauthorized),
    }
}

// ── Lookups by slug ──────────────────────────────────────────────────────────
/// The message of a request for a post that does not exist.
pub open spec fn post_not_found(slug: Seq<char>) -> Seq<char> {
    "Post '"@ + slug + "' not found"@
}

/// The answer to `GET /api/blog/posts/{slug}`: the post found under the slug,
/// or 404.
pub fn post_or_not_found(slug: &str, row: Option<BlogPostRow>) -> (r: Result<BlogPostDetail, ApiError>)
    ensures
        row matches Some(found) ==> (r matches Ok(d) && found.detailed_as(d)),
        row is None ==> (r matches Err(ApiError::NotFound(m)) && m@ == post_not_found(slug@)),
{
    match row {
        Some(found) => Ok(found.into_detail()),
        None => Err(ApiError::NotFound(concat3("Post '", slug, "' not found"))),
    }
}

/// The answer to a delete or a view count: 404 when no row carried the slug.
pub fn require_match(slug: &str, rows_affected: u64) -> (r: Result<(), ApiError>)
    ensures
        r is Ok <==> rows_affected != 0,
        r matches Err(e) ==> (e matches ApiError::NotFound(m) && m@ == post_not_found(slug@)),
{
    if rows_affected == 0 {
        return Err(ApiError::NotFound(concat3("Post '", slug, "' not found")));
    }
    Ok(())
}

/// The category names of `SELECT DISTINCT category`, in order.
pub fn category_names(rows: Vec<(String,)>) -> (names: Vec<String>)
    ensures
        names.len() == rows.len(),
        forall|i: int| 0 <= i < rows.len() ==> #[trigger] names@[i] == rows@[i].0,
{
    let ghost all = rows@;
    let mut names: Vec<String> = Vec::new();
    for row in it: rows.into_iter()
        invariant
            it.seq() == all,
            names.len() == it.index(),
            forall|i: int| 0 <= i < it.index() ==> #[trigger] names@[i] == all[i].0,
    {
        names.push(row.0);
    }
    names
}

// ── Create ───────────────────────────────────────────────────────────────────
/// The columns a create request writes; the store adds the view count and the
/// timestamps.
#[derive(Debug, Clone, PartialEq, Eq)]
pub struct NewPost {
    pub id: String,
    pub slug: String,
    pub title: String,
    pub excerpt: String,
    pub content: String,
    pub date: String,
    pub read_time: String,
    pub category: String,
    pub category_color: String,
    pub image_url: Option<String>,
    pub image_alt: Option<String>,
    pub tags: String,
    pub code_snippet: Option<String>,
}

impl NewPost {
    /// This record holds the request `body` under the identifier `id`, with
    /// the tags written as JSON.
    pub open spec fn records(self, id: String, body: CreateBlogPost) -> bool {
        &&& self.id == id
        &&& self.slug == body.slug
        &&& self.title == body.title
        &&& self.excerpt == body.excerpt
        &&& self.content == body.content
        &&& self.date == body.date
        &&& self.read_time == body.read_time
        &&& self.category == body.category
        &&& self.category_color == body.category_color
        &&& self.image_url == body.image_url
        &&& self.image_alt == body.image_alt
        &&& self.tags@ == json_text_list_encoding(body.tags.deep_view())
        &&& json_text_list(self.tags@) == Some(body.tags.deep_view())
        &&& self.code_snippet == body.code_snippet
    }
}

impl BlogPostRow {
    /// This row holds the columns that `record` wrote.
    pub open spec fn stores(self, record: NewPost) -> bool {
        &&& self.id == record.id
        &&& self.slug == record.slug
        &&& self.title == record.title
        &&& self.excerpt == record.excerpt
        &&& self.content == record.content
        &&& self.date == record.date
        &&& self.read_time == record.read_time
        &&& self.category == record.category
        &&& self.category_color == record.category_color
        &&& self.image_url == record.image_url
        &&& self.image_alt == record.image_alt
        &&& self.tags == record.tags
        &&& self.code_snippet == record.code_snippet
    }
}

/// Whether a character is a lower-case hexadecimal digit.
pub open spec fn is_lower_hex(c: char) -> bool {
    ('0' <= c <= '9') || ('a' <= c <= 'f')
}

/// The text form of a random (version 4, RFC 4122 variant) UUID: 36
/// characters, hyphens at 8, 13, 18 and 23, lower-case hex digits elsewhere,
/// the version digit `4` at 14 and one of `8`, `9`, `a`, `b` at 19.
pub open spec fn is_uuid_v4_text(id: Seq<char>) -> bool {
    &&& id.len() == 36
    &&& id[8] == '-'
    &&& id[13] == '-'
    &&& id[18] == '-'
    &&& id[23] == '-'
    &&& forall|i: int|
        0 <= i < 36 && i != 8 && i != 13 && i != 18 && i != 23 ==> is_lower_hex(#[trigger] id[i])
    &&& id[14] == '4'
    &&& (id[19] == '8' || id[19] == '9' || id[19] == 'a' || id[19] == 'b')
}

/// The identifier `uuid::Uuid::new_v4().to_string()` gives a new post.
/// The contract claims what holds of every outcome: the hyphenated
/// lower-case text of a version 4 UUID (`new_v4` masks in the version and
/// variant bits; `Display` writes the hyphenated lower-case form). The
/// random digits themselves are left unsaid.
#[verifier::external_body]
fn fresh_post_id() -> (id: String)
    ensures
        is_uuid_v4_text(id@),
{
    uuid::Uuid::new_v4().to_string()
}

/// The record a create request writes under the identifier `id`.
pub fn new_post_record(id: String, body: CreateBlogPost) -> (record: NewPost)
    ensures
        record.records(id, body),
{
    let tags = match write_text_list(&body.tags) {
        Some(text) => text,
        None => owned("[]"),
    };
    NewPost {
        id,
        slug: body.slug,
        title: body.title,
        excerpt: body.excerpt,
        content: body.content,
        date: body.date,
        read_time: body.read_time,
        category: body.category,
        category_color: body.category_color,
        image_url: body.image_url,
        image_alt: body.image_alt,
        tags,
        code_snippet: body.code_snippet,
    }
}

/// The record a create request writes, under a fresh random identifier.
pub fn new_post(body: CreateBlogPost) -> (record: NewPost)
    ensures
        record.records(record.id, body),
        is_uuid_v4_text(record.id@),
{
    new_post_record(fresh_post_id(), body)
}

/// A post written by a create request reads back as that request: the row
/// that stores the record shows the body's fields and tags.
pub proof fn lemma_created_post_reads_back(
    id: String,
    body: CreateBlogPost,
    record: NewPost,
    row: BlogPostRow,
    detail: BlogPostDetail,
)
    requires
        record.records(id, body),
        row.stores(record),
        row.detailed_as(detail),
    ensures
        detail.summary.slug == body.slug,
        detail.summary.title == body.title,
        detail.summary.excerpt == body.excerpt,
        detail.content == body.content,
        detail.summary.date == body.date,
        detail.summary.read_time == body.read_time,
        detail.summary.category == body.category,
        detail.summary.category_color == body.category_color,
        detail.summary.image_url == body.image_url,
        detail.summary.image_alt == body.image_alt,
        detail.summary.tags.deep_view() == body.tags.deep_view(),
        detail.summary.code_snippet == body.code_snippet,
        detail.summary.views == row.views,
{
}

// ── Update ───────────────────────────────────────────────────────────────────
/// The columns an update request writes.
#[derive(Debug, Clone, PartialEq, Eq)]
pub struct PostChanges {
    pub title: String,
    pub excerpt: String,
    pub content: String,
    pub date: String,
    pub read_time: String,
    pub category: String,
    pub category_color: String,
    pub image_url: Option<String>,
    pub image_alt: Option<String>,
    pub tags: String,
    pub code_snippet: Option<String>,
}

/// The given value, or the stored one when none is given.
pub open spec fn given_or<T>(given: Option<T>, stored: T) -> T {
    match given {
        Some(v) => v,
        None => stored,
    }
}

/// The given optional value, or the stored one when none is given.
pub open spec fn given_or_kept<T>(given: Option<T>, stored: Option<T>) -> Option<T> {
    match given {
        Some(v) => Some(v),
        None => stored,
    }
}

impl PostChanges {
    /// These changes merge the update `body` into the stored row `existing`:
    /// each field given replaces the stored one, the others stay.
    pub open spec fn merges(self, existing: BlogPostRow, body: UpdateBlogPost) -> bool {
        &&& self.title == given_or(body.title, existing.title)
        &&& self.excerpt == given_or(body.excerpt, existing.excerpt)
        &&& self.content == given_or(body.content, existing.content)
        &&& self.date == given_or(body.date, existing.date)
        &&& self.read_time == given_or(body.read_time, existing.read_time)
        &&& self.category == given_or(body.category, existing.category)
        &&& self.category_color == given_or(body.category_color, existing.category_color)
        &&& self.image_url == given_or_kept(body.image_url, existing.image_url)
        &&& self.image_alt == given_or_kept(body.image_alt, existing.image_alt)
        &&& self.code_snippet == given_or_kept(body.code_snippet, existing.code_snippet)
        &&& match body.tags {
            Some(t) => {
                &&& self.tags@ == json_text_list_encoding(t.deep_view())
                &&& json_text_list(self.tags@) == Some(t.deep_view())
            },
            None => self.tags == existing.tags,
        }
    }
}

impl BlogPostRow {
    /// This row holds the columns that `changes` wrote over `before`; the
    /// identifier, slug, view count and creation time stay.
    pub open spec fn applies(self, before: BlogPostRow, changes: PostChanges) -> bool {
        &&& self.id == before.id
        &&& self.slug == before.slug
        &&& self.views == before.views
        &&& self.created_at == before.created_at
        &&& self.title == changes.title
        &&& self.excerpt == changes.excerpt
        &&& self.content == changes.content
        &&& self.date == changes.date
        &&& self.read_time == changes.read_time
        &&& self.category == changes.category
        &&& self.category_color == changes.category_color
        &&& self.image_url == changes.image_url
        &&& self.image_alt == changes.image_alt
        &&& self.tags == changes.tags
        &&& self.code_snippet == changes.code_snippet
    }
}

/// Merges an update request into the stored row.
pub fn merge_update(existing: BlogPostRow, body: UpdateBlogPost) -> (changes: PostChanges)
    ensures
        changes.merges(existing, body),
{
    let title = match body.title {
        Some(v) => v,
        None => existing.title,
    };
    let excerpt = match body.excerpt {
        Some(v) => v,
        None => existing.excerpt,
    };
    let content = match body.content {
        Some(v) => v,
        None => existing.content,
    };
    let date = match body.date {
        Some(v) => v,
        None => existing.date,
    };
    let read_time = match body.read_time {
        Some(v) => v,
        None => existing.read_time,
    };
    let category = match body.category {
        Some(v) => v,
        None => existing.category,
    };
    let category_color = match body.category_color {
        Some(v) => v,
        None => existing.category_color,
    };
    let image_url = match body.image_url {
        Some(v) => Some(v),
        None => existing.image_url,
    };
    let image_alt = match body.image_alt {
        Some(v) => Some(v),
        None => existing.image_alt,
    };
    let code_snippet = match body.code_snippet {
        Some(v) => Some(v),
        None => existing.code_snippet,
    };
    let tags = match &body.tags {
        Some(t) => match write_text_list(t) {
            Some(text) => text,
            None => owned("[]"),
        },
        None => existing.tags,
    };
    PostChanges {
        title,
        excerpt,
        content,
        date,
        read_time,
        category,
        category_color,
        image_url,
        image_alt,
        tags,
        code_snippet,
    }
}

/// The changes an update request writes to the post stored under `slug`, or
/// 404 when there is none.
pub fn plan_update(slug: &str, existing: Option<BlogPostRow>, body: UpdateBlogPost) -> (r: Result<
    PostChanges,
    ApiError,
>)
    ensures
        existing matches Some(row) ==> (r matches Ok(c) && c.merges(row, body)),
        existing is None ==> (r matches Err(ApiError::NotFound(m)) && m@ == post_not_found(slug@)),
{
    match existing {
        Some(row) => Ok(merge_update(row, body)),
        None => Err(ApiError::NotFound(concat3("Post '", slug, "' not found"))),
    }
}

/// An update that gives no field writes back what was stored.
pub proof fn lemma_empty_update_keeps_post(
    existing: BlogPostRow,
    body: UpdateBlogPost,
    changes: PostChanges,
)
    requires
        body.title is None,
        body.excerpt is None,
        body.content is None,
        body.date is None,
        body.read_time is None,
        body.category is None,
        body.category_color is None,
        body.image_url is None,
        body.image_alt is None,
        body.tags is None,
        body.code_snippet is None,
        changes.merges(existing, body),
    ensures
        changes.title == existing.title,
        changes.excerpt == existing.excerpt,
        changes.content == existing.content,
        changes.date == existing.date,
        changes.read_time == existing.read_time,
        changes.category == existing.category,
        changes.category_color == existing.category_color,
        changes.image_url == existing.image_url,
        changes.image_alt == existing.image_alt,
        changes.tags == existing.tags,
        changes.code_snippet == existing.code_snippet,
{
}

/// A post rewritten by an update request reads back with every field the
/// request gave, and the stored value of every field it left out.
pub proof fn lemma_updated_post_reads_back(
    existing: BlogPostRow,
    body: UpdateBlogPost,
    changes: PostChanges,
    row: BlogPostRow,
    detail: BlogPostDetail,
)
    requires
        changes.merges(existing, body),
        row.applies(existing, changes),
        row.detailed_as(detail),
    ensures
        detail.summary.slug == existing.slug,
        detail.summary.views == existing.views,
        detail.summary.title == given_or(body.title, existing.title),
        detail.summary.excerpt == given_or(body.excerpt, existing.excerpt),
        detail.content == given_or(body.content, existing.content),
        detail.summary.date == given_or(body.date, existing.date),
        detail.summary.read_time == given_or(body.read_time, existing.read_time),
        detail.summary.category == given_or(body.category, existing.category),
        detail.summary.category_color == given_or(body.category_color, existing.category_color),
        detail.summary.image_url == given_or_kept(body.image_url, existing.image_url),
        detail.summary.image_alt == given_or_kept(body.image_alt, existing.image_alt),
        detail.summary.code_snippet == given_or_kept(body.code_snippet, existing.code_snippet),
        detail.summary.tags.deep_view() == match body.tags {
            Some(t) => t.deep_view(),
            None => stored_tags(existing.tags@),
        },
{
}

proof fn lemma_page_count_whole(total: int, per_page: int)
    requires
        total >= 0,
        per_page >= 1,
    ensures
        page_count(total, per_page) == total / per_page + (if total % per_page != 0 {
            1int
        } else {
            0
        }),
{
    let q = total / per_page;
    let r = total % per_page;
    assert(total == q * per_page + r && 0 <= r < per_page) by (nonlinear_arith)
        requires
            per_page >= 1,
            q == total / per_page,
            r == total % per_page,
    ;
    if r == 0 {
        assert(-total == (-q) * per_page) by (nonlinear_arith)
            requires
                total == q * per_page,
        ;
        assert((-total) / per_page == -q) by (nonlinear_arith)
            requires
                -total == (-q) * per_page,
                per_page >= 1,
        ;
    } else {
        assert(-total == (-q - 1) * per_page + (per_page - r)) by (nonlinear_arith)
            requires
                total == q * per_page + r,
        ;
        assert((-total) / per_page == -q - 1) by (nonlinear_arith)
            requires
                -total == (-q - 1) * per_page + (per_page - r),
                0 < per_page - r < per_page,
                per_page >= 1,
        ;
    }
}

/// Paging covers every post exactly: with at least one post, the pages
/// before the last hold fewer posts than there are, and all pages together
/// hold at least as many; with none, there are no pages.
pub proof fn lemma_pages_cover_posts(total: int, per_page: int)
    requires
        total >= 0,
        1 <= per_page,
    ensures
        total == 0 ==> page_count(total, per_page) == 0,
        total > 0 ==> (page_count(total, per_page) - 1) * per_page < total,
        total > 0 ==> total <= page_count(total, per_page) * per_page,
{
    lemma_page_count_whole(total, per_page);
    let q = total / per_page;
    let r = total % per_page;
    assert(total == q * per_page + r && 0 <= r < per_page) by (nonlinear_arith)
        requires
            per_page >= 1,
            q == total / per_page,
            r == total % per_page,
    ;
    if r == 0 {
        assert((q - 1) * per_page == total - per_page) by (nonlinear_arith)
            requires
                total == q * per_page,
        ;
    } else {
        assert((q + 1 - 1) * per_page == total - r) by (nonlinear_arith)
            requires
                total == q * per_page + r,
        ;
        assert((q + 1) * per_page == total + per_page - r) by (nonlinear_arith)
            requires
                total == q * per_page + r,
        ;
    }
}


/// The category filter: no category, or one whose upper-case form is `ALL`
/// (`ALL`, `All`, `all`, ...), lists every post; any other category lists the
/// posts of its upper-case form.
pub proof fn lemma_category_filter_rule(category: Option<String>)
    ensures
        category is None ==> category_filter(category) is None,
        category matches Some(c) ==> (category_filter(category) is None <==> unicode_uppercase(c@)
            == "ALL"@),
        category matches Some(c) ==> (unicode_uppercase(c@) != "ALL"@ ==> category_filter(category)
            == Some(unicode_uppercase(c@))),
{
}

/// `ALL` written in any mix of cases upper-cases, letter by letter, to `ALL`.
pub proof fn lemma_all_in_any_case(c: Seq<char>)
    requires
        c.len() == 3,
        c[0] == 'a' || c[0] == 'A',
        c[1] == 'l' || c[1] == 'L',
        c[2] == 'l' || c[2] == 'L',
    ensures
        all_ascii(c),
        c.map_values(|ch: char| ascii_upper(ch)) == "ALL"@,
{
    reveal_strlit("ALL");
    assert(c.map_values(|ch: char| ascii_upper(ch)) =~= "ALL"@);
}

/// The paging rules: the page is 1 when absent and never below 1; the page
/// size is 10 when absent and kept within 1..=50.
pub proof fn lemma_paging_rules(page: Option<i64>, per_page: Option<i64>)
    ensures
        page is None ==> effective_page(page) == 1,
        page matches Some(p) ==> effective_page(page) == (if p >= 1 {
            p as int
        } else {
            1
        }),
        per_page is None ==> effective_per_page(per_page) == 10,
        per_page matches Some(n) ==> effective_per_page(per_page) == (if n < 1 {
            1
        } else if n > 50 {
            50
        } else {
            n as int
        }),
        1 <= effective_page(page),
        1 <= effective_per_page(per_page) <= 50,
{
}

/// A request without an `x-api-key` header is never admitted; one with the
/// header is admitted exactly when it equals the key.
pub proof fn lemma_admin_key_rule(header: Option<String>, key: Seq<char>)
    ensures
        header is None ==> !presents_key(header, key),
        header matches Some(h) ==> (presents_key(header, key) <==> h@ == key),
{
}

} // verus!
