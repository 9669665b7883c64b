use pavkhemerak_api::error::ApiError;
use pavkhemerak_api::models::blog::{
    default_category, default_category_color, default_read_time, BlogPostRow, CreateBlogPost,
    UpdateBlogPost,
};
use pavkhemerak_api::routes::blog::{
    category_names, check_admin, list_response, merge_update, new_post, new_post_record,
    plan_list, plan_update, post_or_not_found, require_match, ListParams, ListQuery,
};

fn row(slug: &str, tags: &str) -> BlogPostRow {
    BlogPostRow {
        id: "id-1".into(),
        slug: slug.into(),
        title: "Title".into(),
        excerpt: "Excerpt".into(),
        content: "## Body".into(),
        date: "2024-11-01".into(),
        read_time: "3 min read".into(),
        category: "CTF".into(),
        category_color: "border".into(),
        image_url: Some("https://img".into()),
        image_alt: None,
        tags: tags.into(),
        code_snippet: None,
        views: 7,
        created_at: "2024-11-01 10:00:00".into(),
        updated_at: "2024-11-01 10:00:00".into(),
    }
}

fn create_body() -> CreateBlogPost {
    CreateBlogPost {
        slug: "my-first-post".into(),
        title: "My First Post".into(),
        excerpt: "A brief introduction.".into(),
        content: "## Hello World\n\nThis is my first blog post.".into(),
        date: "2024-11-01".into(),
        read_time: default_read_time(),
        category: default_category(),
        category_color: default_category_color(),
        image_url: None,
        image_alt: None,
        tags: vec!["intro".into(), "blog \"quoted\"".into()],
        code_snippet: None,
    }
}

fn empty_update() -> UpdateBlogPost {
    UpdateBlogPost {
        title: None,
        excerpt: None,
        content: None,
        date: None,
        read_time: None,
        category: None,
        category_color: None,
        image_url: None,
        image_alt: None,
        tags: None,
        code_snippet: None,
    }
}

#[test]
fn defaults_match_the_schema() {
    assert_eq!(default_read_time(), "5 min read");
    assert_eq!(default_category(), "GENERAL");
    assert_eq!(default_category_color(), "border-outline-variant text-on-surface-variant");
}

#[test]
fn summary_reads_tags_from_json() {
    let s = row("a", "[\"rust\",\"ctf\"]").into_summary();
    assert_eq!(s.tags, vec!["rust".to_string(), "ctf".to_string()]);
    assert_eq!(s.views, 7);
    assert_eq!(s.slug, "a");
}

#[test]
fn summary_of_unreadable_tags_is_empty() {
    assert!(row("a", "not json").into_summary().tags.is_empty());
    assert!(row("a", "{\"a\":1}").into_summary().tags.is_empty());
}

#[test]
fn detail_keeps_content() {
    let d = row("a", "[]").into_detail();
    assert_eq!(d.content, "## Body");
    assert_eq!(d.summary.title, "Title");
    assert!(d.summary.tags.is_empty());
}

#[test]
fn list_defaults_to_first_page_of_ten() {
    let q = plan_list(&ListParams { page: None, per_page: None, category: None }).unwrap();
    assert_eq!(q, ListQuery { page: 1, per_page: 10, offset: 0, category: None });
}

#[test]
fn list_clamps_page_and_size() {
    let q = plan_list(&ListParams { page: Some(-3), per_page: Some(100), category: None }).unwrap();
    assert_eq!((q.page, q.per_page, q.offset), (1, 50, 0));
    let q = plan_list(&ListParams { page: Some(3), per_page: Some(0), category: None }).unwrap();
    assert_eq!((q.page, q.per_page, q.offset), (3, 1, 2));
    let q = plan_list(&ListParams { page: Some(4), per_page: Some(25), category: None }).unwrap();
    assert_eq!(q.offset, 75);
}

#[test]
fn list_offset_overflow_is_refused() {
    assert!(plan_list(&ListParams { page: Some(i64::MAX), per_page: Some(50), category: None }).is_none());
    assert!(plan_list(&ListParams { page: Some(i64::MAX), per_page: Some(1), category: None }).is_some());
}

#[test]
fn list_category_filter_is_upper_case_and_all_means_none() {
    let q = plan_list(&ListParams { page: None, per_page: None, category: Some("ctf".into()) }).unwrap();
    assert_eq!(q.category, Some("CTF".to_string()));
    let q = plan_list(&ListParams { page: None, per_page: None, category: Some("all".into()) }).unwrap();
    assert_eq!(q.category, None);
}

#[test]
fn list_response_counts_pages() {
    let q = ListQuery { page: 2, per_page: 10, offset: 10, category: None };
    let r = list_response(vec![row("a", "[]"), row("b", "[\"x\"]")], 12, &q);
    assert_eq!(r.total_pages, 2);
    assert_eq!(r.posts.len(), 2);
    assert_eq!(r.posts[1].slug, "b");
    assert_eq!(r.posts[1].tags, vec!["x".to_string()]);
    assert_eq!((r.total, r.page, r.per_page), (12, 2, 10));
    assert_eq!(list_response(vec![], 0, &q).total_pages, 0);
    assert_eq!(list_response(vec![], 10, &q).total_pages, 1);
    assert_eq!(list_response(vec![], 11, &q).total_pages, 2);
}

#[test]
fn pages_cover_posts_on_samples() {
    for per_page in 1..=50i64 {
        let q = ListQuery { page: 1, per_page, offset: 0, category: None };
        for total in 1..=200i64 {
            let pages = list_response(vec![], total, &q).total_pages;
            assert!((pages - 1) * per_page < total && total <= pages * per_page);
        }
    }
}

#[test]
fn admin_key_must_match() {
    assert_eq!(check_admin(&Some("secret".into()), "secret"), Ok(()));
    assert_eq!(check_admin(&Some("wrong".into()), "secret"), Err(ApiError::Unauthorized));
    assert_eq!(check_admin(&None, "secret"), Err(ApiError::Unauthorized));
    assert_eq!(check_admin(&None, ""), Err(ApiError::Unauthorized));
    assert_eq!(check_admin(&Some(String::new()), ""), Ok(()));
}

#[test]
fn missing_post_is_not_found() {
    assert_eq!(
        post_or_not_found("nope", None),
        Err(ApiError::NotFound("Post 'nope' not found".into()))
    );
    assert_eq!(post_or_not_found("a", Some(row("a", "[]"))).unwrap().summary.slug, "a");
    assert_eq!(require_match("gone", 0), Err(ApiError::NotFound("Post 'gone' not found".into())));
    assert_eq!(require_match("here", 1), Ok(()));
}

#[test]
fn categories_keep_order() {
    let names = category_names(vec![("CTF".into(),), ("GENERAL".into(),)]);
    assert_eq!(names, vec!["CTF".to_string(), "GENERAL".to_string()]);
}

#[test]
fn created_post_reads_back() {
    let body = create_body();
    let rec = new_post_record("fixed-id".into(), body.clone());
    assert_eq!(rec.id, "fixed-id");
    assert_eq!(rec.tags, "[\"intro\",\"blog \\\"quoted\\\"\"]");
    let stored = BlogPostRow {
        id: rec.id.clone(),
        slug: rec.slug.clone(),
        title: rec.title.clone(),
        excerpt: rec.excerpt.clone(),
        content: rec.content.clone(),
        date: rec.date.clone(),
        read_time: rec.read_time.clone(),
        category: rec.category.clone(),
        category_color: rec.category_color.clone(),
        image_url: rec.image_url.clone(),
        image_alt: rec.image_alt.clone(),
        tags: rec.tags.clone(),
        code_snippet: rec.code_snippet.clone(),
        views: 0,
        created_at: "now".into(),
        updated_at: "now".into(),
    };
    let d = stored.into_detail();
    assert_eq!(d.summary.tags, body.tags);
    assert_eq!(d.content, body.content);
    assert_eq!(d.summary.read_time, "5 min read");
    assert_eq!(d.summary.views, 0);
}

#[test]
fn new_posts_get_fresh_hyphenated_ids() {
    let a = new_post(create_body());
    let b = new_post(create_body());
    assert_eq!(a.id.len(), 36);
    assert_eq!(&a.id[8..9], "-");
    assert_eq!(&a.id[14..15], "4");
    assert!("89ab".contains(&a.id[19..20]));
    assert!(a.id.chars().enumerate().all(|(i, c)| [8, 13, 18, 23].contains(&i) || c.is_ascii_digit() || ('a'..='f').contains(&c)));
    assert_ne!(a.id, b.id);
    assert_eq!(a.slug, "my-first-post");
}

#[test]
fn empty_update_keeps_everything() {
    let existing = row("a", "[\"rust\"]");
    let c = merge_update(existing.clone(), empty_update());
    assert_eq!(c.title, existing.title);
    assert_eq!(c.tags, existing.tags);
    assert_eq!(c.image_url, existing.image_url);
    assert_eq!(c.code_snippet, None);
}

#[test]
fn update_replaces_given_fields() {
    let existing = row("a", "[\"rust\"]");
    let mut body = empty_update();
    body.title = Some("New".into());
    body.tags = Some(vec!["x".into()]);
    body.code_snippet = Some("fn main() {}".into());
    let c = merge_update(existing.clone(), body);
    assert_eq!(c.title, "New");
    assert_eq!(c.tags, "[\"x\"]");
    assert_eq!(c.code_snippet, Some("fn main() {}".to_string()));
    assert_eq!(c.excerpt, existing.excerpt);
    assert_eq!(c.image_url, existing.image_url);
}

#[test]
fn update_of_missing_post_is_not_found() {
    assert_eq!(
        plan_update("ghost", None, empty_update()),
        Err(ApiError::NotFound("Post 'ghost' not found".into()))
    );
    assert!(plan_update("a", Some(row("a", "[]")), empty_update()).is_ok());
}
