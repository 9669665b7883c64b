//! The dashboard statistics, assembled from the answers of the store; a
//! query that fails counts as empty.
use vstd::prelude::*;

verus! {

/// How many posts one category holds.
#[derive(Debug, Clone, PartialEq, Eq)]
pub struct CategoryCount {
    pub name: String,
    pub count: i64,
}

/// One of the most viewed posts.
#[derive(Debug, Clone, PartialEq, Eq)]
pub struct TopPost {
    pub slug: String,
    pub title: String,
    pub views: i64,
    pub category: String,
}

/// The answer of `GET /api/dashboard/stats`.
#[derive(Debug, Clone, PartialEq, Eq)]
pub struct DashboardStats {
    pub total_posts: i64,
    pub total_views: i64,
    pub categories: Vec<CategoryCount>,
    pub latest_post_date: Option<String>,
    pub top_posts: Vec<TopPost>,
}

/// The rows a query answered with, or none when it failed.
pub open spec fn rows_or_none<T>(rows: Option<Vec<T>>) -> Seq<T> {
    match rows {
        Some(v) => v@,
        None => Seq::empty(),
    }
}

/// The statistics from the answers of the five queries (`None` for a query
/// that failed): the post count, the view total, the `(category, count)`
/// rows, the latest post's date (`Some(None)` when there is no post), and the
/// `(slug, title, views, category)` rows of the most viewed posts.
pub fn dashboard_stats(
    total: Option<i64>,
    total_views: Option<i64>,
    category_rows: Option<Vec<(String, i64)>>,
    latest: Option<Option<String>>,
    top_rows: Option<Vec<(String, String, i64, String)>>,
) -> (s: DashboardStats)
    ensures
        s.total_posts == match total {
            Some(n) => n,
            None => 0,
        },
        s.total_views == match total_views {
            Some(n) => n,
            None => 0,
        },
        s.latest_post_date == match latest {
            Some(d) => d,
            None => None,
        },
        s.categories.len() == rows_or_none(category_rows).len(),
        forall|i: int|
            0 <= i < s.categories.len() ==> {
                &&& (#[trigger] s.categories@[i]).name == rows_or_none(category_rows)[i].0
                &&& s.categories@[i].count == rows_or_none(category_rows)[i].1
            },
        s.top_posts.len() == rows_or_none(top_rows).len(),
        forall|i: int|
            0 <= i < s.top_posts.len() ==> {
                &&& (#[trigger] s.top_posts@[i]).slug == rows_or_none(top_rows)[i].0
                &&& s.top_posts@[i].title == rows_or_none(top_rows)[i].1
                &&& s.top_posts@[i].views == rows_or_none(top_rows)[i].2
                &&& s.top_posts@[i].category == rows_or_none(top_rows)[i].3
            },
{
    let ghost cats = rows_or_none(category_rows);
    let ghost tops = rows_or_none(top_rows);
    let category_rows = match category_rows {
        Some(rows) => rows,
        None => Vec::new(),
    };
    let mut categories: Vec<CategoryCount> = Vec::new();
    for row in it: category_rows.into_iter()
        invariant
            it.seq() == cats,
            categories.len() == it.index(),
            forall|i: int|
                0 <= i < it.index() ==> {
                    &&& (#[trigger] categories@[i]).name == cats[i].0
                    &&& categories@[i].count == cats[i].1
                },
    {
        let (name, count) = row;
        categories.push(CategoryCount { name, count });
    }
    let top_rows = match top_rows {
        Some(rows) => rows,
        None => Vec::new(),
    };
    let mut top_posts: Vec<TopPost> = Vec::new();
    for row in it: top_rows.into_iter()
        invariant
            it.seq() == tops,
            top_posts.len() == it.index(),
            forall|i: int|
                0 <= i < it.index() ==> {
                    &&& (#[trigger] top_posts@[i]).slug == tops[i].0
                    &&& top_posts@[i].title == tops[i].1
                    &&& top_posts@[i].views == tops[i].2
                    &&& top_posts@[i].category == tops[i].3
                },
    {
        let (slug, title, views, category) = row;
        top_posts.push(TopPost { slug, title, views, category });
    }
    DashboardStats {
        total_posts: match total {
            Some(n) => n,
            None => 0,
        },
        total_views: match total_views {
            Some(n) => n,
            None => 0,
        },
        categories,
        latest_post_date: match latest {
            Some(d) => d,
            None => None,
        },
        top_posts,
    }
}

} // verus!
