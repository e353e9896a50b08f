//! Problem-content, ranking and account models that surround the judging
//! core: the shapes of what collaborators hand in and what pages show.

use vstd::prelude::*;

use crate::text::str_eq;

verus! {

/// A problem's metadata from its content file's front matter: title, time
/// limit in milliseconds, memory limit in megabytes, tags.
pub struct ProblemMeta {
    pub title: String,
    pub time_limit: u32,
    pub memory_limit: u32,
    pub tags: Vec<String>,
}

/// A problem's full detail page payload.
pub struct ProblemDetail {
    pub id: i64,
    pub meta: ProblemMeta,
    pub content: String,
    pub example_inputs: Vec<String>,
    pub example_outputs: Vec<String>,
    pub total_submits: i64,
    pub correct_submits: i64,
    pub accuracy: String,
}

/// The raw front-matter fields of a problem's content file.
pub struct FrontMatter {
    pub title: String,
    pub time_limit: u32,
    pub memory_limit: u32,
    pub tags: Vec<String>,
}

/// A login attempt's credentials.
pub struct Credentials {
    pub username: String,
    pub password: String,
}

/// The ranking page's query parameters.
pub struct RankingsQuery {
    pub user_type: String,
    pub organization_id: Option<i64>,
    pub view_type: Option<String>,
    pub sort_by: Option<String>,
    pub sort_order: Option<String>,
}

/// One line of the user ranking table.
pub struct RankingEntry {
    pub rank: i64,
    pub username: String,
    pub rating: i32,
    pub solved_count: i64,
    pub user_type: String,
}

/// The user-type filter a ranking query falls back to when none is given.
pub fn default_user_type() -> (r: String)
    ensures
        r@ == "all"@,
{
    String::from_str("all")
}

/// The organization-ranking sort column a query selects; anything
/// unrecognised falls back to the average rating.
pub open spec fn spec_org_sort_column(sort_by: Seq<char>) -> Seq<char> {
    if sort_by == "member_count"@ {
        "member_count"@
    } else if sort_by == "total_rating"@ {
        "total_rating"@
    } else if sort_by == "total_solved"@ {
        "total_solved"@
    } else {
        "avg_rating"@
    }
}

/// Selects the organization-ranking sort column.
pub fn org_sort_column(sort_by: &str) -> (r: &'static str)
    ensures
        r@ == spec_org_sort_column(sort_by@),
{
    if str_eq(sort_by, "member_count") {
        "member_count"
    } else if str_eq(sort_by, "total_rating") {
        "total_rating"
    } else if str_eq(sort_by, "total_solved") {
        "total_solved"
    } else {
        "avg_rating"
    }
}

/// The sort direction a query selects: ascending only when asked for.
pub fn sort_direction(sort_order: &str) -> (r: &'static str)
    ensures
        sort_order@ == "asc"@ ==> r@ == "ASC"@,
        sort_order@ != "asc"@ ==> r@ == "DESC"@,
{
    if str_eq(sort_order, "asc") {
        "ASC"
    } else {
        "DESC"
    }
}

/// A list page's window: the row offset of `page` (numbered from one) and
/// the number of pages `total` rows fill.
pub fn page_window(page: i64, per_page: i64, total: i64) -> (r: (i64, i64))
    requires
        1 <= page,
        1 <= per_page,
        0 <= total,
        (page - 1) * per_page <= i64::MAX,
        total + per_page <= i64::MAX,
    ensures
        r.0 as int == (page as int - 1) * (per_page as int),
        r.1 as int == (total as int + per_page as int - 1) / (per_page as int),
{
    let offset = (page - 1) * per_page;
    let pages = (((total + per_page - 1) as u64) / (per_page as u64)) as i64;
    (offset, pages)
}

} // verus!
