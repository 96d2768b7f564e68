//! The listing query planner: normalising the raw query of a user listing,
//! choosing the page window, and deriving the links to neighbouring pages.

use vstd::prelude::*;
use vstd::string::*;

use crate::auth::role_or_default;
use crate::text::{decimal, push_decimal};

verus! {

/// What `str::trim` returns for a string: the string without its leading and
/// trailing whitespace.
pub uninterp spec fn trimmed(s: Seq<char>) -> Seq<char>;

/// What `str::to_uppercase` returns for a string.
pub uninterp spec fn uppercased(s: Seq<char>) -> Seq<char>;

/// Relies on `str::trim`: the result depends on the characters alone.
#[verifier::external_body]
pub(crate) fn trim_str<'a>(s: &'a str) -> (r: &'a str)
    ensures
        r@ == trimmed(s@),
{
    s.trim()
}

/// Relies on `str::to_uppercase`: the result depends on the characters alone.
#[verifier::external_body]
pub(crate) fn uppercase_str(s: &str) -> (r: String)
    ensures
        r@ == uppercased(s@),
{
    s.to_uppercase()
}

/// The raw, untrusted query of a user listing; every part may be missing.
/// `role_code` is an older name of `role`, read only where `role` is missing.
pub struct ListUsersQuery {
    pub search: Option<String>,
    pub role: Option<String>,
    pub role_code: Option<String>,
    pub page: Option<i32>,
    pub page_size: Option<i32>,
}

/// Which of the two optional predicates a listing query carries.
#[derive(PartialEq, Eq, Structural, Clone, Copy, Debug)]
pub enum QueryShape {
    Unfiltered,
    BySearch,
    ByRole,
    BySearchAndRole,
}

/// A normalised listing request: filters and page window.
pub struct ListPlan {
    pub search: Option<String>,
    pub role: Option<String>,
    pub page: i64,
    pub page_size: i64,
    pub offset: i64,
}

/// The mathematical content of a [`ListPlan`].
pub ghost struct PlanView {
    pub search: Option<Seq<char>>,
    pub role: Option<Seq<char>>,
    pub page: int,
    pub page_size: int,
    pub offset: int,
}

/// The view of an optional string.
pub open spec fn opt_view(o: Option<String>) -> Option<Seq<char>> {
    match o {
        Some(s) => Some(s@),
        None => None,
    }
}

impl View for ListPlan {
    type V = PlanView;

    open spec fn view(&self) -> PlanView {
        PlanView {
            search: opt_view(self.search),
            role: opt_view(self.role),
            page: self.page as int,
            page_size: self.page_size as int,
            offset: self.offset as int,
        }
    }
}

/// The role codes a listing can be filtered by.
pub open spec fn is_valid_role(r: Seq<char>) -> bool {
    r == "ADMIN"@ || r == "SHOPKEEPER"@ || r == "CUSTOMER"@
}

/// The search text: the raw text trimmed, absent where nothing is left.
pub open spec fn normalized_search(raw: Option<Seq<char>>) -> Option<Seq<char>> {
    match raw {
        Some(s) => if trimmed(s).len() == 0 {
            None
        } else {
            Some(trimmed(s))
        },
        None => None,
    }
}

/// The role filter: the raw role trimmed and upper-cased where that is a valid
/// role code, else absent.
pub open spec fn normalized_role(raw: Option<Seq<char>>) -> Option<Seq<char>> {
    match raw {
        Some(s) => if is_valid_role(uppercased(trimmed(s))) {
            Some(uppercased(trimmed(s)))
        } else {
            None
        },
        None => None,
    }
}

/// The requested page, at least 1, and 1 where missing.
pub open spec fn page_of(raw: Option<i32>) -> int {
    match raw {
        Some(p) => if p < 1 {
            1
        } else {
            p as int
        },
        None => 1,
    }
}

/// The requested page size, clamped into `1..=100`, and 10 where missing.
pub open spec fn page_size_of(raw: Option<i32>) -> int {
    match raw {
        Some(s) => if s < 1 {
            1
        } else if s > 100 {
            100
        } else {
            s as int
        },
        None => 10,
    }
}

/// The plan of a listing, from the raw search text, the raw role, and the raw
/// page and page size.
pub open spec fn plan_of(
    search: Option<Seq<char>>,
    role: Option<Seq<char>>,
    page: Option<i32>,
    page_size: Option<i32>,
) -> PlanView {
    PlanView {
        search: normalized_search(search),
        role: normalized_role(role),
        page: page_of(page),
        page_size: page_size_of(page_size),
        offset: (page_of(page) - 1) * page_size_of(page_size),
    }
}

/// The role the query asks for: `role`, or `role_code` where `role` is missing.
pub open spec fn requested_role(q: &ListUsersQuery) -> Option<Seq<char>> {
    match q.role {
        Some(r) => Some(r@),
        None => opt_view(q.role_code),
    }
}

/// The plan owed to a raw query.
pub open spec fn query_plan(q: &ListUsersQuery) -> PlanView {
    plan_of(opt_view(q.search), requested_role(q), q.page, q.page_size)
}

/// The relative query string that selects a page of a given size.
pub open spec fn page_link(page: int, page_size: int) -> Seq<char> {
    "?page="@ + decimal(page as nat) + "&page_size="@ + decimal(page_size as nat)
}

/// The link to the next page: present iff rows remain past this page.
pub open spec fn next_link_of(p: PlanView, n_rows: int, total: int) -> Option<Seq<char>> {
    if p.offset + n_rows < total {
        Some(page_link(p.page + 1, p.page_size))
    } else {
        None
    }
}

/// The link to the previous page: present iff this is not the first page.
pub open spec fn previous_link_of(p: PlanView) -> Option<Seq<char>> {
    if p.page > 1 {
        Some(page_link(p.page - 1, p.page_size))
    } else {
        None
    }
}

/// The query form of a plan: which predicates it carries.
pub open spec fn shape_of(p: PlanView) -> QueryShape {
    match (p.search, p.role) {
        (None, None) => QueryShape::Unfiltered,
        (Some(_), None) => QueryShape::BySearch,
        (None, Some(_)) => QueryShape::ByRole,
        (Some(_), Some(_)) => QueryShape::BySearchAndRole,
    }
}

impl ListPlan {
    /// The page is positive, the page size in `1..=100`, and the offset skips the earlier pages.
    pub open spec fn wf(&self) -> bool {
        1 <= self.page <= i32::MAX && 1 <= self.page_size <= 100 && self.offset == (
        self.page - 1) * self.page_size
    }

    /// Which of the four query forms fits this plan.
    pub fn shape(&self) -> (r: QueryShape)
        ensures
            r == shape_of(self@),
    {
        match (&self.search, &self.role) {
            (None, None) => QueryShape::Unfiltered,
            (Some(_), None) => QueryShape::BySearch,
            (None, Some(_)) => QueryShape::ByRole,
            (Some(_), Some(_)) => QueryShape::BySearchAndRole,
        }
    }
}

/// A character written so that `LIKE` reads it literally.
pub open spec fn like_char(c: char) -> Seq<char> {
    if c == '%' || c == '_' || c == '\\' {
        seq!['\\', c]
    } else {
        seq![c]
    }
}

/// A text written so that `LIKE` matches it literally.
pub open spec fn like_escaped(s: Seq<char>) -> Seq<char>
    decreases s.len(),
{
    if s.len() == 0 {
        Seq::empty()
    } else {
        like_escaped(s.drop_last()) + like_char(s.last())
    }
}

fn escape_like(s: &str) -> (r: String)
    ensures
        r@ == like_escaped(s@),
{
    let n = s.unicode_len();
    let mut out = String::new();
    let mut i: usize = 0;
    proof {
        reveal_strlit("\\");
    }
    assert(s@.subrange(0, 0) =~= Seq::<char>::empty());
    while i < n
        invariant
            n == s@.len(),
            0 <= i <= n,
            out@ == like_escaped(s@.subrange(0, i as int)),
            "\\"@ == seq!['\\'],
        decreases n - i,
    {
        let c = s.get_char(i);
        let ghost pre = s@.subrange(0, i + 1);
        assert(pre.drop_last() =~= s@.subrange(0, i as int));
        assert(pre.last() == c);
        if c == '%' || c == '_' || c == '\\' {
            out.append("\\");
        }
        let piece = s.substring_char(i, i + 1);
        assert(piece@ =~= seq![c]);
        out.append(piece);
        assert(out@ =~= like_escaped(pre));
        i = i + 1;
    }
    assert(s@.subrange(0, n as int) =~= s@);
    out
}

fn valid_role_code(r: &String) -> (b: bool)
    ensures
        b == is_valid_role(r@),
{
    let admin = String::from_str("ADMIN");
    let shopkeeper = String::from_str("SHOPKEEPER");
    let customer = String::from_str("CUSTOMER");
    *r == admin || *r == shopkeeper || *r == customer
}

fn normalize_search(raw: &Option<String>) -> (r: Option<String>)
    ensures
        opt_view(r) == normalized_search(opt_view(*raw)),
{
    match raw {
        Some(s) => {
            let t = trim_str(s.as_str());
            if t.is_empty() {
                None
            } else {
                Some(String::from_str(t))
            }
        },
        None => None,
    }
}

fn normalize_role(raw: Option<&String>) -> (r: Option<String>)
    ensures
        opt_view(r) == normalized_role(
            match raw {
                Some(s) => Some(s@),
                None => None,
            },
        ),
{
    match raw {
        Some(s) => {
            let u = uppercase_str(trim_str(s.as_str()));
            if valid_role_code(&u) {
                Some(u)
            } else {
                None
            }
        },
        None => None,
    }
}

/// Normalises a raw listing query into filters and a page window. Out-of-range
/// pages and page sizes are clamped and an unknown role is dropped: planning
/// never fails.
pub fn plan(q: &ListUsersQuery) -> (p: ListPlan)
    ensures
        p.wf(),
        p@ == query_plan(q),
{
    let search = normalize_search(&q.search);
    let raw_role = match &q.role {
        Some(r) => Some(r),
        None => q.role_code.as_ref(),
    };
    let role = normalize_role(raw_role);
    let page: i64 = match q.page {
        Some(n) => if n < 1 {
            1
        } else {
            n as i64
        },
        None => 1,
    };
    let page_size: i64 = match q.page_size {
        Some(n) => if n < 1 {
            1
        } else if n > 100 {
            100
        } else {
            n as i64
        },
        None => 10,
    };
    assert(0 <= (page - 1) * page_size <= i32::MAX * 100) by (nonlinear_arith)
        requires
            1 <= page <= i32::MAX,
            1 <= page_size <= 100,
    ;
    let offset = (page - 1) * page_size;
    ListPlan { search, role, page, page_size, offset }
}

fn make_page_link(page: i64, page_size: i64) -> (r: String)
    requires
        page >= 0,
        page_size >= 0,
    ensures
        r@ == page_link(page as int, page_size as int),
{
    let mut r = String::from_str("?page=");
    push_decimal(&mut r, page as u64);
    r.append("&page_size=");
    push_decimal(&mut r, page_size as u64);
    r
}

impl ListPlan {
    /// The link to the page after this one, given how many rows this page
    /// holds and how many match in all.
    pub fn next_link(&self, n_rows: usize, total: i64) -> (r: Option<String>)
        requires
            self.wf(),
        ensures
            opt_view(r) == next_link_of(self@, n_rows as int, total as int),
    {
        if (n_rows as i128) + (self.offset as i128) < total as i128 {
            Some(make_page_link(self.page + 1, self.page_size))
        } else {
            None
        }
    }

    /// The link to the page before this one.
    pub fn previous_link(&self) -> (r: Option<String>)
        requires
            self.wf(),
        ensures
            opt_view(r) == previous_link_of(self@),
    {
        if self.page > 1 {
            Some(make_page_link(self.page - 1, self.page_size))
        } else {
            None
        }
    }
}


/// One row of a listing: a user's id, name and role.
pub struct UserRow {
    pub id: i64,
    pub username: String,
    pub role: String,
}

impl UserRow {
    /// The row of a stored user; a user with no stored role is a `CUSTOMER`.
    pub fn from_record(id: i64, username: String, role: Option<String>) -> (r: UserRow)
        ensures
            r.id == id,
            r.username@ == username@,
            r.role@ == role_or_default(opt_view(role)),
    {
        let role = match role {
            Some(x) => x,
            None => String::from_str("CUSTOMER"),
        };
        UserRow { id, username, role }
    }
}

/// A page of a listing, with the number of matching users and the links to
/// the neighbouring pages.
pub struct UserListing {
    pub results: Vec<UserRow>,
    pub count: i64,
    pub next: Option<String>,
    pub previous: Option<String>,
}

impl ListPlan {
    /// The `LIKE` pattern that matches usernames holding the search text as a
    /// plain substring: its `%`, `_` and backslash are escaped with a backslash.
    pub fn search_pattern(&self) -> (r: Option<String>)
        ensures
            match self.search {
                Some(s) => r matches Some(p) && p@ == "%"@ + like_escaped(s@) + "%"@,
                None => r is None,
            },
    {
        match &self.search {
            Some(s) => {
                let mut p = String::from_str("%");
                let e = escape_like(s.as_str());
                p.append(e.as_str());
                p.append("%");
                Some(p)
            },
            None => None,
        }
    }

    /// Puts together the page from what the store returned: the number of
    /// matching users and the rows of this page. Where either step failed the
    /// page is empty with a count of 0; the listing itself never fails.
    pub fn assemble(&self, count: Option<i64>, rows: Option<Vec<UserRow>>) -> (r: UserListing)
        requires
            self.wf(),
        ensures
            match (count, rows) {
                (Some(n), Some(v)) => r.count == n && r.results@ == v@,
                _ => r.count == 0 && r.results@.len() == 0,
            },
            opt_view(r.next) == next_link_of(self@, r.results@.len() as int, r.count as int),
            opt_view(r.previous) == previous_link_of(self@),
    {
        let (total, results): (i64, Vec<UserRow>) = match (count, rows) {
            (Some(n), Some(v)) => (n, v),
            _ => (0, Vec::new()),
        };
        let next = self.next_link(results.len(), total);
        let previous = self.previous_link();
        UserListing { results, count: total, next, previous }
    }
}

/// Offsets depend on the page and the page size alone: page 3 of 20 rows
/// starts after 40 rows, whatever the filters.
pub proof fn offset_ignores_filters(search: Option<Seq<char>>, role: Option<Seq<char>>)
    ensures
        plan_of(search, role, Some(3i32), Some(20i32)).offset == 40,
{
    assert(page_of(Some(3i32)) == 3);
    assert(page_size_of(Some(20i32)) == 20);
}

/// A role outside the valid role codes is dropped: the plan is the one made
/// with no role at all.
pub proof fn unknown_role_is_ignored(
    search: Option<Seq<char>>,
    role: Seq<char>,
    page: Option<i32>,
    page_size: Option<i32>,
)
    requires
        !is_valid_role(uppercased(trimmed(role))),
    ensures
        plan_of(search, Some(role), page, page_size) == plan_of(search, None, page, page_size),
{
}

/// Clamping: the page is at least 1 and the page size lies in `1..=100`.
pub proof fn plan_is_clamped(
    search: Option<Seq<char>>,
    role: Option<Seq<char>>,
    page: Option<i32>,
    page_size: Option<i32>,
)
    ensures
        plan_of(search, role, page, page_size).page >= 1,
        1 <= plan_of(search, role, page, page_size).page_size <= 100,
        plan_of(search, role, page, page_size).offset >= 0,
{
    let p = plan_of(search, role, page, page_size);
    assert(p.offset >= 0) by (nonlinear_arith)
        requires
            p.page >= 1,
            p.page_size >= 1,
            p.offset == (p.page - 1) * p.page_size,
    ;
}

} // verus!
