use user_auth_api::listing::{plan, ListPlan, ListUsersQuery, QueryShape, UserRow};

fn query(
    search: Option<&str>,
    role: Option<&str>,
    page: Option<i32>,
    page_size: Option<i32>,
) -> ListUsersQuery {
    ListUsersQuery {
        search: search.map(|s| s.to_string()),
        role: role.map(|s| s.to_string()),
        role_code: None,
        page,
        page_size,
    }
}

fn store(n: i64) -> Vec<UserRow> {
    (1..=n)
        .map(|id| UserRow {
            id,
            username: format!("user{}", id),
            role: "CUSTOMER".to_string(),
        })
        .collect()
}

fn fetch(all: &[UserRow], p: &ListPlan) -> Vec<UserRow> {
    all.iter()
        .skip(p.offset as usize)
        .take(p.page_size as usize)
        .map(|r| UserRow {
            id: r.id,
            username: r.username.clone(),
            role: r.role.clone(),
        })
        .collect()
}

#[test]
fn offset_of_third_page_of_twenty() {
    for (s, r) in [
        (None, None),
        (Some("bob"), None),
        (None, Some("ADMIN")),
        (Some("bob"), Some("admin")),
    ] {
        let p = plan(&query(s, r, Some(3), Some(20)));
        assert_eq!(p.offset, 40);
        assert_eq!(p.page, 3);
        assert_eq!(p.page_size, 20);
    }
}

#[test]
fn page_size_zero_clamps_to_one() {
    assert_eq!(plan(&query(None, None, None, Some(0))).page_size, 1);
}

#[test]
fn page_size_500_clamps_to_100() {
    assert_eq!(plan(&query(None, None, None, Some(500))).page_size, 100);
}

#[test]
fn negative_page_clamps_to_one() {
    let p = plan(&query(None, None, Some(-5), None));
    assert_eq!(p.page, 1);
    assert_eq!(p.offset, 0);
}

#[test]
fn defaults_when_missing() {
    let p = plan(&query(None, None, None, None));
    assert_eq!(p.page, 1);
    assert_eq!(p.page_size, 10);
    assert_eq!(p.offset, 0);
    assert_eq!(p.shape(), QueryShape::Unfiltered);
    assert!(p.search_pattern().is_none());
}

#[test]
fn largest_page_does_not_overflow() {
    let p = plan(&query(None, None, Some(i32::MAX), Some(100)));
    assert_eq!(p.offset, (i32::MAX as i64 - 1) * 100);
    assert_eq!(p.previous_link(), Some(format!("?page={}&page_size=100", i32::MAX - 1)));
}

#[test]
fn twenty_five_users_first_page() {
    let all = store(25);
    let p = plan(&query(None, None, Some(1), Some(10)));
    let page = p.assemble(Some(25), Some(fetch(&all, &p)));
    assert_eq!(page.count, 25);
    assert_eq!(page.results.len(), 10);
    assert_eq!(page.results[0].id, 1);
    assert_eq!(page.previous, None);
    assert_eq!(page.next, Some("?page=2&page_size=10".to_string()));
}

#[test]
fn twenty_five_users_third_page() {
    let all = store(25);
    let p = plan(&query(None, None, Some(3), Some(10)));
    let page = p.assemble(Some(25), Some(fetch(&all, &p)));
    assert_eq!(page.count, 25);
    assert_eq!(page.results.len(), 5);
    assert_eq!(page.results[0].id, 21);
    assert_eq!(page.next, None);
    assert_eq!(page.previous, Some("?page=2&page_size=10".to_string()));
}

#[test]
fn store_failure_degrades_to_empty_page() {
    let p = plan(&query(None, None, Some(2), Some(10)));
    let page = p.assemble(None, None);
    assert_eq!(page.count, 0);
    assert!(page.results.is_empty());
    assert_eq!(page.next, None);
    assert_eq!(page.previous, Some("?page=1&page_size=10".to_string()));
}

#[test]
fn unknown_role_equals_unfiltered_plan() {
    let with_role = plan(&query(Some("ann"), Some("wizard"), Some(2), Some(5)));
    let without = plan(&query(Some("ann"), None, Some(2), Some(5)));
    assert_eq!(with_role.role, None);
    assert_eq!(with_role.search, without.search);
    assert_eq!(with_role.offset, without.offset);
    assert_eq!(with_role.page_size, without.page_size);
    assert_eq!(with_role.shape(), without.shape());
    assert_eq!(with_role.shape(), QueryShape::BySearch);
}

#[test]
fn role_is_trimmed_and_uppercased() {
    let p = plan(&query(None, Some("  shopkeeper "), None, None));
    assert_eq!(p.role, Some("SHOPKEEPER".to_string()));
    assert_eq!(p.shape(), QueryShape::ByRole);
}

#[test]
fn role_code_used_when_role_missing() {
    let q = ListUsersQuery {
        search: None,
        role: None,
        role_code: Some("admin".to_string()),
        page: None,
        page_size: None,
    };
    assert_eq!(plan(&q).role, Some("ADMIN".to_string()));
}

#[test]
fn search_is_trimmed_and_blank_dropped() {
    let p = plan(&query(Some("  bob  "), Some("customer"), None, None));
    assert_eq!(p.search, Some("bob".to_string()));
    assert_eq!(p.search_pattern(), Some("%bob%".to_string()));
    assert_eq!(p.shape(), QueryShape::BySearchAndRole);
    let blank = plan(&query(Some("   "), None, None, None));
    assert_eq!(blank.search, None);
}

#[test]
fn next_link_only_when_rows_remain() {
    let p = plan(&query(None, None, Some(2), Some(10)));
    assert_eq!(p.next_link(10, 30), Some("?page=3&page_size=10".to_string()));
    assert_eq!(p.next_link(10, 20), None);
}

#[test]
fn search_pattern_escapes_wildcards() {
    let p = plan(&query(Some("a_b%c\\d"), None, None, None));
    assert_eq!(p.search_pattern(), Some("%a\\_b\\%c\\\\d%".to_string()));
}

#[test]
fn failed_fetch_with_count_gives_empty_page() {
    let p = plan(&query(None, None, Some(1), Some(10)));
    let page = p.assemble(Some(25), None);
    assert_eq!(page.count, 0);
    assert!(page.results.is_empty());
    assert_eq!(page.next, None);
    let page = p.assemble(None, Some(store(3)));
    assert_eq!(page.count, 0);
    assert!(page.results.is_empty());
}

#[test]
fn row_without_role_is_customer() {
    let r = UserRow::from_record(5, "eve".to_string(), None);
    assert_eq!(r.role, "CUSTOMER");
    assert_eq!(r.id, 5);
    let r = UserRow::from_record(6, "al".to_string(), Some("ADMIN".to_string()));
    assert_eq!(r.role, "ADMIN");
}
