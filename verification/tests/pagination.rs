use redmine_wrapper::http::pagination::{paginated_query, PageCursor, PaginationParams};

fn pairs(p: &[(&str, &str)]) -> Vec<(String, String)> {
    p.iter().map(|(k, v)| (k.to_string(), v.to_string())).collect()
}

#[test]
fn params_to_query_in_order() {
    let p = PaginationParams::new(40, 20);
    assert_eq!(p.to_query(), vec![("offset", "40".to_string()), ("limit", "20".to_string())]);
    let only_limit = PaginationParams { offset: None, limit: Some(5) };
    assert_eq!(only_limit.to_query(), vec![("limit", "5".to_string())]);
    assert!(PaginationParams::default().to_query().is_empty());
}

#[test]
fn paginated_query_defaults_to_limit_100() {
    let base = pairs(&[("q", "x")]);
    assert_eq!(paginated_query(&base, None), pairs(&[("q", "x"), ("limit", "100")]));
    let p = PaginationParams::new(0, 25);
    assert_eq!(paginated_query(&base, Some(&p)), pairs(&[("q", "x"), ("offset", "0"), ("limit", "25")]));
}

#[test]
fn cursor_walks_every_page_once() {
    let mut cursor = PageCursor::start();
    let base = pairs(&[("project_id", "1")]);
    assert_eq!(cursor.page_query(&base), pairs(&[("project_id", "1"), ("offset", "0"), ("limit", "100")]));
    let mut offsets = vec![cursor.offset];
    // A listing of 250 records, served 100 at a time.
    let pages = [100usize, 100, 50];
    let mut i = 0;
    while cursor.advance(pages[i], 250) {
        offsets.push(cursor.offset);
        i += 1;
    }
    assert_eq!(offsets, vec![0, 100, 200]);
    assert_eq!(cursor.offset, 200);
}

#[test]
fn cursor_stops_on_empty_listing() {
    let mut cursor = PageCursor::start();
    assert!(!cursor.advance(0, 0));
    assert_eq!(cursor.offset, 0);
}

#[test]
fn cursor_follows_a_server_that_caps_its_pages() {
    // 150 records, but the server sends at most 25 per page.
    let mut cursor = PageCursor::start();
    let total: u32 = 150;
    let mut gathered: Vec<u32> = Vec::new();
    loop {
        let received = std::cmp::min(25, total - cursor.offset) as usize;
        gathered.extend(cursor.offset..cursor.offset + received as u32);
        if !cursor.advance(received, total) {
            break;
        }
    }
    assert_eq!(gathered, (0..150).collect::<Vec<u32>>());
}

#[test]
fn cursor_moves_a_page_on_after_an_empty_page() {
    let mut cursor = PageCursor::start();
    assert!(cursor.advance(0, 300));
    assert_eq!(cursor.offset, 100);
}
