use title_search::{
    after_first, begin_search, find_first_colon, is_success_status, settle, strip_commas,
    validate_title, Failure, FirstStep, SearchResult, UpstreamOutcome, BAD_GATEWAY, BAD_REQUEST,
    MAX_TITLE_CHARS,
};

fn work(id: &str, name: &str, year: i32, cited: i32) -> SearchResult {
    SearchResult {
        id: id.to_string(),
        display_name: name.to_string(),
        publication_year: year,
        cited_by_count: cited,
    }
}

fn finished(step: FirstStep) -> Result<Vec<SearchResult>, Failure> {
    match step {
        FirstStep::Finish(r) => r,
        FirstStep::Retry(q) => panic!("unexpected retry with filter {}", q.filter),
    }
}

#[test]
fn full_title_single_result() {
    let (title, q) = begin_search(Some("Attention Is All You Need".to_string())).unwrap();
    assert_eq!(title, "Attention Is All You Need");
    assert_eq!(q.filter, "title.search:\"Attention Is All You Need\"");
    assert_eq!(q.select, "id,display_name,publication_year,cited_by_count");
    let rec = work("https://openalex.org/W1", "Attention Is All You Need", 2017, 100000);
    let r = finished(after_first(&title, UpstreamOutcome::Results(vec![rec.clone()])));
    assert_eq!(r, Ok(vec![rec]));
}

#[test]
fn colon_title_falls_back_to_prefix() {
    let (title, q) = begin_search(Some("Deep Learning: A Survey".to_string())).unwrap();
    assert_eq!(q.filter, "title.search:\"Deep Learning: A Survey\"");
    let retry = match after_first(&title, UpstreamOutcome::Results(vec![])) {
        FirstStep::Retry(q) => q,
        FirstStep::Finish(_) => panic!("expected a retry"),
    };
    assert_eq!(retry.filter, "title.search:\"Deep Learning\"");
    assert_eq!(retry.select, "id,display_name,publication_year,cited_by_count");
    let two = vec![work("W1", "Deep Learning", 2015, 10), work("W2", "Deep learning", 2016, 5)];
    assert_eq!(settle(UpstreamOutcome::Results(two.clone())), Ok(two));
}

#[test]
fn empty_title_is_required() {
    let err = begin_search(Some(String::new())).unwrap_err();
    assert_eq!(err, Failure::TitleRequired);
    assert_eq!(err.status(), 400);
    assert_eq!(err.message(), "Title is required");
}

#[test]
fn absent_title_is_required() {
    let err = validate_title(None).unwrap_err();
    assert_eq!(err, Failure::TitleRequired);
    assert_eq!(err.status(), BAD_REQUEST);
}

#[test]
fn long_title_refused() {
    let long = "a".repeat(MAX_TITLE_CHARS);
    let err = begin_search(Some(long)).unwrap_err();
    assert_eq!(err, Failure::TitleTooLong);
    assert_eq!(err.status(), 400);
    assert_eq!(err.message(), "Title is too long (500 characters or more)");
    let much_longer = "b".repeat(2000);
    assert_eq!(validate_title(Some(much_longer)), Err(Failure::TitleTooLong));
}

#[test]
fn title_just_under_limit_accepted() {
    let t = "a".repeat(499);
    assert_eq!(validate_title(Some(t.clone())), Ok(t));
    let wide = "é".repeat(499);
    assert_eq!(validate_title(Some(wide.clone())), Ok(wide));
}

#[test]
fn commas_removed_from_filter() {
    let (_, q) = begin_search(Some("Cats, dogs,, and mice,".to_string())).unwrap();
    assert_eq!(q.filter, "title.search:\"Cats dogs and mice\"");
    assert!(!q.filter.contains(','));
    assert_eq!(strip_commas(",,,"), "");
    assert_eq!(strip_commas("no commas"), "no commas");
    assert_eq!(strip_commas("é,ü,ß"), "éüß");
}

#[test]
fn fallback_uses_text_before_first_colon_only() {
    let title = "A: B: C";
    match after_first(title, UpstreamOutcome::Results(vec![])) {
        FirstStep::Retry(q) => assert_eq!(q.filter, "title.search:\"A\""),
        FirstStep::Finish(_) => panic!("expected a retry"),
    }
    assert_eq!(settle(UpstreamOutcome::Results(vec![])), Ok(vec![]));
}

#[test]
fn fallback_prefix_has_commas_removed() {
    match after_first("One, two: three", UpstreamOutcome::Results(vec![])) {
        FirstStep::Retry(q) => assert_eq!(q.filter, "title.search:\"One two\""),
        FirstStep::Finish(_) => panic!("expected a retry"),
    }
}

#[test]
fn leading_colon_retries_with_empty_prefix() {
    match after_first(":Subtitle", UpstreamOutcome::Results(vec![])) {
        FirstStep::Retry(q) => assert_eq!(q.filter, "title.search:\"\""),
        FirstStep::Finish(_) => panic!("expected a retry"),
    }
}

#[test]
fn empty_without_colon_gives_empty_list() {
    let r = finished(after_first("No colon here", UpstreamOutcome::Results(vec![])));
    assert_eq!(r, Ok(vec![]));
}

#[test]
fn results_with_colon_title_are_final() {
    let rec = work("W9", "Deep Learning: A Survey", 2020, 3);
    let r = finished(after_first("Deep Learning: A Survey", UpstreamOutcome::Results(vec![rec.clone()])));
    assert_eq!(r, Ok(vec![rec]));
}

#[test]
fn upstream_status_is_mirrored_without_fallback() {
    let r = finished(after_first("Deep Learning: A Survey", UpstreamOutcome::Status(404)));
    let err = r.unwrap_err();
    assert_eq!(err, Failure::UpstreamStatus(404));
    assert_eq!(err.status(), 404);
    assert_eq!(err.message(), "External API error");
    let r = finished(after_first("x", UpstreamOutcome::Status(503)));
    assert_eq!(r.unwrap_err().status(), 503);
}

#[test]
fn transport_failure_is_bad_gateway() {
    let r = finished(after_first("a: b", UpstreamOutcome::Transport("connection refused".to_string())));
    let err = r.unwrap_err();
    assert_eq!(err, Failure::Transport("connection refused".to_string()));
    assert_eq!(err.status(), 502);
    assert_eq!(err.message(), "connection refused");
}

#[test]
fn decode_failure_is_bad_gateway() {
    let err = settle(UpstreamOutcome::Decode("missing field `results`".to_string())).unwrap_err();
    assert_eq!(err.status(), BAD_GATEWAY);
    assert_eq!(err.message(), "Failed to parse upstream response: missing field `results`");
}

#[test]
fn records_kept_in_order() {
    let three = vec![
        work("W3", "Third", 2001, 1),
        work("W1", "First", 1999, 300),
        work("W2", "Second", 2010, 20),
    ];
    let r = finished(after_first("Some title", UpstreamOutcome::Results(three.clone())));
    let got = r.unwrap();
    assert_eq!(got.len(), 3);
    assert_eq!(got, three);
}

#[test]
fn success_statuses() {
    assert!(is_success_status(200));
    assert!(is_success_status(204));
    assert!(is_success_status(299));
    assert!(!is_success_status(199));
    assert!(!is_success_status(300));
    assert!(!is_success_status(404));
    assert!(!is_success_status(500));
}

#[test]
fn first_colon_position() {
    assert_eq!(find_first_colon("Deep Learning: A Survey"), Some(13));
    assert_eq!(find_first_colon("ü:é:"), Some(1));
    assert_eq!(find_first_colon("none"), None);
    assert_eq!(find_first_colon(""), None);
}

#[test]
fn record_from_partial_fields() {
    let r = SearchResult::from_fields(Some("W5".to_string()), None, Some(1990), None);
    assert_eq!(r, work("W5", "", 1990, 0));
    let full = SearchResult::from_fields(
        Some("W6".to_string()),
        Some("Name".to_string()),
        Some(2001),
        Some(7),
    );
    assert_eq!(full, work("W6", "Name", 2001, 7));
}
