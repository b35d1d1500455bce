//! Behavioral tests for the HotDog library: fetch decoding, the
//! current-photo view state, the persistence store and the lazy
//! store singleton.

use hotdog::AppError;
use hotdog::DogStore;
use hotdog::DogView;
use hotdog::PhotoViewState;
use hotdog::StoreSingleton;

#[test]
fn decode_photo_response_extracts_message() {
    let body = "{\"message\":\"https://images.dog.ceo/breeds/akita/1.jpg\",\"status\":\"success\"}";
    let r = hotdog::decode_photo_response(body);
    assert_eq!(r.unwrap(), "https://images.dog.ceo/breeds/akita/1.jpg");
}

#[test]
fn decode_photo_response_rejects_malformed_body() {
    let r = hotdog::decode_photo_response("not json at all");
    match r {
        Err(AppError::HttpRequestError(d)) => {
            assert_eq!(d, "Failed to parse dog image response");
        }
        _ => panic!("expected an HttpRequestError"),
    }
}

#[test]
fn decode_photo_response_rejects_missing_message_field() {
    let r = hotdog::decode_photo_response("{\"status\":\"success\"}");
    assert!(matches!(r, Err(AppError::HttpRequestError(_))));
}

#[test]
fn decode_photo_response_rejects_non_string_message() {
    let r = hotdog::decode_photo_response("{\"message\":42}");
    assert!(matches!(r, Err(AppError::HttpRequestError(_))));
}

#[test]
fn interpret_fetch_reports_transport_failure() {
    let r = hotdog::interpret_fetch(Err(String::from("connection refused")));
    match r {
        Err(AppError::HttpRequestError(d)) => {
            assert_eq!(d, "Failed to fetch dog image: connection refused");
        }
        _ => panic!("expected an HttpRequestError"),
    }
}

#[test]
fn interpret_fetch_decodes_body() {
    let body = String::from("{\"message\":\"https://x/1.jpg\"}");
    let r = hotdog::interpret_fetch(Ok(body));
    assert_eq!(r.unwrap(), "https://x/1.jpg");
}

#[test]
fn mount_starts_pending_with_empty_placeholder() {
    let (v, _t0) = DogView::mount();
    assert!(matches!(v.current(), PhotoViewState::Pending));
    assert_eq!(v.rendered_src(), "");
}

#[test]
fn fetch_failure_resolves_to_placeholder() {
    let (mut v, t0) = DogView::mount();
    v.apply_fetch(&t0, Err(AppError::HttpRequestError(String::from("boom"))));
    assert!(matches!(v.current(), PhotoViewState::Failed));
    assert_eq!(v.rendered_src(), "");
}

#[test]
fn fetch_success_shows_url() {
    let (mut v, t0) = DogView::mount();
    v.apply_fetch(&t0, Ok(String::from("https://x/1.jpg")));
    assert_eq!(v.rendered_src(), "https://x/1.jpg");
}

#[test]
fn stale_fetch_is_discarded_when_it_arrives_last() {
    let (mut v, ta) = DogView::mount();
    let tb = v.restart();
    v.apply_fetch(&tb, Ok(String::from("https://x/b.jpg")));
    v.apply_fetch(&ta, Ok(String::from("https://x/a.jpg")));
    assert_eq!(v.rendered_src(), "https://x/b.jpg");
}

#[test]
fn stale_fetch_is_discarded_when_it_arrives_first() {
    let (mut v, ta) = DogView::mount();
    let tb = v.restart();
    v.apply_fetch(&ta, Ok(String::from("https://x/a.jpg")));
    assert!(matches!(v.current(), PhotoViewState::Pending));
    v.apply_fetch(&tb, Ok(String::from("https://x/b.jpg")));
    assert_eq!(v.rendered_src(), "https://x/b.jpg");
}

#[test]
fn save_captures_pre_refetch_value() {
    let (mut v, t0) = DogView::mount();
    v.apply_fetch(&t0, Ok(String::from("https://x/1.jpg")));

    let (captured, t1) = v.begin_save();
    assert_eq!(captured, "https://x/1.jpg");
    assert!(matches!(v.current(), PhotoViewState::Pending));

    // The refetch resolves to a different URL before the persist finishes.
    v.apply_fetch(&t1, Ok(String::from("https://x/2.jpg")));
    assert_eq!(v.rendered_src(), "https://x/2.jpg");

    let mut store = DogStore::new();
    store.save_dog(captured).unwrap();
    assert_eq!(store.len(), 1);
    assert_eq!(store.get(0), "https://x/1.jpg");
}

#[test]
fn append_only_log_has_one_line_per_save_in_order() {
    let urls = ["https://x/1.jpg", "https://x/2.jpg", "https://x/3.jpg"];
    let mut store = DogStore::new();
    let mut file = String::new();
    for url in urls {
        let before = file.clone();
        store.save_dog(String::from(url)).unwrap();
        file.push_str(&hotdog::encode_line(url));
        // the old contents are a prefix of the new: nothing is rewritten
        assert!(file.starts_with(&before));
    }
    assert_eq!(file, "https://x/1.jpg\nhttps://x/2.jpg\nhttps://x/3.jpg\n");
    assert_eq!(file.matches('\n').count(), urls.len());
    assert_eq!(store.len(), urls.len());
    for (i, url) in urls.iter().enumerate() {
        assert_eq!(store.get(i), *url);
    }
}

#[test]
fn empty_url_is_rejected_and_store_untouched() {
    let mut store = DogStore::new();
    let r = store.save_dog(String::new());
    match r {
        Err(AppError::DatabaseOpError(d)) => {
            assert_eq!(d, "cannot save an empty photo URL");
        }
        _ => panic!("expected a DatabaseOpError"),
    }
    assert_eq!(store.len(), 0);
}

#[test]
fn validate_save_accepts_only_non_empty() {
    assert!(hotdog::validate_save("https://x/1.jpg").is_ok());
    assert!(hotdog::validate_save("").is_err());
}

#[test]
fn failed_backing_write_leaves_no_record() {
    let mut store = DogStore::new();
    store.save_dog(String::from("https://x/1.jpg")).unwrap();

    let (mut v, t0) = DogView::mount();
    v.apply_fetch(&t0, Ok(String::from("https://x/2.jpg")));

    let r = store.commit_save(
        String::from("https://x/2.jpg"),
        Err(String::from("file unwritable")),
    );
    match r {
        Err(AppError::DatabaseOpError(d)) => assert_eq!(d, "file unwritable"),
        _ => panic!("expected a DatabaseOpError"),
    }
    // no partial record is visible
    assert_eq!(store.len(), 1);
    assert_eq!(store.get(0), "https://x/1.jpg");
    // the current-photo state is unaffected by the persist failure
    assert_eq!(v.rendered_src(), "https://x/2.jpg");
}

#[test]
fn successful_backing_write_appends_record() {
    let mut store = DogStore::new();
    let r = store.commit_save(String::from("https://x/1.jpg"), Ok(()));
    assert!(r.is_ok());
    assert_eq!(store.len(), 1);
    assert_eq!(store.get(0), "https://x/1.jpg");
}

#[test]
fn singleton_initializes_once_for_many_accesses() {
    let mut s = StoreSingleton::new();
    assert!(!s.is_initialized());
    assert_eq!(s.init_count(), 0);
    for _ in 0..5 {
        let db = s.get_db();
        assert_eq!(db.len(), 0);
    }
    assert!(s.is_initialized());
    assert_eq!(s.init_count(), 1);
}

#[test]
fn saves_through_singleton_share_one_store() {
    let mut s = StoreSingleton::new();
    hotdog::save_dog(&mut s, String::from("https://x/1.jpg")).unwrap();
    hotdog::save_dog(&mut s, String::from("https://x/2.jpg")).unwrap();
    assert_eq!(s.init_count(), 1);
    let db = s.get_db();
    assert_eq!(db.len(), 2);
    assert_eq!(db.get(0), "https://x/1.jpg");
    assert_eq!(db.get(1), "https://x/2.jpg");
}

#[test]
fn save_through_singleton_rejects_empty_url() {
    let mut s = StoreSingleton::new();
    let r = hotdog::save_dog(&mut s, String::new());
    assert!(matches!(r, Err(AppError::DatabaseOpError(_))));
    assert_eq!(s.init_count(), 1);
    assert_eq!(s.get_db().len(), 0);
}

#[test]
fn title_is_provided_once_and_read_everywhere() {
    let ctx = hotdog::mount_app();
    assert_eq!(ctx.use_title(), "HotDog");
}

#[test]
fn encode_line_appends_one_newline() {
    assert_eq!(hotdog::encode_line("https://x/1.jpg"), "https://x/1.jpg\n");
}

#[test]
fn error_messages_name_their_kind() {
    let e = AppError::DatabaseInitError(String::from("no memory"));
    assert_eq!(e.message(), "Failed to initialize the database: no memory");
    let e = AppError::DatabaseOpError(String::from("write failed"));
    assert_eq!(e.message(), "Database operation failed: write failed");
    let e = AppError::HttpRequestError(String::from("timed out"));
    assert_eq!(e.message(), "HTTP request failed: timed out");
    let e = AppError::UnexpectedError(String::from("oops"));
    assert_eq!(e.message(), "Unexpected error: oops");
    assert_eq!(e.detail(), "oops");
}
