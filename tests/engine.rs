use roxide::{classify, Config, Engine, EngineError, Visibility};

fn config(max_per_window: usize) -> Config {
    Config { id_length: 8, max_per_window, window_seconds: 3600 }
}

fn png_bytes() -> Vec<u8> {
    vec![0x89, 0x50, 0x4E, 0x47, 0x0D, 0x0A, 0x1A, 0x0A, 0, 0, 0, 0]
}

#[test]
fn ingest_then_retrieve_until_expiry() {
    let mut e = Engine::new(config(10));
    let id = e
        .ingest(b"hello".to_vec(), "t1", true, "greet.txt", Some(10), Visibility::Public, 1000)
        .expect("upload is admitted");
    assert_eq!(id.get_id().len(), 8);
    let rec = e.record(id.get_id()).expect("record is stored");
    assert_eq!(rec.expires_at, Some(1010));
    assert_eq!(rec.uploaded_at, 1000);
    assert_eq!(rec.title, "greet.txt");
    assert_eq!(rec.size_bytes, 5);
    assert_eq!(rec.owner_token, "t1");
    assert_eq!(rec.download_count, 0);
    let (_, bytes) = e.retrieve(id.get_id(), 1005).expect("live blob is served");
    assert_eq!(bytes, b"hello".to_vec());
    assert_eq!(e.retrieve(id.get_id(), 1011), Err(EngineError::NotFound));
}

#[test]
fn zero_or_negative_ttl_is_invalid() {
    let mut e = Engine::new(config(10));
    for now in [0i64, 1000, -50, i64::MAX] {
        assert_eq!(
            e.ingest(b"x".to_vec(), "t1", true, "a", Some(0), Visibility::Public, now).map(|_| ()),
            Err(EngineError::InvalidTTL)
        );
        assert_eq!(
            e.ingest(b"x".to_vec(), "t1", true, "a", Some(-5), Visibility::Public, now).map(|_| ()),
            Err(EngineError::InvalidTTL)
        );
    }
    assert_eq!(e.len(), 0);
}

#[test]
fn quota_exceeded_after_max_uploads() {
    let max = 3;
    let mut e = Engine::new(config(max));
    for k in 0..max {
        let r = e.ingest(vec![k as u8], "t1", true, "f", Some(100), Visibility::Public, 1000 + k as i64);
        assert!(r.is_ok());
    }
    let last = e.ingest(b"one more".to_vec(), "t1", true, "f", Some(100), Visibility::Public, 1010);
    assert_eq!(last.map(|_| ()), Err(EngineError::QuotaExceeded));
    // another token is not affected
    assert!(e.ingest(b"other".to_vec(), "t2", true, "f", Some(100), Visibility::Public, 1010).is_ok());
    // uploads older than the window no longer count
    assert!(e.ingest(b"later".to_vec(), "t1", true, "f", None, Visibility::Public, 1000 + 3600).is_ok());
}

#[test]
fn list_public_shows_only_public() {
    let mut e = Engine::new(config(10));
    let public = e
        .ingest(b"pub".to_vec(), "t1", true, "p.txt", Some(60), Visibility::Public, 1000)
        .unwrap();
    let _unlisted = e
        .ingest(b"hidden".to_vec(), "t1", true, "u.txt", Some(60), Visibility::Unlisted, 1000)
        .unwrap();
    let list = e.list_public(true, 1001).unwrap();
    assert_eq!(list.len(), 1);
    assert_eq!(list[0].id, public.get_id());
    assert_eq!(list[0].title, "p.txt");
    assert_eq!(list[0].size, 3);
    assert_eq!(list[0].upload_date, 1000);
    // expired blobs leave the listing
    assert!(e.list_public(true, 1060).unwrap().is_empty());
}

#[test]
fn list_public_requires_valid_token() {
    let e = Engine::new(config(10));
    assert_eq!(e.list_public(false, 0).map(|v| v.len()), Err(EngineError::PermissionDenied));
}

#[test]
fn ingest_with_rejected_token_is_denied() {
    let mut e = Engine::new(config(10));
    let r = e.ingest(b"x".to_vec(), "bad", false, "a", Some(10), Visibility::Public, 0);
    assert_eq!(r.map(|_| ()), Err(EngineError::PermissionDenied));
    assert_eq!(e.len(), 0);
}

#[test]
fn retrieve_returns_classified_content_type() {
    let mut e = Engine::new(config(10));
    let id = e.ingest(png_bytes(), "t1", true, "pic", Some(10), Visibility::Public, 0).unwrap();
    let (content_type, bytes) = e.retrieve(id.get_id(), 0).unwrap();
    assert_eq!(content_type, "image/png");
    assert_eq!(bytes, png_bytes());
    let id2 = e.ingest(b"hello".to_vec(), "t1", true, "txt", Some(10), Visibility::Public, 0).unwrap();
    let (content_type2, _) = e.retrieve(id2.get_id(), 0).unwrap();
    assert_eq!(content_type2, classify(b"hello"));
}

#[test]
fn classify_reads_the_bytes() {
    assert_eq!(classify(&png_bytes()), "image/png");
    assert_eq!(classify(&[0x47, 0x49, 0x46, 0x38, 0x39, 0x61]), "image/gif");
    assert_eq!(classify(&[]), "unknown");
    assert_eq!(classify(b"hello"), "unknown");
}

#[test]
fn retrieve_of_expired_is_not_found_without_sweep() {
    let mut e = Engine::new(config(10));
    let id = e.ingest(b"data".to_vec(), "t1", true, "d", Some(5), Visibility::Public, 100).unwrap();
    // expiry exactly at now counts as expired
    assert_eq!(e.retrieve(id.get_id(), 105), Err(EngineError::NotFound));
    // lazy expiry removed the record and its content
    assert!(e.record(id.get_id()).is_none());
    assert_eq!(e.len(), 0);
}

#[test]
fn retrieve_of_expired_is_not_found_after_sweep() {
    let mut e = Engine::new(config(10));
    let id = e.ingest(b"data".to_vec(), "t1", true, "d", Some(5), Visibility::Public, 100).unwrap();
    e.sweep(200);
    assert_eq!(e.retrieve(id.get_id(), 200), Err(EngineError::NotFound));
}

#[test]
fn retrieve_of_unknown_id_is_not_found() {
    let mut e = Engine::new(config(10));
    assert_eq!(e.retrieve("nothere", 0), Err(EngineError::NotFound));
}

#[test]
fn sweep_removes_only_strictly_expired() {
    let mut e = Engine::new(config(10));
    let a = e.ingest(b"a".to_vec(), "t1", true, "a", Some(10), Visibility::Public, 0).unwrap();
    let b = e.ingest(b"b".to_vec(), "t1", true, "b", Some(20), Visibility::Public, 0).unwrap();
    let c = e.ingest(b"c".to_vec(), "t1", true, "c", None, Visibility::Public, 0).unwrap();
    let d = e.ingest(b"d".to_vec(), "t1", true, "d", Some(5), Visibility::Unlisted, 0).unwrap();
    e.sweep(10);
    // `a` expires exactly at 10: it survives this sweep, but is not served
    assert!(e.record(a.get_id()).is_some());
    assert!(e.record(d.get_id()).is_none());
    assert_eq!(e.len(), 3);
    assert_eq!(e.retrieve(a.get_id(), 10), Err(EngineError::NotFound));
    e.sweep(25);
    assert!(e.record(b.get_id()).is_none());
    assert!(e.record(c.get_id()).is_some());
    assert_eq!(e.len(), 1);
    assert_eq!(e.retrieve(c.get_id(), i64::MAX).unwrap().1, b"c".to_vec());
    // sweeping again changes nothing
    e.sweep(25);
    assert_eq!(e.len(), 1);
}

#[test]
fn download_count_grows_by_one_per_retrieval() {
    let mut e = Engine::new(config(10));
    let id = e.ingest(b"count".to_vec(), "t1", true, "c", Some(100), Visibility::Public, 0).unwrap();
    let n = 7u64;
    for _ in 0..n {
        assert!(e.retrieve(id.get_id(), 50).is_ok());
    }
    assert_eq!(e.record(id.get_id()).unwrap().download_count, n);
    let list = e.list_public(true, 50).unwrap();
    assert_eq!(list[0].download_count, n);
}

#[test]
fn approve_computes_expiry() {
    let e = Engine::new(config(1));
    assert_eq!(e.approve("t", true, Some(10), 1000), Ok(Some(1010)));
    assert_eq!(e.approve("t", true, None, 1000), Ok(None));
    // a lifetime beyond the last representable instant never expires
    assert_eq!(e.approve("t", true, Some(i64::MAX), 1000), Ok(None));
    assert_eq!(e.approve("t", false, Some(10), 1000), Err(EngineError::PermissionDenied));
    assert_eq!(e.approve("t", true, Some(-1), 1000), Err(EngineError::InvalidTTL));
}

#[test]
fn approve_checks_token_before_ttl_and_quota() {
    let mut e = Engine::new(config(1));
    assert!(e.ingest(b"x".to_vec(), "t", true, "x", Some(10), Visibility::Public, 0).is_ok());
    assert_eq!(e.approve("t", false, Some(0), 1), Err(EngineError::PermissionDenied));
    assert_eq!(e.approve("t", true, Some(0), 1), Err(EngineError::InvalidTTL));
    assert_eq!(e.approve("t", true, Some(10), 1), Err(EngineError::QuotaExceeded));
    // an expired upload no longer counts against the quota
    assert_eq!(e.approve("t", true, Some(10), 10), Ok(Some(20)));
}

#[test]
fn commit_refuses_a_taken_identifier() {
    let mut e = Engine::new(config(10));
    let first = e.commit(
        roxide::FileId::from("abc"),
        b"one".to_vec(),
        "t",
        "one",
        "text/plain".to_string(),
        None,
        Visibility::Public,
        0,
    );
    assert_eq!(first.map(|f| f.get_id().to_string()), Ok("abc".to_string()));
    let second = e.commit(
        roxide::FileId::from("abc"),
        b"two".to_vec(),
        "t",
        "two",
        "text/plain".to_string(),
        None,
        Visibility::Public,
        0,
    );
    assert_eq!(second.map(|_| ()), Err(EngineError::StorageUnavailable));
    assert_eq!(e.len(), 1);
    assert_eq!(e.retrieve("abc", 0), Ok(("text/plain".to_string(), b"one".to_vec())));
}

#[test]
fn allocate_gives_fresh_ids_of_configured_length() {
    let mut e = Engine::new(Config { id_length: 3, max_per_window: 1000, window_seconds: 3600 });
    let mut seen = std::collections::HashSet::new();
    for k in 0..200 {
        let id = e.ingest(vec![k as u8], "t", true, "f", None, Visibility::Public, 0).unwrap();
        assert_eq!(id.get_id().len(), 3);
        assert!(id.get_id().chars().all(|c| c.is_ascii_alphanumeric()));
        assert!(seen.insert(id.get_id().to_string()));
    }
    assert_eq!(e.len(), 200);
}

#[test]
fn error_status_codes() {
    assert_eq!(EngineError::NotFound.status_code(), 404);
    assert_eq!(EngineError::PermissionDenied.status_code(), 403);
    assert_eq!(EngineError::QuotaExceeded.status_code(), 403);
    assert_eq!(EngineError::InvalidTTL.status_code(), 400);
    assert_eq!(EngineError::StorageUnavailable.status_code(), 500);
}

#[test]
fn admitted_upload_on_empty_store_succeeds() {
    let mut e = Engine::new(config(1));
    let id = e.ingest(b"first".to_vec(), "t", true, "f", None, Visibility::Unlisted, 7).unwrap();
    assert_eq!(id.get_id().len(), 8);
    let rec = e.record(id.get_id()).unwrap();
    assert_eq!(rec.expires_at, None);
    assert_eq!(rec.visibility, Visibility::Unlisted);
}
