use roxide::store::{BlobStore, MetadataStore};
use roxide::{BlobRecord, Visibility};

fn record(id: &str, token: &str, uploaded_at: i64, expires_at: Option<i64>, visibility: Visibility) -> BlobRecord {
    BlobRecord {
        id: id.to_string(),
        title: format!("{id}.txt"),
        content_type: "unknown".to_string(),
        size_bytes: 1,
        uploaded_at,
        expires_at,
        owner_token: token.to_string(),
        download_count: 0,
        visibility,
    }
}

#[test]
fn blob_store_is_write_once() {
    let mut b = BlobStore::new();
    assert!(b.write("a".to_string(), vec![1, 2, 3]));
    assert!(!b.write("a".to_string(), vec![9]));
    assert_eq!(b.len(), 1);
    assert_eq!(b.read_at(0), vec![1, 2, 3]);
    b.remove_at(0);
    assert_eq!(b.len(), 0);
    assert!(b.write("a".to_string(), vec![4]));
}

#[test]
fn metadata_store_refuses_duplicate_ids() {
    let mut m = MetadataStore::new();
    assert!(m.insert(record("x", "t", 0, None, Visibility::Public)));
    assert!(!m.insert(record("x", "u", 5, None, Visibility::Unlisted)));
    assert_eq!(m.len(), 1);
    assert_eq!(m.get(0).owner_token, "t");
    assert_eq!(m.position(&"x".to_string()), Some(0));
    assert_eq!(m.position(&"y".to_string()), None);
    m.remove_at(0);
    assert_eq!(m.len(), 0);
}

#[test]
fn download_counter_stops_at_maximum() {
    let mut m = MetadataStore::new();
    let mut r = record("x", "t", 0, None, Visibility::Public);
    r.download_count = u64::MAX - 1;
    assert!(m.insert(r));
    m.record_download(0);
    assert_eq!(m.get(0).download_count, u64::MAX);
    m.record_download(0);
    assert_eq!(m.get(0).download_count, u64::MAX);
}

#[test]
fn count_recent_counts_live_uploads_of_token_in_window() {
    let mut m = MetadataStore::new();
    assert!(m.insert(record("a", "t", 100, None, Visibility::Public)));
    assert!(m.insert(record("b", "t", 50, None, Visibility::Public)));
    assert!(m.insert(record("c", "t", 100, Some(120), Visibility::Public)));
    assert!(m.insert(record("d", "u", 100, None, Visibility::Public)));
    // window (50, 150]: only a counts; b is too old, c has expired, d has another token
    assert_eq!(m.count_recent(&"t".to_string(), 150, 100), 1);
    // window (19, 119]: a, b and the still live c count
    assert_eq!(m.count_recent(&"t".to_string(), 119, 100), 3);
    // window (59, 119]: b is too old
    assert_eq!(m.count_recent(&"t".to_string(), 119, 60), 2);
    // at 120, c has expired
    assert_eq!(m.count_recent(&"t".to_string(), 120, 60), 1);
    // the widest window at the earliest instant: everything of t is live and recent
    assert_eq!(m.count_recent(&"t".to_string(), i64::MIN, i64::MAX), 3);
}

#[test]
fn scan_public_keeps_store_order() {
    let mut m = MetadataStore::new();
    assert!(m.insert(record("a", "t", 1, None, Visibility::Public)));
    assert!(m.insert(record("b", "t", 2, Some(10), Visibility::Public)));
    assert!(m.insert(record("c", "t", 3, None, Visibility::Unlisted)));
    assert!(m.insert(record("d", "t", 4, None, Visibility::Public)));
    let ids: Vec<String> = m.scan_public(5).into_iter().map(|d| d.id).collect();
    assert_eq!(ids, vec!["a", "b", "d"]);
    let ids: Vec<String> = m.scan_public(10).into_iter().map(|d| d.id).collect();
    assert_eq!(ids, vec!["a", "d"]);
}
