//! The mathematical model of the store: what each operation does, stated over
//! sequences of stored blobs.
use vstd::prelude::*;

verus! {

/// Who may see a blob in the public listing.
#[derive(PartialEq, Eq, Structural, Clone, Copy, Debug)]
pub enum Visibility {
    Public,
    Unlisted,
}

/// The errors the engine reports to its callers.
#[derive(PartialEq, Eq, Structural, Clone, Copy, Debug)]
pub enum EngineError {
    /// The admission token was rejected.
    PermissionDenied,
    /// The token has reached its upload limit for the rolling window.
    QuotaExceeded,
    /// The requested lifetime is zero or negative.
    InvalidTTL,
    /// No live blob has this identifier.
    NotFound,
    /// The metadata or content backend could not complete the write.
    StorageUnavailable,
}

impl EngineError {
    /// The HTTP status that reports this error.
    pub fn status_code(&self) -> (code: u16)
        ensures
            code == match *self {
                EngineError::NotFound => 404u16,
                EngineError::PermissionDenied | EngineError::QuotaExceeded => 403u16,
                EngineError::InvalidTTL => 400u16,
                EngineError::StorageUnavailable => 500u16,
            },
    {
        match self {
            EngineError::NotFound => 404,
            EngineError::PermissionDenied | EngineError::QuotaExceeded => 403,
            EngineError::InvalidTTL => 400,
            EngineError::StorageUnavailable => 500,
        }
    }
}

/// The engine's settings.
#[derive(Clone, Copy, Debug)]
pub struct Config {
    /// Number of symbols in a freshly allocated identifier.
    pub id_length: usize,
    /// Uploads one token may make within the rolling window.
    pub max_per_window: usize,
    /// Length of the rolling window, in seconds.
    pub window_seconds: i64,
}

/// The metadata of one stored blob, with text as character sequences.
pub struct RecordView {
    pub id: Seq<char>,
    pub title: Seq<char>,
    pub content_type: Seq<char>,
    pub size_bytes: usize,
    pub uploaded_at: i64,
    /// `None` when the blob never expires.
    pub expires_at: Option<i64>,
    pub owner_token: Seq<char>,
    pub download_count: u64,
    pub visibility: Visibility,
}

/// One blob: its metadata record and its content.
pub struct StoredBlob {
    pub record: RecordView,
    pub content: Seq<u8>,
}

/// One entry of the public listing.
pub struct SummaryView {
    pub id: Seq<char>,
    pub title: Seq<char>,
    pub upload_date: i64,
    pub content_type: Seq<char>,
    pub download_count: u64,
    pub size: usize,
}

/// A record is live at `now` while its expiry lies strictly in the future.
pub open spec fn is_live(r: RecordView, now: int) -> bool {
    match r.expires_at {
        Some(t) => now < t,
        None => true,
    }
}

/// What a sweep at `now` removes: expiry strictly before `now`.
pub open spec fn is_swept(r: RecordView, now: int) -> bool {
    match r.expires_at {
        Some(t) => t < now,
        None => false,
    }
}

/// No two blobs share an identifier.
pub open spec fn ids_unique(s: Seq<StoredBlob>) -> bool {
    forall|i: int, j: int|
        0 <= i < s.len() && 0 <= j < s.len() && i != j ==> s[i].record.id != s[j].record.id
}

/// Some blob has identifier `id`.
pub open spec fn holds(s: Seq<StoredBlob>, id: Seq<char>) -> bool {
    exists|i: int| 0 <= i < s.len() && s[i].record.id == id
}

/// The position of the blob with identifier `id`, or -1.
pub open spec fn index_of(s: Seq<StoredBlob>, id: Seq<char>) -> int {
    if holds(s, id) {
        choose|i: int| 0 <= i < s.len() && s[i].record.id == id
    } else {
        -1
    }
}

/// The expiry that a lifetime of `ttl` seconds gives at `now`: none without a
/// lifetime, and none either when `now + ttl` lies beyond the last
/// representable instant.
pub open spec fn expiry_for(now: int, ttl: Option<i64>) -> Option<i64> {
    match ttl {
        None => None,
        Some(d) => if now + d <= i64::MAX {
            Some((now + d) as i64)
        } else {
            None
        },
    }
}

/// Whether `r` counts against `token`'s quota at `now`: a live record of
/// that token uploaded within the last `window` seconds.
pub open spec fn counts_against(r: RecordView, token: Seq<char>, now: int, window: int) -> bool {
    &&& r.owner_token == token
    &&& is_live(r, now)
    &&& r.uploaded_at > now - window
}

/// The metadata records of the stored blobs, in order.
pub open spec fn records_of(s: Seq<StoredBlob>) -> Seq<RecordView> {
    s.map_values(|b: StoredBlob| b.record)
}

/// How many records count against `token`'s quota at `now`.
pub open spec fn recent_uploads(s: Seq<RecordView>, token: Seq<char>, now: int, window: int) -> nat
    decreases s.len(),
{
    if s.len() == 0 {
        0
    } else {
        recent_uploads(s.drop_last(), token, now, window) + if counts_against(
            s.last(),
            token,
            now,
            window,
        ) {
            1nat
        } else {
            0nat
        }
    }
}

/// The admission decision for an upload: the expiry to record, or the
/// error. The token is checked first, then the lifetime, then the quota.
pub open spec fn admission(
    records: Seq<RecordView>,
    config: Config,
    token: Seq<char>,
    token_valid: bool,
    ttl: Option<i64>,
    now: i64,
) -> Result<Option<i64>, EngineError> {
    if !token_valid {
        Err(EngineError::PermissionDenied)
    } else if ttl matches Some(d) && d <= 0 {
        Err(EngineError::InvalidTTL)
    } else if recent_uploads(records, token, now as int, config.window_seconds as int)
        >= config.max_per_window {
        Err(EngineError::QuotaExceeded)
    } else {
        Ok(expiry_for(now as int, ttl))
    }
}

/// The blob that a successful upload stores.
pub open spec fn new_blob(
    id: Seq<char>,
    title: Seq<char>,
    content_type: Seq<char>,
    bytes: Seq<u8>,
    token: Seq<char>,
    now: i64,
    expires_at: Option<i64>,
    visibility: Visibility,
) -> StoredBlob {
    StoredBlob {
        record: RecordView {
            id,
            title,
            content_type,
            size_bytes: bytes.len() as usize,
            uploaded_at: now,
            expires_at,
            owner_token: token,
            download_count: 0,
            visibility,
        },
        content: bytes,
    }
}

/// What a retrieval of `id` at `now` serves: the content type and content
/// of a live blob, and nothing for an absent or expired one.
pub open spec fn served(s: Seq<StoredBlob>, id: Seq<char>, now: int) -> Option<(Seq<char>, Seq<u8>)> {
    let i = index_of(s, id);
    if i >= 0 && is_live(s[i].record, now) {
        Some((s[i].record.content_type, s[i].content))
    } else {
        None
    }
}

/// `b` with one more download counted (the counter stops at its maximum).
pub open spec fn downloaded(b: StoredBlob) -> StoredBlob {
    StoredBlob {
        record: RecordView {
            download_count: if b.record.download_count < u64::MAX {
                (b.record.download_count + 1) as u64
            } else {
                b.record.download_count
            },
            ..b.record
        },
        ..b
    }
}

/// The store after a retrieval of `id` at `now`: a live blob has its
/// download counted, an expired one is removed, anything else is unchanged.
pub open spec fn after_retrieve(s: Seq<StoredBlob>, id: Seq<char>, now: int) -> Seq<StoredBlob> {
    let i = index_of(s, id);
    if i < 0 {
        s
    } else if is_live(s[i].record, now) {
        s.update(i, downloaded(s[i]))
    } else {
        s.remove(i)
    }
}

/// The store after a sweep at `now`: every blob whose expiry lies strictly
/// before `now` is gone, the others stay in order.
pub open spec fn after_sweep(s: Seq<StoredBlob>, now: int) -> Seq<StoredBlob> {
    s.filter(survives_sweep(now))
}

/// The blobs that a sweep at `now` keeps.
pub open spec fn survives_sweep(now: int) -> spec_fn(StoredBlob) -> bool {
    |b: StoredBlob| !is_swept(b.record, now)
}

/// The listing entry of a record.
pub open spec fn summary(r: RecordView) -> SummaryView {
    SummaryView {
        id: r.id,
        title: r.title,
        upload_date: r.uploaded_at,
        content_type: r.content_type,
        download_count: r.download_count,
        size: r.size_bytes,
    }
}

/// Listed publicly at `now`: live and public.
pub open spec fn is_listed(r: RecordView, now: int) -> bool {
    is_live(r, now) && r.visibility == Visibility::Public
}

/// The public listing at `now`: the entries of all live public records, in
/// store order.
pub open spec fn public_feed(s: Seq<RecordView>, now: int) -> Seq<SummaryView>
    decreases s.len(),
{
    if s.len() == 0 {
        Seq::empty()
    } else if is_listed(s.last(), now) {
        public_feed(s.drop_last(), now).push(summary(s.last()))
    } else {
        public_feed(s.drop_last(), now)
    }
}

/// With unique identifiers, the blob at position `j` is the one `index_of`
/// finds for its identifier.
pub proof fn lemma_index_of_unique(s: Seq<StoredBlob>, j: int)
    requires
        ids_unique(s),
        0 <= j < s.len(),
    ensures
        index_of(s, s[j].record.id) == j,
{
    assert(holds(s, s[j].record.id));
}

/// An identifier held by no blob has no position.
pub proof fn lemma_index_of_absent(s: Seq<StoredBlob>, id: Seq<char>)
    requires
        forall|i: int| 0 <= i < s.len() ==> s[i].record.id != id,
    ensures
        index_of(s, id) == -1,
{
}

} // verus!
