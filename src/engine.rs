//! The lifecycle engine: admission, identifier allocation, commit with
//! rollback, retrieval with lazy expiry, the public listing and the sweep.
use crate::content::{classify, content_type_of, sniffed_mime};
use crate::id::{is_valid_id, FileId};
use crate::laws::sweep_leaves_no_expired;
use crate::model::{
    admission, after_retrieve, after_sweep, holds, ids_unique, index_of, is_swept, lemma_index_of_absent,
    lemma_index_of_unique, new_blob, public_feed, records_of, served, survives_sweep, Config,
    EngineError, StoredBlob, Visibility, downloaded,
};
use crate::store::{BlobRecord, BlobStore, FileData, MetadataStore};
use vstd::prelude::*;

verus! {

/// No stored blob has an identifier of length `len`: then every draw of
/// that length is free.
pub open spec fn no_id_of_length(s: Seq<StoredBlob>, len: nat) -> bool {
    forall|i: int| 0 <= i < s.len() ==> (#[trigger] s[i]).record.id.len() != len
}

/// How many identifiers allocation draws before it gives up.
pub const MAX_ALLOCATION_ATTEMPTS: u32 = 1000;

/// Removing a blob keeps identifiers unique.
proof fn lemma_unique_remove(s: Seq<StoredBlob>, i: int)
    requires
        ids_unique(s),
        0 <= i < s.len(),
    ensures
        ids_unique(s.remove(i)),
{
    let t = s.remove(i);
    assert forall|a: int, b: int|
        0 <= a < t.len() && 0 <= b < t.len() && a != b implies t[a].record.id != t[b].record.id by {
        let a0 = if a < i { a } else { a + 1 };
        let b0 = if b < i { b } else { b + 1 };
        assert(t[a] == s[a0] && t[b] == s[b0]);
    }
}

/// The store: metadata records and content objects, kept side by side.
pub struct Engine {
    config: Config,
    meta: MetadataStore,
    blobs: BlobStore,
}

impl View for Engine {
    /// The stored blobs, in order of upload.
    type V = Seq<StoredBlob>;

    closed spec fn view(&self) -> Seq<StoredBlob> {
        Seq::new(
            self.meta@.len(),
            |i: int| StoredBlob { record: self.meta@[i], content: self.blobs@[i].1 },
        )
    }
}

impl Engine {
    /// The settings the engine was made with.
    pub closed spec fn settings(&self) -> Config {
        self.config
    }

    /// The identifiers of the content objects, in order.
    pub closed spec fn content_ids(&self) -> Seq<Seq<char>> {
        self.blobs@.map_values(|o: (Seq<char>, Seq<u8>)| o.0)
    }

    /// Every record has exactly its own content object beside it, and
    /// identifiers are unique.
    pub closed spec fn wf(&self) -> bool {
        &&& self.meta@.len() == self.blobs@.len()
        &&& forall|i: int| 0 <= i < self.meta@.len() ==> #[trigger] self.blobs@[i].0 == self.meta@[i].id
        &&& ids_unique(self@)
    }

    proof fn lemma_records(&self)
        ensures
            records_of(self@) == self.meta@,
    {
        assert(records_of(self@) =~= self.meta@);
    }

    /// Identifiers in a well-formed store are unique.
    pub proof fn lemma_wf_ids_unique(&self)
        requires
            self.wf(),
        ensures
            ids_unique(self@),
    {
    }

    /// No content object is left without a metadata record.
    pub proof fn lemma_no_orphan_content(&self, k: int)
        requires
            self.wf(),
            0 <= k < self.content_ids().len(),
        ensures
            holds(self@, self.content_ids()[k]),
            index_of(self@, self.content_ids()[k]) == k,
    {
        assert(self@[k].record.id == self.content_ids()[k]);
        lemma_index_of_unique(self@, k);
    }

    /// After a sweep at `now` no record with an expiry strictly before `now`
    /// is left, and no content object is left without its record.
    pub proof fn lemma_swept_store_is_clean(&self, before: Seq<StoredBlob>, now: int)
        requires
            self.wf(),
            self@ == after_sweep(before, now),
        ensures
            forall|i: int| 0 <= i < self@.len() ==> !is_swept(#[trigger] self@[i].record, now),
            forall|k: int| 0 <= k < self.content_ids().len() ==> holds(self@, #[trigger] self.content_ids()[k]),
    {
        sweep_leaves_no_expired(before, now);
        assert forall|k: int| 0 <= k < self.content_ids().len() implies holds(
            self@,
            #[trigger] self.content_ids()[k],
        ) by {
            self.lemma_no_orphan_content(k);
        }
    }

    /// An empty store with the given settings.
    pub fn new(config: Config) -> (e: Engine)
        ensures
            e.wf(),
            e@ == Seq::<StoredBlob>::empty(),
            e.settings() == config,
    {
        let e = Engine { config, meta: MetadataStore::new(), blobs: BlobStore::new() };
        assert(e@ =~= Seq::<StoredBlob>::empty());
        e
    }

    /// The settings the engine was made with.
    pub fn config(&self) -> (c: Config)
        ensures
            c == self.settings(),
    {
        self.config
    }

    /// Number of stored blobs, live or not yet swept.
    pub fn len(&self) -> (n: usize)
        ensures
            n == self@.len(),
    {
        self.meta.len()
    }

    /// Decides whether an upload by `token` is admitted at `now`, and with
    /// which expiry. `token_valid` is the admission authority's verdict.
    pub fn approve(&self, token: &str, token_valid: bool, ttl: Option<i64>, now: i64) -> (r: Result<
        Option<i64>,
        EngineError,
    >)
        requires
            self.wf(),
        ensures
            r == admission(records_of(self@), self.settings(), token@, token_valid, ttl, now),
    {
        proof {
            self.lemma_records();
        }
        if !token_valid {
            return Err(EngineError::PermissionDenied);
        }
        if let Some(d) = ttl {
            if d <= 0 {
                return Err(EngineError::InvalidTTL);
            }
        }
        let owner = token.to_owned();
        let n = self.meta.count_recent(&owner, now, self.config.window_seconds);
        if n >= self.config.max_per_window {
            return Err(EngineError::QuotaExceeded);
        }
        match ttl {
            None => Ok(None),
            Some(d) => Ok(now.checked_add(d)),
        }
    }

    /// Draws identifiers until one is free, giving up after
    /// `MAX_ALLOCATION_ATTEMPTS` draws.
    pub fn allocate(&self) -> (r: Option<FileId>)
        requires
            self.wf(),
        ensures
            r matches Some(id) ==> is_valid_id(id@, self.settings().id_length as nat) && !holds(
                self@,
                id@,
            ),
            no_id_of_length(self@, self.settings().id_length as nat) ==> r is Some,
    {
        let mut attempt: u32 = 0;
        while attempt < MAX_ALLOCATION_ATTEMPTS
            invariant
                self.wf(),
                no_id_of_length(self@, self.config.id_length as nat) ==> attempt == 0,
            decreases MAX_ALLOCATION_ATTEMPTS - attempt,
        {
            let id = FileId::new(self.config.id_length);
            assert forall|i: int| 0 <= i < self.meta@.len() implies #[trigger] self.meta@[i]
                == self@[i].record by {}
            if self.meta.position(id.text()).is_none() {
                assert(!holds(self@, id@)) by {
                    if holds(self@, id@) {
                        let j = choose|j: int| 0 <= j < self@.len() && self@[j].record.id == id@;
                        assert(self.meta@[j].id == id@);
                    }
                }
                return Some(id);
            }
            attempt = attempt + 1;
        }
        None
    }

    /// Stores one blob under the freshly allocated `id`: the metadata record
    /// first, then the content. When the content cannot be written the record
    /// is deleted again, so that no record is left without its content.
    pub fn commit(
        &mut self,
        id: FileId,
        bytes: Vec<u8>,
        token: &str,
        title: &str,
        content_type: String,
        expires_at: Option<i64>,
        visibility: Visibility,
        now: i64,
    ) -> (r: Result<FileId, EngineError>)
        requires
            old(self).wf(),
        ensures
            final(self).wf(),
            final(self).settings() == old(self).settings(),
            holds(old(self)@, id@) ==> r == Err::<FileId, EngineError>(
                EngineError::StorageUnavailable,
            ) && final(self)@ == old(self)@,
            !holds(old(self)@, id@) ==> (r matches Ok(f) && f@ == id@ && final(self)@ == old(self)@.push(
                new_blob(
                    id@,
                    title@,
                    content_type@,
                    bytes@,
                    token@,
                    now,
                    expires_at,
                    visibility,
                ),
            )),
    {
        let ghost s0 = self@;
        let ghost m0 = self.meta@;
        let ghost b0 = self.blobs@;
        let ghost blob = new_blob(
            id@,
            title@,
            content_type@,
            bytes@,
            token@,
            now,
            expires_at,
            visibility,
        );
        let record = BlobRecord {
            id: id.text().clone(),
            title: title.to_owned(),
            content_type,
            size_bytes: bytes.len(),
            uploaded_at: now,
            expires_at,
            owner_token: token.to_owned(),
            download_count: 0,
            visibility,
        };
        assert(record@ == blob.record);
        if !self.meta.insert(record) {
            assert(holds(s0, id@)) by {
                let j = choose|j: int| 0 <= j < m0.len() && m0[j].id == id@;
                assert(s0[j].record.id == id@);
            }
            assert(self@ =~= s0);
            return Err(EngineError::StorageUnavailable);
        }
        assert(!holds(s0, id@)) by {
            if holds(s0, id@) {
                let j = choose|j: int| 0 <= j < s0.len() && s0[j].record.id == id@;
                assert(m0[j].id == id@);
            }
        }
        if !self.blobs.write(id.text().clone(), bytes) {
            proof {
                let j = choose|j: int| 0 <= j < b0.len() && b0[j].0 == id@;
                assert(m0[j].id == id@);
            }
            let last = self.meta.len() - 1;
            self.meta.remove_at(last);
            return Err(EngineError::StorageUnavailable);
        }
        assert(self@ =~= s0.push(blob));
        assert(ids_unique(self@)) by {
            assert forall|a: int, b: int|
                0 <= a < self@.len() && 0 <= b < self@.len() && a != b implies self@[a].record.id
                != self@[b].record.id by {
                if a == s0.len() {
                    assert(s0[b].record.id != id@);
                } else if b == s0.len() {
                    assert(s0[a].record.id != id@);
                }
            }
        }
        Ok(id)
    }

    /// Admits, allocates an identifier for, classifies and stores one upload.
    /// `token_valid` is the admission authority's verdict on `token`. An
    /// admitted upload fails only with `StorageUnavailable`: when no free
    /// identifier turned up within `MAX_ALLOCATION_ATTEMPTS` draws, or the
    /// write was refused; nothing is stored then.
    pub fn ingest(
        &mut self,
        bytes: Vec<u8>,
        token: &str,
        token_valid: bool,
        title: &str,
        ttl: Option<i64>,
        visibility: Visibility,
        now: i64,
    ) -> (r: Result<FileId, EngineError>)
        requires
            old(self).wf(),
        ensures
            final(self).wf(),
            final(self).settings() == old(self).settings(),
            admission(records_of(old(self)@), old(self).settings(), token@, token_valid, ttl, now) matches Err(
                e,
            ) ==> r == Err::<FileId, EngineError>(e) && final(self)@ == old(self)@,
            admission(records_of(old(self)@), old(self).settings(), token@, token_valid, ttl, now) matches Ok(
                expires_at,
            ) ==> match r {
                Ok(id) => {
                    &&& is_valid_id(id@, old(self).settings().id_length as nat)
                    &&& !holds(old(self)@, id@)
                    &&& final(self)@ == old(self)@.push(
                        new_blob(
                            id@,
                            title@,
                            content_type_of(sniffed_mime(bytes@)),
                            bytes@,
                            token@,
                            now,
                            expires_at,
                            visibility,
                        ),
                    )
                },
                Err(e) => e == EngineError::StorageUnavailable && final(self)@ == old(self)@,
            },
            admission(records_of(old(self)@), old(self).settings(), token@, token_valid, ttl, now) is Ok
                && no_id_of_length(old(self)@, old(self).settings().id_length as nat) ==> r is Ok,
    {
        let expires_at = match self.approve(token, token_valid, ttl, now) {
            Ok(t) => t,
            Err(e) => return Err(e),
        };
        let id = match self.allocate() {
            Some(id) => id,
            None => return Err(EngineError::StorageUnavailable),
        };
        let content_type = classify(bytes.as_slice());
        self.commit(id, bytes, token, title, content_type, expires_at, visibility, now)
    }

    /// Serves the content type and content of the blob `id` at `now`, and
    /// counts the download. An expired blob is deleted on the spot, record and
    /// content together, and reported as absent.
    pub fn retrieve(&mut self, id: &str, now: i64) -> (r: Result<(String, Vec<u8>), EngineError>)
        requires
            old(self).wf(),
        ensures
            final(self).wf(),
            final(self).settings() == old(self).settings(),
            final(self)@ == after_retrieve(old(self)@, id@, now as int),
            match r {
                Ok((content_type, bytes)) => served(old(self)@, id@, now as int) == Some(
                    (content_type@, bytes@),
                ),
                Err(e) => e == EngineError::NotFound && served(old(self)@, id@, now as int) is None,
            },
    {
        let ghost s0 = self@;
        let key = id.to_owned();
        match self.meta.position(&key) {
            None => {
                proof {
                    assert forall|i: int| 0 <= i < s0.len() implies s0[i].record.id != id@ by {
                        assert(s0[i].record == self.meta@[i]);
                    }
                    lemma_index_of_absent(s0, id@);
                }
                Err(EngineError::NotFound)
            },
            Some(i) => {
                proof {
                    assert(s0[i as int].record.id == id@);
                    lemma_index_of_unique(s0, i as int);
                }
                let record = self.meta.get(i);
                let live = match record.expires_at {
                    Some(t) => now < t,
                    None => true,
                };
                if !live {
                    self.meta.remove_at(i);
                    self.blobs.remove_at(i);
                    proof {
                        assert(self@ =~= s0.remove(i as int));
                        lemma_unique_remove(s0, i as int);
                    }
                    Err(EngineError::NotFound)
                } else {
                    let content_type = record.content_type.clone();
                    let bytes = self.blobs.read_at(i);
                    self.meta.record_download(i);
                    proof {
                        let t = s0.update(i as int, downloaded(s0[i as int]));
                        assert(self@ =~= t);
                        assert forall|a: int, b: int|
                            0 <= a < t.len() && 0 <= b < t.len() && a != b implies t[a].record.id
                            != t[b].record.id by {
                            assert(s0[a].record.id != s0[b].record.id);
                        }
                    }
                    Ok((content_type, bytes))
                }
            },
        }
    }

    /// The public listing at `now`: every live, public blob, whoever uploaded
    /// it. `token_valid` is the admission authority's verdict on the caller's
    /// token.
    pub fn list_public(&self, token_valid: bool, now: i64) -> (r: Result<Vec<FileData>, EngineError>)
        requires
            self.wf(),
        ensures
            !token_valid ==> r == Err::<Vec<FileData>, EngineError>(EngineError::PermissionDenied),
            token_valid ==> (r matches Ok(v) && v@.map_values(|d: FileData| d@) == public_feed(
                records_of(self@),
                now as int,
            )),
    {
        proof {
            self.lemma_records();
        }
        if !token_valid {
            return Err(EngineError::PermissionDenied);
        }
        Ok(self.meta.scan_public(now))
    }

    /// Deletes every blob whose expiry lies strictly before `now`, record and
    /// content together.
    pub fn sweep(&mut self, now: i64)
        requires
            old(self).wf(),
        ensures
            final(self).wf(),
            final(self).settings() == old(self).settings(),
            final(self)@ == after_sweep(old(self)@, now as int),
    {
        let ghost s0 = self@;
        let ghost keep = survives_sweep(now as int);
        let mut i = self.meta.len();
        assert(s0.skip(i as int) =~= Seq::<StoredBlob>::empty());
        assert(s0.take(i as int) =~= s0);
        proof {
            reveal(Seq::filter);
            assert(Seq::<StoredBlob>::empty().filter(keep) =~= Seq::<StoredBlob>::empty());
            assert(s0 =~= s0.take(i as int) + s0.skip(i as int).filter(keep));
        }
        while i > 0
            invariant
                self.wf(),
                self.settings() == old(self).settings(),
                i <= s0.len(),
                i <= self@.len(),
                self@ == s0.take(i as int) + s0.skip(i as int).filter(keep),
                keep == survives_sweep(now as int),
            decreases i,
        {
            i = i - 1;
            let ghost before = self@;
            let ghost rest = s0.skip(i + 1).filter(keep);
            proof {
                assert(s0.skip(i as int) =~= seq![s0[i as int]] + s0.skip(i + 1));
                s0.skip(i + 1).lemma_filter_prepend(s0[i as int], keep);
                assert(s0.take(i + 1) =~= s0.take(i as int).push(s0[i as int]));
                assert(before[i as int] == s0[i as int]);
            }
            let swept = match self.meta.get(i).expires_at {
                Some(t) => t < now,
                None => false,
            };
            if swept {
                self.meta.remove_at(i);
                self.blobs.remove_at(i);
                proof {
                    assert(self@ =~= before.remove(i as int));
                    lemma_unique_remove(before, i as int);
                    assert(self@ =~= s0.take(i as int) + s0.skip(i as int).filter(keep));
                }
            } else {
                assert(self@ =~= s0.take(i as int) + s0.skip(i as int).filter(keep));
            }
        }
        assert(s0.skip(0) =~= s0);
        assert(self@ =~= after_sweep(s0, now as int));
    }

    /// The record of the blob `id`, if one is stored (live or not).
    pub fn record(&self, id: &str) -> (r: Option<&BlobRecord>)
        requires
            self.wf(),
        ensures
            index_of(self@, id@) < 0 ==> r is None,
            index_of(self@, id@) >= 0 ==> (r matches Some(rec) && rec@ == self@[index_of(
                self@,
                id@,
            )].record),
    {
        let key = id.to_owned();
        match self.meta.position(&key) {
            None => {
                proof {
                    assert forall|i: int| 0 <= i < self@.len() implies self@[i].record.id != id@ by {
                        assert(self@[i].record == self.meta@[i]);
                    }
                    lemma_index_of_absent(self@, id@);
                }
                None
            },
            Some(i) => {
                proof {
                    assert(self@[i as int].record.id == id@);
                    lemma_index_of_unique(self@, i as int);
                }
                Some(self.meta.get(i))
            },
        }
    }
}

} // verus!
