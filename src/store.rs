//! The in-process metadata store and content store.
use crate::model::{
    counts_against, public_feed, recent_uploads, summary, RecordView, SummaryView,
    Visibility,
};
use vstd::prelude::*;

verus! {

/// The metadata of one stored blob.
#[derive(Debug)]
pub struct BlobRecord {
    pub id: String,
    pub title: String,
    /// MIME type found by looking at the content, or `unknown`.
    pub content_type: String,
    pub size_bytes: usize,
    pub uploaded_at: i64,
    /// `None` when the blob never expires.
    pub expires_at: Option<i64>,
    pub owner_token: String,
    pub download_count: u64,
    pub visibility: Visibility,
}

impl View for BlobRecord {
    type V = RecordView;

    open spec fn view(&self) -> RecordView {
        RecordView {
            id: self.id@,
            title: self.title@,
            content_type: self.content_type@,
            size_bytes: self.size_bytes,
            uploaded_at: self.uploaded_at,
            expires_at: self.expires_at,
            owner_token: self.owner_token@,
            download_count: self.download_count,
            visibility: self.visibility,
        }
    }
}

/// One entry of the public listing.
#[derive(Debug)]
pub struct FileData {
    pub id: String,
    pub title: String,
    pub upload_date: i64,
    pub content_type: String,
    pub download_count: u64,
    pub size: usize,
}

/// The listing entry under the name used where only images are stored.
pub type ImageData = FileData;

impl View for FileData {
    type V = SummaryView;

    open spec fn view(&self) -> SummaryView {
        SummaryView {
            id: self.id@,
            title: self.title@,
            upload_date: self.upload_date,
            content_type: self.content_type@,
            download_count: self.download_count,
            size: self.size,
        }
    }
}

impl FileData {
    /// The listing entry of `r`.
    pub fn of(r: &BlobRecord) -> (d: FileData)
        ensures
            d@ == summary(r@),
    {
        FileData {
            id: r.id.clone(),
            title: r.title.clone(),
            upload_date: r.uploaded_at,
            content_type: r.content_type.clone(),
            download_count: r.download_count,
            size: r.size_bytes,
        }
    }
}

/// Whether `r` counts against `token`'s quota at `now`.
fn record_counts(r: &BlobRecord, token: &String, now: i64, window: i64) -> (b: bool)
    ensures
        b == counts_against(r@, token@, now as int, window as int),
{
    let live = match r.expires_at {
        Some(t) => now < t,
        None => true,
    };
    r.owner_token == *token && live && (r.uploaded_at as i128) > (now as i128) - (window as i128)
}

/// Keyed store of blob metadata, one record per identifier.
pub struct MetadataStore {
    records: Vec<BlobRecord>,
}

impl View for MetadataStore {
    type V = Seq<RecordView>;

    closed spec fn view(&self) -> Seq<RecordView> {
        self.records@.map_values(|r: BlobRecord| r@)
    }
}

impl MetadataStore {
    /// An empty store.
    pub fn new() -> (s: MetadataStore)
        ensures
            s@ == Seq::<RecordView>::empty(),
    {
        let s = MetadataStore { records: Vec::new() };
        assert(s@ =~= Seq::<RecordView>::empty());
        s
    }

    /// Number of records.
    pub fn len(&self) -> (n: usize)
        ensures
            n == self@.len(),
    {
        self.records.len()
    }

    /// The record at position `i`.
    pub fn get(&self, i: usize) -> (r: &BlobRecord)
        requires
            i < self@.len(),
        ensures
            r@ == self@[i as int],
    {
        &self.records[i]
    }

    /// The first position holding identifier `id`.
    pub fn position(&self, id: &String) -> (r: Option<usize>)
        ensures
            match r {
                Some(i) => i < self@.len() && self@[i as int].id == id@ && forall|j: int|
                    0 <= j < i ==> self@[j].id != id@,
                None => forall|j: int| 0 <= j < self@.len() ==> self@[j].id != id@,
            },
    {
        let mut i: usize = 0;
        while i < self.records.len()
            invariant
                i <= self.records@.len(),
                forall|j: int| 0 <= j < i ==> self@[j].id != id@,
            decreases self.records@.len() - i,
        {
            if self.records[i].id == *id {
                return Some(i);
            }
            i = i + 1;
        }
        None
    }

    /// Adds `record` unless its identifier is taken; tells whether it did.
    pub fn insert(&mut self, record: BlobRecord) -> (added: bool)
        ensures
            added == forall|j: int| 0 <= j < old(self)@.len() ==> old(self)@[j].id != record.id@,
            added ==> final(self)@ == old(self)@.push(record@),
            !added ==> final(self)@ == old(self)@,
    {
        match self.position(&record.id) {
            Some(_) => false,
            None => {
                let ghost before = self@;
                self.records.push(record);
                assert(self@ =~= before.push(record@));
                true
            },
        }
    }

    /// Removes the record at position `i`.
    pub fn remove_at(&mut self, i: usize)
        requires
            i < old(self)@.len(),
        ensures
            final(self)@ == old(self)@.remove(i as int),
    {
        let ghost before = self@;
        self.records.remove(i);
        assert(self@ =~= before.remove(i as int));
    }

    /// Counts one more download of the record at position `i`; the counter
    /// stops at its maximum.
    pub fn record_download(&mut self, i: usize)
        requires
            i < old(self)@.len(),
        ensures
            final(self)@ == old(self)@.update(
                i as int,
                RecordView {
                    download_count: if old(self)@[i as int].download_count < u64::MAX {
                        (old(self)@[i as int].download_count + 1) as u64
                    } else {
                        old(self)@[i as int].download_count
                    },
                    ..old(self)@[i as int]
                },
            ),
    {
        let ghost before = self@;
        let n = self.records[i].download_count;
        if n < u64::MAX {
            self.records[i].download_count = n + 1;
        }
        assert(self@ =~= before.update(
            i as int,
            RecordView {
                download_count: if before[i as int].download_count < u64::MAX {
                    (before[i as int].download_count + 1) as u64
                } else {
                    before[i as int].download_count
                },
                ..before[i as int]
            },
        ));
    }

    /// How many records count against `token`'s quota at `now`.
    pub fn count_recent(&self, token: &String, now: i64, window: i64) -> (n: usize)
        ensures
            n == recent_uploads(self@, token@, now as int, window as int),
    {
        let mut n: usize = 0;
        let mut i: usize = 0;
        while i < self.records.len()
            invariant
                i <= self.records@.len(),
                n <= i,
                n == recent_uploads(self@.take(i as int), token@, now as int, window as int),
            decreases self.records@.len() - i,
        {
            assert(self@.take(i + 1).drop_last() =~= self@.take(i as int));
            if record_counts(&self.records[i], token, now, window) {
                n = n + 1;
            }
            i = i + 1;
        }
        assert(self@.take(i as int) =~= self@);
        n
    }

    /// The listing entries of all records that are live and public at `now`.
    pub fn scan_public(&self, now: i64) -> (out: Vec<FileData>)
        ensures
            out@.map_values(|d: FileData| d@) == public_feed(self@, now as int),
    {
        let mut out: Vec<FileData> = Vec::new();
        let mut i: usize = 0;
        while i < self.records.len()
            invariant
                i <= self.records@.len(),
                out@.map_values(|d: FileData| d@) == public_feed(self@.take(i as int), now as int),
            decreases self.records@.len() - i,
        {
            assert(self@.take(i + 1).drop_last() =~= self@.take(i as int));
            let r = &self.records[i];
            let live = match r.expires_at {
                Some(t) => now < t,
                None => true,
            };
            if live && r.visibility == Visibility::Public {
                let ghost before = out@;
                out.push(FileData::of(r));
                assert(out@.map_values(|d: FileData| d@) =~= before.map_values(|d: FileData| d@).push(
                    summary(r@),
                ));
            }
            i = i + 1;
        }
        assert(self@.take(i as int) =~= self@);
        out
    }
}

/// One content object.
struct BlobObject {
    id: String,
    bytes: Vec<u8>,
}

/// Write-once content store keyed by identifier.
pub struct BlobStore {
    objects: Vec<BlobObject>,
}

impl View for BlobStore {
    /// Identifier and content of each object, in order.
    type V = Seq<(Seq<char>, Seq<u8>)>;

    closed spec fn view(&self) -> Seq<(Seq<char>, Seq<u8>)> {
        self.objects@.map_values(|o: BlobObject| (o.id@, o.bytes@))
    }
}

impl BlobStore {
    /// An empty store.
    pub fn new() -> (s: BlobStore)
        ensures
            s@ == Seq::<(Seq<char>, Seq<u8>)>::empty(),
    {
        let s = BlobStore { objects: Vec::new() };
        assert(s@ =~= Seq::<(Seq<char>, Seq<u8>)>::empty());
        s
    }

    /// Number of objects.
    pub fn len(&self) -> (n: usize)
        ensures
            n == self@.len(),
    {
        self.objects.len()
    }

    /// Stores `bytes` under `id` unless an object with that identifier
    /// exists; a second write to an identifier is refused, not an overwrite.
    pub fn write(&mut self, id: String, bytes: Vec<u8>) -> (written: bool)
        ensures
            written == forall|j: int| 0 <= j < old(self)@.len() ==> old(self)@[j].0 != id@,
            written ==> final(self)@ == old(self)@.push((id@, bytes@)),
            !written ==> final(self)@ == old(self)@,
    {
        let mut i: usize = 0;
        while i < self.objects.len()
            invariant
                i <= self.objects@.len(),
                forall|j: int| 0 <= j < i ==> self@[j].0 != id@,
            decreases self.objects@.len() - i,
        {
            if self.objects[i].id == id {
                assert(self@[i as int].0 == id@);
                return false;
            }
            i = i + 1;
        }
        let ghost before = self@;
        let ghost entry = (id@, bytes@);
        self.objects.push(BlobObject { id, bytes });
        assert(self@ =~= before.push(entry));
        true
    }

    /// A copy of the content at position `i`.
    pub fn read_at(&self, i: usize) -> (bytes: Vec<u8>)
        requires
            i < self@.len(),
        ensures
            bytes@ == self@[i as int].1,
    {
        let bytes = self.objects[i].bytes.clone();
        assert(bytes@ =~= self.objects@[i as int].bytes@);
        bytes
    }

    /// Removes the object at position `i`.
    pub fn remove_at(&mut self, i: usize)
        requires
            i < old(self)@.len(),
        ensures
            final(self)@ == old(self)@.remove(i as int),
    {
        let ghost before = self@;
        self.objects.remove(i);
        assert(self@ =~= before.remove(i as int));
    }
}

} // verus!
