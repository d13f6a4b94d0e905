//! Properties of the store that relate several operations, proved over the
//! model that the operations' contracts are stated in.
use crate::content::{content_type_of, sniffed_mime};
use crate::model::{
    admission, after_retrieve, after_sweep, downloaded, holds, ids_unique, index_of, is_live,
    is_swept, lemma_index_of_unique, new_blob, records_of, served, survives_sweep, Config,
    StoredBlob, Visibility,
};
use vstd::prelude::*;

verus! {

broadcast use vstd::seq_lib::group_filter_ensures;

/// Adding a blob with a fresh identifier keeps identifiers unique.
proof fn lemma_unique_push(s: Seq<StoredBlob>, b: StoredBlob)
    requires
        ids_unique(s),
        !holds(s, b.record.id),
    ensures
        ids_unique(s.push(b)),
{
    let t = s.push(b);
    assert forall|x: int, y: int|
        0 <= x < t.len() && 0 <= y < t.len() && x != y implies t[x].record.id != t[y].record.id by {
        if x == s.len() {
            assert(t[y] == s[y]);
        } else if y == s.len() {
            assert(t[x] == s[x]);
        }
    }
}

/// A blob that an upload has just stored is served back at the same instant,
/// byte for byte and with the content type found in its bytes.
pub proof fn retrieve_after_ingest(
    s: Seq<StoredBlob>,
    config: Config,
    bytes: Seq<u8>,
    token: Seq<char>,
    token_valid: bool,
    title: Seq<char>,
    ttl: Option<i64>,
    visibility: Visibility,
    now: i64,
    id: Seq<char>,
)
    requires
        ids_unique(s),
        !holds(s, id),
        admission(records_of(s), config, token, token_valid, ttl, now) is Ok,
    ensures
        ({
            let content_type = content_type_of(sniffed_mime(bytes));
            let expires_at = admission(records_of(s), config, token, token_valid, ttl, now)->Ok_0;
            let t = s.push(
                new_blob(id, title, content_type, bytes, token, now, expires_at, visibility),
            );
            served(t, id, now as int) == Some((content_type, bytes))
        }),
{
    let content_type = content_type_of(sniffed_mime(bytes));
    let expires_at = admission(records_of(s), config, token, token_valid, ttl, now)->Ok_0;
    let b = new_blob(id, title, content_type, bytes, token, now, expires_at, visibility);
    let t = s.push(b);
    lemma_unique_push(s, b);
    assert(t[s.len() as int] == b);
    lemma_index_of_unique(t, s.len() as int);
    assert(is_live(b.record, now as int));
}

/// A blob whose expiry is at or before `now` is never served at `now`,
/// whether or not a sweep (at any instant) has run first.
pub proof fn expired_never_served(s: Seq<StoredBlob>, id: Seq<char>, now: int, swept_at: int)
    requires
        ids_unique(s),
        holds(s, id),
        s[index_of(s, id)].record.expires_at matches Some(t) && t <= now,
    ensures
        served(s, id, now) is None,
        served(after_sweep(s, swept_at), id, now) is None,
{
    let i = index_of(s, id);
    let t = after_sweep(s, swept_at);
    let j = index_of(t, id);
    if j >= 0 {
        s.lemma_filter_contains_rev(survives_sweep(swept_at), t[j]);
        let k = choose|k: int| 0 <= k < s.len() && s[k] == t[j];
        lemma_index_of_unique(s, k);
    }
}

/// After a sweep at `now`, no remaining blob has an expiry strictly before
/// `now`.
pub proof fn sweep_leaves_no_expired(s: Seq<StoredBlob>, now: int)
    ensures
        forall|i: int|
            0 <= i < after_sweep(s, now).len() ==> !is_swept(#[trigger] after_sweep(s, now)[i].record, now),
{
    assert forall|i: int| 0 <= i < after_sweep(s, now).len() implies !is_swept(
        #[trigger] after_sweep(s, now)[i].record,
        now,
    ) by {
        s.lemma_filter_pred(survives_sweep(now), i);
    }
}

/// The store after `n` retrievals of `id` at `now`.
pub open spec fn retrieved_times(s: Seq<StoredBlob>, id: Seq<char>, now: int, n: nat) -> Seq<StoredBlob>
    decreases n,
{
    if n == 0 {
        s
    } else {
        after_retrieve(retrieved_times(s, id, now, (n - 1) as nat), id, now)
    }
}

/// Each of `n` retrievals of a live blob is served and counts one download:
/// afterwards its counter has grown by exactly `n`.
pub proof fn downloads_add_up(s: Seq<StoredBlob>, id: Seq<char>, now: int, n: nat)
    requires
        ids_unique(s),
        holds(s, id),
        is_live(s[index_of(s, id)].record, now),
        s[index_of(s, id)].record.download_count + n <= u64::MAX,
    ensures
        ({
            let i = index_of(s, id);
            let t = retrieved_times(s, id, now, n);
            &&& index_of(t, id) == i
            &&& served(t, id, now) is Some
            &&& t[i].record.download_count == s[i].record.download_count + n
        }),
    decreases n,
{
    let i = index_of(s, id);
    assert(s[i].record.id == id);
    if n > 0 {
        downloads_add_up(s, id, now, (n - 1) as nat);
    }
    lemma_retrieved_times_shape(s, id, now, n);
    let t = retrieved_times(s, id, now, n);
    lemma_index_of_unique(t, i);
}

/// `n` retrievals of a live blob change nothing but its download counter.
proof fn lemma_retrieved_times_shape(s: Seq<StoredBlob>, id: Seq<char>, now: int, n: nat)
    requires
        ids_unique(s),
        holds(s, id),
        is_live(s[index_of(s, id)].record, now),
        s[index_of(s, id)].record.download_count + n <= u64::MAX,
    ensures
        ({
            let i = index_of(s, id);
            let t = retrieved_times(s, id, now, n);
            &&& t.len() == s.len()
            &&& ids_unique(t)
            &&& t[i].record.id == id
            &&& t[i].record.expires_at == s[i].record.expires_at
            &&& t[i].record.download_count == s[i].record.download_count + n
            &&& forall|k: int| 0 <= k < s.len() && k != i ==> t[k] == s[k]
        }),
    decreases n,
{
    let i = index_of(s, id);
    assert(s[i].record.id == id);
    if n > 0 {
        lemma_retrieved_times_shape(s, id, now, (n - 1) as nat);
        let p = retrieved_times(s, id, now, (n - 1) as nat);
        lemma_index_of_unique(p, i);
        let t = p.update(i, downloaded(p[i]));
        assert(retrieved_times(s, id, now, n) == t);
        assert forall|a: int, b: int|
            0 <= a < t.len() && 0 <= b < t.len() && a != b implies t[a].record.id != t[b].record.id by {
            assert(p[a].record.id != p[b].record.id);
        }
    }
}

} // verus!
