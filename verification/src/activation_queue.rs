//! The exactly-once activation queue and its encrypted persistence.
//!
//! * Exactly once: an id that is queued is not queued again
//!   (`seen` holds the ids of the queued items).
//! * First in, first out, at most [`MAX_QUEUE_SIZE`] items; when full, the
//!   oldest item makes room for a new one.
//! * Persistence: AES-256-GCM under a key derived with SHA-256 from the app
//!   GUID; the stored blob is `nonce (12 bytes) || ciphertext + tag`.
//!
//! Threads, the mutex around the state and the file I/O stay with the
//! caller; this module holds the state and every decision about it.
use vstd::prelude::*;
use vstd::utf8::*;
use std::collections::VecDeque;
use aes_gcm::aead::rand_core::RngCore;
use aes_gcm::aead::{Aead, KeyInit, OsRng};
use sha2::Digest;
use crate::models::NotificationActionEvent;
use crate::text::str_eq;

verus! {

/// The most activations the queue holds.
pub const MAX_QUEUE_SIZE: usize = 512;

/// The largest plaintext that AES-GCM encrypts (2^36 bytes).
pub const MAX_PLAINTEXT_LEN: u64 = 0x10_0000_0000;

/// One queued activation.
#[derive(Debug, Clone)]
pub struct QueuedActivation {
    pub id: String,
    pub payload: NotificationActionEvent,
    pub timestamp: u64,
}

/// The ids of a sequence of activations, in order.
pub open spec fn ids(s: Seq<QueuedActivation>) -> Seq<Seq<char>> {
    s.map_values(|a: QueuedActivation| a.id@)
}

/// The set of ids held by a list of strings.
pub open spec fn id_set(v: Seq<String>) -> Set<Seq<char>> {
    Set::new(|x: Seq<char>| exists|i: int| 0 <= i < v.len() && #[trigger] v[i]@ == x)
}

/// The queue: the pending activations and the set of their ids.
#[derive(Debug)]
pub struct QueueState {
    items: VecDeque<QueuedActivation>,
    seen: Vec<String>,
}

fn seen_contains(seen: &Vec<String>, id: &str) -> (r: bool)
    ensures
        r == id_set(seen@).contains(id@),
{
    let mut i: usize = 0;
    while i < seen.len()
        invariant
            i <= seen@.len(),
            forall|j: int| 0 <= j < i ==> seen@[j]@ != id@,
        decreases seen.len() - i,
    {
        if str_eq(seen[i].as_str(), id) {
            assert(seen@[i as int]@ == id@);
            return true;
        }
        i = i + 1;
    }
    false
}

fn seen_remove(seen: &mut Vec<String>, id: &str)
    ensures
        id_set(final(seen)@) == id_set(old(seen)@).remove(id@),
{
    let mut kept: Vec<String> = Vec::new();
    let mut i: usize = 0;
    while i < seen.len()
        invariant
            i <= seen@.len(),
            seen@ == old(seen)@,
            forall|x: Seq<char>|
                id_set(kept@).contains(x) <==> (id_set(seen@.take(i as int)).contains(x) && x
                    != id@),
        decreases seen.len() - i,
    {
        let ghost before = kept@;
        if !str_eq(seen[i].as_str(), id) {
            kept.push(seen[i].clone());
        }
        proof {
            assert forall|x: Seq<char>|
                id_set(kept@).contains(x) <==> (id_set(seen@.take(i + 1)).contains(x) && x
                    != id@) by {
                if id_set(kept@).contains(x) {
                    let j = choose|j: int| 0 <= j < kept@.len() && #[trigger] kept@[j]@ == x;
                    if j < before.len() {
                        assert(before[j]@ == x);
                        assert(id_set(before).contains(x));
                        let k = choose|k: int|
                            0 <= k < i && #[trigger] seen@.take(i as int)[k]@ == x;
                        assert(seen@.take(i + 1)[k]@ == x);
                    } else {
                        assert(seen@.take(i + 1)[i as int]@ == x);
                    }
                }
                if id_set(seen@.take(i + 1)).contains(x) && x != id@ {
                    let k = choose|k: int| 0 <= k < i + 1 && #[trigger] seen@.take(i + 1)[k]@ == x;
                    if k < i {
                        assert(seen@.take(i as int)[k]@ == x);
                        assert(id_set(before).contains(x));
                        let j = choose|j: int| 0 <= j < before.len() && #[trigger] before[j]@ == x;
                        assert(kept@[j]@ == x);
                    } else {
                        assert(kept@[kept@.len() - 1]@ == x);
                    }
                }
            }
        }
        i = i + 1;
    }
    proof {
        assert(seen@.take(seen@.len() as int) =~= seen@);
        assert(id_set(kept@) =~= id_set(old(seen)@).remove(id@));
    }
    *seen = kept;
}

fn seen_insert(seen: &mut Vec<String>, id: String)
    ensures
        id_set(final(seen)@) == id_set(old(seen)@).insert(id@),
{
    let ghost k = id@;
    if !seen_contains(seen, id.as_str()) {
        seen.push(id);
        proof {
            assert forall|x: Seq<char>| #[trigger]
                id_set(seen@).contains(x) <==> id_set(old(seen)@).insert(k).contains(x) by {
                if id_set(old(seen)@).contains(x) {
                    let j = choose|j: int| 0 <= j < old(seen)@.len() && #[trigger] old(seen)@[j]@ == x;
                    assert(seen@[j]@ == x);
                }
                if id_set(seen@).contains(x) && x != k {
                    let j = choose|j: int| 0 <= j < seen@.len() && #[trigger] seen@[j]@ == x;
                    assert(old(seen)@[j]@ == x);
                }
                if x == k {
                    assert(seen@[seen@.len() - 1]@ == x);
                }
            }
        }
    }
    assert(id_set(seen@) =~= id_set(old(seen)@).insert(k));
}

impl QueueState {
    /// The pending activations, oldest first.
    pub closed spec fn items_view(&self) -> Seq<QueuedActivation> {
        self.items@
    }

    /// The ids marked as queued.
    pub closed spec fn seen_view(&self) -> Set<Seq<char>> {
        id_set(self.seen@)
    }

    /// The state is consistent: the marked ids are exactly the ids of the
    /// queued items, no id is queued twice, and the queue is not over
    /// capacity.
    pub open spec fn wf(&self) -> bool {
        &&& forall|x: Seq<char>| self.seen_view().contains(x) <==> ids(self.items_view()).contains(x)
        &&& ids(self.items_view()).no_duplicates()
        &&& self.items_view().len() <= MAX_QUEUE_SIZE
    }

    /// An empty queue.
    pub fn new() -> (q: QueueState)
        ensures
            q.items_view() == Seq::<QueuedActivation>::empty(),
            q.seen_view() == Set::<Seq<char>>::empty(),
            q.wf(),
    {
        let q = QueueState { items: VecDeque::new(), seen: Vec::new() };
        assert(q.seen_view() =~= Set::<Seq<char>>::empty());
        assert(ids(q.items_view()) =~= Seq::<Seq<char>>::empty());
        q
    }

    /// The number of pending activations.
    pub fn len(&self) -> (r: usize)
        ensures
            r == self.items_view().len(),
    {
        self.items.len()
    }

    /// Whether nothing is pending.
    pub fn is_empty(&self) -> (r: bool)
        ensures
            r == (self.items_view().len() == 0),
    {
        self.items.len() == 0
    }

    /// Whether `id` is marked as queued.
    pub fn contains_id(&self, id: &str) -> (r: bool)
        ensures
            r == self.seen_view().contains(id@),
    {
        seen_contains(&self.seen, id)
    }

    /// The pending activations, oldest first.
    pub fn items(&self) -> (r: &VecDeque<QueuedActivation>)
        ensures
            r@ == self.items_view(),
    {
        &self.items
    }

    /// Queues an activation received at `timestamp`. An id that is already
    /// queued is ignored; when the queue is full the oldest activation is
    /// dropped first.
    pub fn enqueue_at(&mut self, id: String, payload: NotificationActionEvent, timestamp: u64)
        ensures
            old(self).seen_view().contains(id@) ==> final(self).items_view() == old(self).items_view() && final(self).seen_view() == old(self).seen_view(),
            !old(self).seen_view().contains(id@) ==> {
                let full = old(self).items_view().len() >= MAX_QUEUE_SIZE;
                let kept = if full {
                    old(self).items_view().drop_first()
                } else {
                    old(self).items_view()
                };
                let marks = if full {
                    old(self).seen_view().remove(old(self).items_view()[0].id@)
                } else {
                    old(self).seen_view()
                };
                &&& final(self).items_view() == kept.push(
                    (QueuedActivation { id: id, payload: payload, timestamp: timestamp }),
                )
                &&& final(self).seen_view() == marks.insert(id@)
            },
            old(self).wf() ==> final(self).wf(),
    {
        if seen_contains(&self.seen, id.as_str()) {
            return ;
        }
        let ghost old_items = self.items@;
        if self.items.len() >= MAX_QUEUE_SIZE {
            if let Some(oldest) = self.items.pop_front() {
                seen_remove(&mut self.seen, oldest.id.as_str());
            }
        }
        let ghost mid_items = self.items@;
        let ghost mid_seen = id_set(self.seen@);
        let ghost k = id@;
        let act = QueuedActivation { id: id.clone(), payload, timestamp };
        let ghost a = act;
        self.items.push_back(act);
        seen_insert(&mut self.seen, id);
        proof {
            if old(self).wf() {
                lemma_ids_push(mid_items, a);
                if old_items.len() >= MAX_QUEUE_SIZE {
                    lemma_ids_drop_first(old_items);
                }
                assert(old(self).seen_view().contains(k) <==> ids(old_items).contains(k));
                assert(!ids(mid_items).contains(k));
                assert forall|x: Seq<char>|
                    self.seen_view().contains(x) <==> ids(self.items_view()).contains(x) by {
                    assert(old(self).seen_view().contains(x) <==> ids(old_items).contains(x));
                    if old_items.len() >= MAX_QUEUE_SIZE {
                        assert(mid_seen == old(self).seen_view().remove(old_items[0].id@));
                        assert(ids(mid_items).contains(x) <==> (ids(old_items).contains(x) && x
                            != old_items[0].id@));
                    } else {
                        assert(mid_items == old_items);
                    }
                }
            }
        }
    }

    /// Takes the oldest activation and unmarks its id, so that it can be
    /// queued again if processing fails.
    pub fn pop_next(&mut self) -> (r: Option<QueuedActivation>)
        ensures
            old(self).items_view().len() == 0 ==> r is None && final(self).items_view() == old(self).items_view() && final(self).seen_view() == old(self).seen_view(),
            old(self).items_view().len() > 0 ==> r == Some(old(self).items_view()[0])
                && final(self).items_view() == old(self).items_view().drop_first() && final(self).seen_view() == old(self).seen_view().remove(old(self).items_view()[0].id@),
            old(self).wf() ==> final(self).wf(),
    {
        let ghost old_items = self.items@;
        match self.items.pop_front() {
            Some(item) => {
                seen_remove(&mut self.seen, item.id.as_str());
                proof {
                    if old(self).wf() {
                        lemma_ids_drop_first(old_items);
                    }
                }
                Some(item)
            },
            None => None,
        }
    }

    /// Puts an activation whose processing failed back at the end of the
    /// queue, unless the queue is full.
    pub fn requeue(&mut self, act: QueuedActivation)
        ensures
            old(self).items_view().len() < MAX_QUEUE_SIZE ==> final(self).items_view() == old(self).items_view().push(act) && final(self).seen_view() == old(self).seen_view().insert(
                act.id@,
            ),
            old(self).items_view().len() >= MAX_QUEUE_SIZE ==> final(self).items_view() == old(self).items_view() && final(self).seen_view() == old(self).seen_view(),
            old(self).wf() && !old(self).seen_view().contains(act.id@) ==> final(self).wf(),
    {
        if self.items.len() < MAX_QUEUE_SIZE {
            let ghost a = act;
            let ghost old_items = self.items@;
            let id = act.id.clone();
            self.items.push_back(act);
            seen_insert(&mut self.seen, id);
            proof {
                if old(self).wf() && !old(self).seen_view().contains(a.id@) {
                    lemma_ids_push(old_items, a);
                }
            }
        }
    }

    /// Empties the queue.
    pub fn clear(&mut self)
        ensures
            final(self).items_view() == Seq::<QueuedActivation>::empty(),
            final(self).seen_view() == Set::<Seq<char>>::empty(),
            final(self).wf(),
    {
        self.items.clear();
        self.seen = Vec::new();
        assert(self.seen_view() =~= Set::<Seq<char>>::empty());
        assert(ids(self.items_view()) =~= Seq::<Seq<char>>::empty());
    }

    /// Replaces the contents with activations loaded from storage, in order,
    /// marking each id.
    pub fn restore(&mut self, loaded: Vec<QueuedActivation>)
        ensures
            final(self).items_view() == loaded@,
            forall|x: Seq<char>| final(self).seen_view().contains(x) <==> ids(loaded@).contains(x),
            ids(loaded@).no_duplicates() && loaded@.len() <= MAX_QUEUE_SIZE ==> final(self).wf(),
    {
        self.clear();
        let ghost all = loaded@;
        let mut rest = loaded;
        let total = rest.len();
        let mut n: usize = 0;
        while rest.len() > 0
            invariant
                total == all.len(),
                n + rest@.len() == all.len(),
                rest@ == all.skip(n as int),
                self.items_view() == all.take(n as int),
                forall|x: Seq<char>|
                    self.seen_view().contains(x) <==> ids(all.take(n as int)).contains(x),
            decreases rest@.len(),
        {
            let ghost prev = self.seen_view();
            let act = rest.remove(0);
            assert(act == all[n as int]);
            let id = act.id.clone();
            self.items.push_back(act);
            seen_insert(&mut self.seen, id);
            proof {
                assert(all.take(n + 1) =~= all.take(n as int).push(all[n as int]));
                lemma_ids_push(all.take(n as int), all[n as int]);
                assert forall|x: Seq<char>|
                    self.seen_view().contains(x) <==> ids(all.take(n + 1)).contains(x) by {
                    assert(prev.contains(x) <==> ids(all.take(n as int)).contains(x));
                    assert(self.seen_view() == prev.insert(all[n as int].id@));
                    assert(ids(all.take(n + 1)).contains(x) <==> (ids(all.take(n as int)).contains(
                        x,
                    ) || x == all[n as int].id@));
                }
                assert(rest@ =~= all.skip(n + 1));
            }
            n = n + 1;
        }
        proof {
            assert(all.take(n as int) =~= all);
            assert forall|x: Seq<char>|
                self.seen_view().contains(x) <==> ids(self.items_view()).contains(x) by {}
        }
    }
}

/// A queue saved as its items and restored from them comes back whole: the
/// same items in the same order, the same marks, and a consistent state. In
/// particular a cleared (flushed) queue comes back empty. `restored` is any
/// state that [`QueueState::restore`] gives for the saved items.
pub proof fn lemma_save_restore(q: QueueState, restored: QueueState)
    requires
        q.wf(),
        restored.items_view() == q.items_view(),
        forall|x: Seq<char>| restored.seen_view().contains(x) <==> ids(q.items_view()).contains(x),
    ensures
        restored.items_view() == q.items_view(),
        restored.seen_view() == q.seen_view(),
        restored.wf(),
        q.items_view().len() == 0 ==> restored.items_view().len() == 0 && restored.seen_view()
            == Set::<Seq<char>>::empty(),
{
    assert(restored.seen_view() =~= q.seen_view());
    if q.items_view().len() == 0 {
        assert(restored.seen_view() =~= Set::<Seq<char>>::empty());
    }
}

proof fn lemma_ids_push(s: Seq<QueuedActivation>, a: QueuedActivation)
    ensures
        ids(s.push(a)) == ids(s).push(a.id@),
        forall|x: Seq<char>| ids(s.push(a)).contains(x) <==> (ids(s).contains(x) || x == a.id@),
        ids(s).no_duplicates() && !ids(s).contains(a.id@) ==> ids(s.push(a)).no_duplicates(),
{
    assert(ids(s.push(a)) =~= ids(s).push(a.id@));
    let t = ids(s);
    assert forall|x: Seq<char>| t.push(a.id@).contains(x) <==> (t.contains(x) || x == a.id@) by {
        if t.contains(x) {
            let i = choose|i: int| 0 <= i < t.len() && t[i] == x;
            assert(t.push(a.id@)[i] == x);
        }
        if x == a.id@ {
            assert(t.push(a.id@)[t.len() as int] == x);
        }
        if t.push(a.id@).contains(x) && x != a.id@ {
            let i = choose|i: int| 0 <= i < t.len() + 1 && t.push(a.id@)[i] == x;
            assert(t[i] == x);
        }
    }
    if t.no_duplicates() && !t.contains(a.id@) {
        assert forall|i: int, j: int|
            0 <= i < t.len() + 1 && 0 <= j < t.len() + 1 && i != j implies t.push(a.id@)[i]
            != t.push(a.id@)[j] by {
            if i == t.len() {
                assert(t[j] == t.push(a.id@)[j]);
            } else if j == t.len() {
                assert(t[i] == t.push(a.id@)[i]);
            }
        }
    }
}

proof fn lemma_ids_drop_first(s: Seq<QueuedActivation>)
    requires
        s.len() > 0,
        ids(s).no_duplicates(),
    ensures
        ids(s.drop_first()) == ids(s).drop_first(),
        ids(s.drop_first()).no_duplicates(),
        forall|x: Seq<char>|
            ids(s.drop_first()).contains(x) <==> (ids(s).contains(x) && x != s[0].id@),
{
    assert(ids(s.drop_first()) =~= ids(s).drop_first());
    let t = ids(s);
    assert forall|x: Seq<char>| t.drop_first().contains(x) <==> (t.contains(x) && x != t[0]) by {
        if t.drop_first().contains(x) {
            let i = choose|i: int| 0 <= i < t.len() - 1 && t.drop_first()[i] == x;
            assert(t[i + 1] == x);
        }
        if t.contains(x) && x != t[0] {
            let i = choose|i: int| 0 <= i < t.len() && t[i] == x;
            assert(i != 0);
            assert(t.drop_first()[i - 1] == x);
        }
    }
}

/// The current time in seconds since the Unix epoch
/// (`SystemTime::now().duration_since(UNIX_EPOCH)`, zero before the epoch);
/// nothing is claimed of the value.
#[verifier::external_body]
fn now_secs() -> u64 {
    std::time::SystemTime::now()
        .duration_since(std::time::UNIX_EPOCH)
        .map(|d| d.as_secs())
        .unwrap_or(0)
}

impl QueueState {
    /// Queues an activation received now (see [`QueueState::enqueue_at`]).
    pub fn enqueue(&mut self, id: String, payload: NotificationActionEvent)
        ensures
            old(self).seen_view().contains(id@) ==> final(self).items_view() == old(self).items_view() && final(self).seen_view() == old(self).seen_view(),
            !old(self).seen_view().contains(id@) ==> {
                let full = old(self).items_view().len() >= MAX_QUEUE_SIZE;
                let kept = if full {
                    old(self).items_view().drop_first()
                } else {
                    old(self).items_view()
                };
                let marks = if full {
                    old(self).seen_view().remove(old(self).items_view()[0].id@)
                } else {
                    old(self).seen_view()
                };
                let ts = final(self).items_view().last().timestamp;
                &&& final(self).items_view() == kept.push(
                    (QueuedActivation { id: id, payload: payload, timestamp: ts }),
                )
                &&& final(self).seen_view() == marks.insert(id@)
            },
            final(self).seen_view().contains(id@),
            old(self).wf() ==> final(self).wf(),
    {
        let ts = now_secs();
        self.enqueue_at(id, payload, ts);
    }
}

// ── Encryption ─────────────────────────────────────────────────────────────

/// SHA-256 of a byte string.
pub uninterp spec fn sha256_of(data: Seq<u8>) -> Seq<u8>;

/// AES-256-GCM encryption (no associated data) of `plaintext` under `key`
/// and `nonce`: the ciphertext followed by the 16-byte tag.
pub uninterp spec fn aes256gcm_seal(key: Seq<u8>, nonce: Seq<u8>, plaintext: Seq<u8>) -> Seq<u8>;

/// AES-256-GCM decryption (no associated data): the plaintext, or nothing
/// when the ciphertext does not authenticate.
pub uninterp spec fn aes256gcm_open(key: Seq<u8>, nonce: Seq<u8>, ciphertext: Seq<u8>) -> Option<
    Seq<u8>,
>;

/// The optional byte vector as a sequence.
pub open spec fn opt_bytes(o: Option<Vec<u8>>) -> Option<Seq<u8>> {
    match o {
        Some(v) => Some(v@),
        None => None,
    }
}

/// `sha2::Sha256::digest`: the digest of `data`, which is 32 bytes long.
#[verifier::external_body]
fn sha256(data: &[u8]) -> (r: Vec<u8>)
    ensures
        r@ == sha256_of(data@),
        r@.len() == 32,
{
    sha2::Sha256::digest(data).to_vec()
}

/// Twelve bytes from the operating system's random source
/// (`OsRng::fill_bytes`); nothing is claimed of their values.
#[verifier::external_body]
fn random_nonce() -> (r: Vec<u8>)
    ensures
        r@.len() == 12,
{
    let mut nonce = [0u8;12];
    OsRng.fill_bytes(&mut nonce);
    nonce.to_vec()
}

/// `Aes256Gcm::encrypt`: the ciphertext of `plaintext`, 16 bytes (the tag)
/// longer than it. The crate refuses plaintexts over 2^36 bytes, which
/// `requires` leaves out.
#[verifier::external_body]
fn aes_seal(key: &[u8], nonce: &[u8], plaintext: &[u8]) -> (r: Vec<u8>)
    requires
        key@.len() == 32,
        nonce@.len() == 12,
        plaintext@.len() <= MAX_PLAINTEXT_LEN,
    ensures
        r@ == aes256gcm_seal(key@, nonce@, plaintext@),
        r@.len() == plaintext@.len() + 16,
{
    let cipher = aes_gcm::Aes256Gcm::new(aes_gcm::Key::<aes_gcm::Aes256Gcm>::from_slice(key));
    cipher.encrypt(aes_gcm::Nonce::from_slice(nonce), plaintext).unwrap()
}

/// `Aes256Gcm::decrypt`: the plaintext of `ciphertext`, or `None` when it
/// does not authenticate. Decrypting what `encrypt` produced under the same
/// key and nonce gives back the plaintext. Whether any other ciphertext
/// authenticates is left unsaid.
#[verifier::external_body]
fn aes_open(key: &[u8], nonce: &[u8], ciphertext: &[u8]) -> (r: Option<Vec<u8>>)
    requires
        key@.len() == 32,
        nonce@.len() == 12,
    ensures
        opt_bytes(r) == aes256gcm_open(key@, nonce@, ciphertext@),
        forall|p: Seq<u8>|
            p.len() <= MAX_PLAINTEXT_LEN && ciphertext@ == aes256gcm_seal(key@, nonce@, p)
                ==> opt_bytes(r) == Some(p),
{
    let cipher = aes_gcm::Aes256Gcm::new(aes_gcm::Key::<aes_gcm::Aes256Gcm>::from_slice(key));
    cipher.decrypt(aes_gcm::Nonce::from_slice(nonce), ciphertext).ok()
}

/// The storage key of an app GUID: SHA-256 of its UTF-8 bytes.
pub open spec fn key_of(guid: Seq<char>) -> Seq<u8> {
    sha256_of(encode_utf8(guid))
}

/// `blob` is an encryption of `plaintext` under `guid`: a 12-byte nonce
/// followed by the AES-256-GCM ciphertext made with it.
pub open spec fn is_encryption_of(blob: Seq<u8>, guid: Seq<char>, plaintext: Seq<u8>) -> bool {
    &&& plaintext.len() <= MAX_PLAINTEXT_LEN
    &&& blob.len() >= 12
    &&& blob.skip(12) == aes256gcm_seal(key_of(guid), blob.take(12), plaintext)
}

/// Derives the 32-byte storage key from the app GUID.
pub fn derive_key(guid: &str) -> (k: Vec<u8>)
    ensures
        k@ == key_of(guid@),
        k@.len() == 32,
{
    sha256(guid.as_bytes())
}

/// Encrypts `plaintext` under a fresh random nonce; the result is
/// `nonce || ciphertext + tag`.
pub fn encrypt(plaintext: &[u8], guid: &str) -> (blob: Vec<u8>)
    requires
        plaintext@.len() <= MAX_PLAINTEXT_LEN,
    ensures
        is_encryption_of(blob@, guid@, plaintext@),
        blob@.len() == plaintext@.len() + 28,
{
    let key = derive_key(guid);
    let nonce = random_nonce();
    let ct = aes_seal(key.as_slice(), nonce.as_slice(), plaintext);
    let mut out: Vec<u8> = Vec::new();
    let mut i: usize = 0;
    while i < nonce.len()
        invariant
            nonce@.len() == 12,
            i <= 12,
            out@ == nonce@.take(i as int),
        decreases 12 - i,
    {
        out.push(nonce[i]);
        i = i + 1;
        assert(out@ =~= nonce@.take(i as int));
    }
    let mut j: usize = 0;
    while j < ct.len()
        invariant
            nonce@.len() == 12,
            j <= ct@.len(),
            out@ == nonce@ + ct@.take(j as int),
        decreases ct.len() - j,
    {
        out.push(ct[j]);
        j = j + 1;
        assert(out@ =~= nonce@ + ct@.take(j as int));
    }
    assert(out@.take(12) =~= nonce@);
    assert(out@.skip(12) =~= ct@);
    out
}

/// Decrypts `nonce || ciphertext + tag`; `None` for a blob shorter than a
/// nonce or one that does not authenticate. A blob made by [`encrypt`] under
/// the same GUID gives back its plaintext.
pub fn decrypt(blob: &[u8], guid: &str) -> (r: Option<Vec<u8>>)
    ensures
        blob@.len() < 12 ==> r is None,
        blob@.len() >= 12 ==> opt_bytes(r) == aes256gcm_open(
            key_of(guid@),
            blob@.take(12),
            blob@.skip(12),
        ),
        forall|p: Seq<u8>| is_encryption_of(blob@, guid@, p) ==> opt_bytes(r) == Some(p),
{
    if blob.len() < 12 {
        return None;
    }
    let key = derive_key(guid);
    let mut nonce: Vec<u8> = Vec::new();
    let mut ct: Vec<u8> = Vec::new();
    let mut i: usize = 0;
    while i < blob.len()
        invariant
            12 <= blob@.len(),
            i <= blob@.len(),
            i <= 12 ==> nonce@ == blob@.take(i as int) && ct@.len() == 0,
            i > 12 ==> nonce@ == blob@.take(12) && ct@ == blob@.subrange(12, i as int),
        decreases blob.len() - i,
    {
        if i < 12 {
            nonce.push(blob[i]);
        } else {
            ct.push(blob[i]);
        }
        i = i + 1;
        assert(i <= 12 ==> nonce@ =~= blob@.take(i as int));
        assert(i > 12 ==> ct@ =~= blob@.subrange(12, i as int));
    }
    if blob.len() == 12 {
        assert(ct@ =~= blob@.skip(12));
    } else {
        assert(ct@ =~= blob@.skip(12));
    }
    aes_open(key.as_slice(), nonce.as_slice(), ct.as_slice())
}

// ── Storage file names ─────────────────────────────────────────────────────

/// The file that holds the encrypted queue.
pub fn queue_file() -> (r: &'static str)
    ensures
        r@ == "activation_queue.bin"@,
{
    "activation_queue.bin"
}

/// The temporary file written before the atomic rename.
pub fn queue_tmp_file() -> (r: &'static str)
    ensures
        r@ == "activation_queue.bin.tmp"@,
{
    "activation_queue.bin.tmp"
}

/// The append-only journal of queue events.
pub fn journal_file() -> (r: &'static str)
    ensures
        r@ == "activation_queue.journal"@,
{
    "activation_queue.journal"
}

} // verus!
