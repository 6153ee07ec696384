//! The ledger: an append-only, hash-chained record of events.
//!
//! Each entry commits, through SHA-256, to its index, to the digest of the
//! entry before it, to its payload (canonical JSON text) and to its
//! timestamp (RFC 3339 text). The chain held here is the ground truth; the
//! journal file and the relational index that callers keep are written from
//! the entries this type hands out, and an entry joins the chain only once
//! it has been committed (see `Ledger::commit`).

use vstd::prelude::*;
use vstd::string::StrSliceExecFns;
use vstd::utf8::encode_utf8;
use crate::json::{json_quoted, json_string_literal};
use crate::text::{contains_text, text_contains};

verus! {

/// 64 zeros: the `previous_hash` of the first entry.
pub const GENESIS_HASH: &'static str = "0000000000000000000000000000000000000000000000000000000000000000";

/// Text of the `provenance` field of an exported manifest.
pub const PROVENANCE: &'static str = "AXIAL v1-max Evidence Bundle";

pub open spec fn genesis_hash() -> Seq<char> {
    Seq::new(64, |_i: int| '0')
}

/// The lower-case hex SHA-256 digest of `data`.
pub uninterp spec fn sha256_hex(data: Seq<u8>) -> Seq<char>;

/// Relies on sha2's `Sha256::digest` and on generic-array's `LowerHex`,
/// which writes two lower-case hex digits for each of the 32 digest bytes.
#[verifier::external_body]
fn sha256_hex_of(data: &Vec<u8>) -> (r: String)
    ensures
        r@ == sha256_hex(data@),
        r@.len() == 64,
{
    format!("{:x}", <sha2::Sha256 as sha2::Digest>::digest(data.as_slice()))
}

/// Relies on chrono's `Utc::now` and `DateTime::to_rfc3339`: the current
/// time as RFC 3339 text. Nothing is promised of its value.
#[verifier::external_body]
fn utc_now_rfc3339() -> (r: String) {
    chrono::Utc::now().to_rfc3339()
}

/// `n` as eight big-endian bytes.
pub open spec fn be_bytes(n: u64) -> Seq<u8> {
    seq![
        (n >> 56u64) as u8,
        (n >> 48u64) as u8,
        (n >> 40u64) as u8,
        (n >> 32u64) as u8,
        (n >> 24u64) as u8,
        (n >> 16u64) as u8,
        (n >> 8u64) as u8,
        n as u8,
    ]
}

/// The bytes an entry's digest is taken over.
pub open spec fn digest_input(index: u64, previous_hash: Seq<char>, payload: Seq<char>, timestamp: Seq<char>) -> Seq<u8> {
    be_bytes(index) + encode_utf8(previous_hash) + encode_utf8(payload) + encode_utf8(timestamp)
}

pub open spec fn entry_digest(index: u64, previous_hash: Seq<char>, payload: Seq<char>, timestamp: Seq<char>) -> Seq<char> {
    sha256_hex(digest_input(index, previous_hash, payload, timestamp))
}

/// One record of the chain.
pub struct LedgerEntry {
    pub index: u64,
    pub previous_hash: String,
    /// Canonical JSON text of the event.
    pub payload: String,
    /// RFC 3339 text.
    pub timestamp: String,
    pub hash: String,
}

impl Clone for LedgerEntry {
    fn clone(&self) -> (r: Self)
        ensures
            r == *self,
    {
        LedgerEntry {
            index: self.index,
            previous_hash: self.previous_hash.clone(),
            payload: self.payload.clone(),
            timestamp: self.timestamp.clone(),
            hash: self.hash.clone(),
        }
    }
}

/// The stored digest of `e` is the digest of its fields.
pub open spec fn sealed(e: LedgerEntry) -> bool {
    e.hash@ == entry_digest(e.index, e.previous_hash@, e.payload@, e.timestamp@)
}

/// The digest the entry after `s` must point back to.
pub open spec fn chain_head(s: Seq<LedgerEntry>) -> Seq<char> {
    if s.len() == 0 {
        genesis_hash()
    } else {
        s.last().hash@
    }
}

/// The index the entry after `s` receives.
pub open spec fn next_index_after(s: Seq<LedgerEntry>) -> int {
    if s.len() == 0 {
        0
    } else {
        s.last().index + 1
    }
}

/// Entry `i` points back to its predecessor, or to the genesis digest.
pub open spec fn linked_at(s: Seq<LedgerEntry>, i: int) -> bool {
    s[i].previous_hash@ == chain_head(s.take(i))
}

/// What a replay from genesis accepts: every entry is linked and sealed.
pub open spec fn chain_valid(s: Seq<LedgerEntry>) -> bool {
    forall|i: int| #![trigger s[i]] 0 <= i < s.len() ==> linked_at(s, i) && sealed(s[i])
}

/// Why `Ledger::commit` refused an entry.
#[derive(Debug, PartialEq, Eq, Structural, Clone, Copy)]
pub enum LedgerError {
    /// The entry's index is not the next one.
    IndexMismatch,
    /// The entry does not point back to the current head.
    BrokenLink,
    /// The stored digest is not the digest of the entry's fields.
    DigestMismatch,
    /// The index space is used up.
    IndexExhausted,
}

/// The manifest of an exported bundle.
pub struct RunpackManifest {
    pub export_time: String,
    pub total_entries: u64,
    pub root_hash: String,
    pub provenance: String,
}

/// The chain and its head.
pub struct Ledger {
    entries: Vec<LedgerEntry>,
    last_hash: String,
    next_index: u64,
}

fn genesis() -> (r: String)
    ensures
        r@ == genesis_hash(),
{
    proof {
        reveal_strlit("0000000000000000000000000000000000000000000000000000000000000000");
    }
    let r = String::from_str(GENESIS_HASH);
    assert(r@ =~= genesis_hash());
    r
}

fn be_bytes_vec(n: u64) -> (r: Vec<u8>)
    ensures
        r@ == be_bytes(n),
{
    let r = vec![
        (n >> 56u64) as u8,
        (n >> 48u64) as u8,
        (n >> 40u64) as u8,
        (n >> 32u64) as u8,
        (n >> 24u64) as u8,
        (n >> 16u64) as u8,
        (n >> 8u64) as u8,
        n as u8,
    ];
    assert(r@ =~= be_bytes(n));
    r
}

/// The digest of an entry with these fields.
pub fn compute_digest(index: u64, previous_hash: &str, payload: &str, timestamp: &str) -> (r: String)
    ensures
        r@ == entry_digest(index, previous_hash@, payload@, timestamp@),
        r@.len() == 64,
{
    let mut data = be_bytes_vec(index);
    let mut p = previous_hash.as_bytes_vec();
    data.append(&mut p);
    let mut q = payload.as_bytes_vec();
    data.append(&mut q);
    let mut t = timestamp.as_bytes_vec();
    data.append(&mut t);
    assert(data@ =~= digest_input(index, previous_hash@, payload@, timestamp@));
    sha256_hex_of(&data)
}

/// Replays `entries` from genesis: true exactly when every entry points back
/// to its predecessor (the first to the genesis digest) and its stored
/// digest is the digest of its fields.
pub fn verify_entries(entries: &Vec<LedgerEntry>) -> (r: bool)
    ensures
        r == chain_valid(entries@),
{
    let mut current_prev = genesis();
    let mut i: usize = 0;
    while i < entries.len()
        invariant
            i <= entries@.len(),
            current_prev@ == chain_head(entries@.take(i as int)),
            forall|k: int| 0 <= k < i ==> #[trigger] linked_at(entries@, k),
            forall|k: int| 0 <= k < i ==> #[trigger] sealed(entries@[k]),
        decreases entries@.len() - i,
    {
        let e = &entries[i];
        if e.previous_hash != current_prev {
            assert(!(linked_at(entries@, i as int) && sealed(entries@[i as int])));
            return false;
        }
        let computed = compute_digest(e.index, e.previous_hash.as_str(), e.payload.as_str(), e.timestamp.as_str());
        if computed != e.hash {
            assert(!(linked_at(entries@, i as int) && sealed(entries@[i as int])));
            return false;
        }
        let ghost j = i as int;
        assert(linked_at(entries@, j));
        assert(sealed(entries@[j]));
        assert(entries@.take(j + 1).last() == entries@[j]);
        current_prev = e.hash.clone();
        i = i + 1;
    }
    assert forall|k: int| 0 <= k < entries@.len() implies linked_at(entries@, k) && #[trigger] sealed(entries@[k]) by {
        assert(linked_at(entries@, k));
    }
    true
}

/// The entries of `s` whose payload contains `search`, newest first.
pub open spec fn newest_first_matches(s: Seq<LedgerEntry>, search: Seq<char>) -> Seq<LedgerEntry>
    decreases s.len(),
{
    if s.len() == 0 {
        Seq::empty()
    } else {
        let rest = newest_first_matches(s.drop_first(), search);
        if contains_text(s[0].payload@, search) {
            rest.push(s[0])
        } else {
            rest
        }
    }
}

impl Ledger {
    /// The committed entries, oldest first.
    pub closed spec fn view(&self) -> Seq<LedgerEntry> {
        self.entries@
    }

    /// The head fields agree with the chain they were derived from.
    pub closed spec fn wf(&self) -> bool {
        &&& self.last_hash@ == chain_head(self.entries@)
        &&& self.next_index as int == next_index_after(self.entries@)
    }

    /// The index the next entry receives.
    pub closed spec fn next_index_spec(&self) -> int {
        self.next_index as int
    }

    /// Opens a ledger over the persisted entries (in index order). The head
    /// is derived from the last of them, or is the genesis head if there are
    /// none.
    pub fn new(entries: Vec<LedgerEntry>) -> (r: Ledger)
        requires
            entries@.len() == 0 || entries@.last().index < u64::MAX,
        ensures
            r.wf(),
            r.view() == entries@,
            r.next_index_spec() == next_index_after(entries@),
            entries@.len() == 0 ==> chain_valid(r.view()),
    {
        let n = entries.len();
        if n == 0 {
            Ledger { entries, last_hash: genesis(), next_index: 0 }
        } else {
            let last_hash = entries[n - 1].hash.clone();
            let next_index = entries[n - 1].index + 1;
            Ledger { entries, last_hash, next_index }
        }
    }

    /// The digest the next entry will point back to.
    pub fn root_hash(&self) -> (r: String)
        requires
            self.wf(),
        ensures
            r@ == chain_head(self.view()),
    {
        self.last_hash.clone()
    }

    /// The index the next entry will receive.
    pub fn next_index(&self) -> (r: u64)
        ensures
            r as int == self.next_index_spec(),
    {
        self.next_index
    }

    /// The committed entries, oldest first.
    pub fn entries(&self) -> (r: &Vec<LedgerEntry>)
        ensures
            r@ == self.view(),
    {
        &self.entries
    }

    /// The entry that appending `payload` at `timestamp` would commit; the
    /// ledger is not changed.
    pub fn next_entry(&self, payload: &str, timestamp: &str) -> (e: LedgerEntry)
        requires
            self.wf(),
        ensures
            e.index as int == self.next_index_spec(),
            e.previous_hash@ == chain_head(self.view()),
            e.payload@ == payload@,
            e.timestamp@ == timestamp@,
            sealed(e),
    {
        let hash = compute_digest(self.next_index, self.last_hash.as_str(), payload, timestamp);
        LedgerEntry {
            index: self.next_index,
            previous_hash: self.last_hash.clone(),
            payload: String::from_str(payload),
            timestamp: String::from_str(timestamp),
            hash,
        }
    }

    /// Adds `entry` to the chain once the caller's stores hold it. It is
    /// taken exactly when it is the entry `next_entry` gives for its payload
    /// and timestamp; otherwise the chain is left as it was.
    pub fn commit(&mut self, entry: LedgerEntry) -> (r: Result<(), LedgerError>)
        requires
            old(self).wf(),
        ensures
            final(self).wf(),
            r is Ok <==> (entry.index as int == old(self).next_index_spec() && entry.previous_hash@
                == chain_head(old(self).view()) && sealed(entry) && entry.index < u64::MAX),
            r == Err::<(), LedgerError>(LedgerError::IndexMismatch) <==> entry.index as int
                != old(self).next_index_spec(),
            r == Err::<(), LedgerError>(LedgerError::BrokenLink) <==> (entry.index as int
                == old(self).next_index_spec() && entry.previous_hash@ != chain_head(old(self).view())),
            r == Err::<(), LedgerError>(LedgerError::DigestMismatch) <==> (entry.index as int
                == old(self).next_index_spec() && entry.previous_hash@ == chain_head(old(self).view())
                && !sealed(entry)),
            r is Ok ==> final(self).view() == old(self).view().push(entry),
            r is Err ==> final(self).view() == old(self).view(),
            r is Ok ==> final(self).next_index_spec() == old(self).next_index_spec() + 1,
            r is Err ==> final(self).next_index_spec() == old(self).next_index_spec(),
    {
        if entry.index != self.next_index {
            return Err(LedgerError::IndexMismatch);
        }
        if entry.previous_hash != self.last_hash {
            return Err(LedgerError::BrokenLink);
        }
        let computed = compute_digest(entry.index, entry.previous_hash.as_str(), entry.payload.as_str(), entry.timestamp.as_str());
        if computed != entry.hash {
            return Err(LedgerError::DigestMismatch);
        }
        if entry.index == u64::MAX {
            return Err(LedgerError::IndexExhausted);
        }
        self.last_hash = entry.hash.clone();
        self.next_index = entry.index + 1;
        self.entries.push(entry);
        Ok(())
    }

    /// Appends `payload` stamped with `timestamp` and returns the new entry.
    pub fn append_at(&mut self, payload: &str, timestamp: &str) -> (e: LedgerEntry)
        requires
            old(self).wf(),
            old(self).next_index_spec() < u64::MAX,
        ensures
            final(self).wf(),
            final(self).view() == old(self).view().push(e),
            final(self).next_index_spec() == old(self).next_index_spec() + 1,
            e.index as int == old(self).next_index_spec(),
            e.previous_hash@ == chain_head(old(self).view()),
            e.payload@ == payload@,
            e.timestamp@ == timestamp@,
            sealed(e),
            chain_valid(old(self).view()) ==> chain_valid(final(self).view()),
    {
        let e = self.next_entry(payload, timestamp);
        proof {
            if chain_valid(self.entries@) {
                lemma_push_keeps_chain_valid(self.entries@, e);
            }
        }
        self.last_hash = e.hash.clone();
        self.next_index = e.index + 1;
        self.entries.push(e.clone());
        e
    }

    /// Appends `payload`, stamped with the current UTC time.
    pub fn append(&mut self, payload: &str) -> (e: LedgerEntry)
        requires
            old(self).wf(),
            old(self).next_index_spec() < u64::MAX,
        ensures
            final(self).wf(),
            final(self).view() == old(self).view().push(e),
            final(self).next_index_spec() == old(self).next_index_spec() + 1,
            e.index as int == old(self).next_index_spec(),
            e.previous_hash@ == chain_head(old(self).view()),
            e.payload@ == payload@,
            sealed(e),
            chain_valid(old(self).view()) ==> chain_valid(final(self).view()),
    {
        let timestamp = utc_now_rfc3339();
        self.append_at(payload, timestamp.as_str())
    }

    /// Replays the chain from genesis (see `verify_entries`).
    pub fn verify(&self) -> (r: bool)
        ensures
            r == chain_valid(self.view()),
    {
        verify_entries(&self.entries)
    }

    /// The entries whose payload contains `search`, most recent first.
    pub fn query(&self, search: &str) -> (r: Vec<LedgerEntry>)
        ensures
            r@ == newest_first_matches(self.view(), search@),
    {
        let mut out: Vec<LedgerEntry> = Vec::new();
        let n = self.entries.len();
        let mut i: usize = n;
        while i > 0
            invariant
                n == self.entries@.len(),
                i <= n,
                out@ == newest_first_matches(self.entries@.subrange(i as int, n as int), search@),
            decreases i,
        {
            let e = &self.entries[i - 1];
            let ghost tail = self.entries@.subrange(i - 1, n as int);
            assert(tail.drop_first() =~= self.entries@.subrange(i as int, n as int));
            assert(tail[0] == self.entries@[i - 1]);
            if text_contains(e.payload.as_str(), search) {
                out.push(e.clone());
            }
            i = i - 1;
        }
        assert(self.entries@.subrange(0, n as int) =~= self.entries@);
        out
    }

    /// The manifest of a bundle exported at `export_time`: the number of
    /// entries and the head digest, against which the bundle's copy of the
    /// chain can be checked offline.
    pub fn runpack_manifest(&self, export_time: &str) -> (m: RunpackManifest)
        requires
            self.wf(),
        ensures
            m.export_time@ == export_time@,
            m.total_entries as int == self.next_index_spec(),
            m.root_hash@ == chain_head(self.view()),
            m.provenance@ == PROVENANCE@,
    {
        RunpackManifest {
            export_time: String::from_str(export_time),
            total_entries: self.next_index,
            root_hash: self.last_hash.clone(),
            provenance: String::from_str(PROVENANCE),
        }
    }
}

/// Opening text of every snapshot payload.
pub const SNAPSHOT_HEAD: &'static str = "{\"event\":\"forensic_snapshot\",\"manifest\":{";

/// Manifest fields of a snapshot that names a commit.
pub const COMMIT_KEY: &'static str = "\"commit\":";

pub const COMMIT_TAG_KEY: &'static str = ",\"tag\":";

pub const COMMIT_TAIL: &'static str = ",\"type\":\"git_commit\"},\"tag\":";

/// Manifest fields of a snapshot taken without source control.
pub const FS_HEAD: &'static str = "\"note\":\"Git not initialized\",\"tag\":";

pub const FS_TAIL: &'static str = ",\"type\":\"fs_state\"},\"tag\":";

pub const SNAPSHOT_END: &'static str = "}";

/// The canonical payload of a forensic snapshot tagged `tag`: it records the
/// commit the workspace stands on, or notes that there is none.
pub open spec fn snapshot_payload(tag: Seq<char>, commit: Option<Seq<char>>) -> Seq<char> {
    match commit {
        Some(c) => SNAPSHOT_HEAD@ + COMMIT_KEY@ + json_quoted(c) + COMMIT_TAG_KEY@ + json_quoted(tag)
            + COMMIT_TAIL@ + json_quoted(tag) + SNAPSHOT_END@,
        None => SNAPSHOT_HEAD@ + FS_HEAD@ + json_quoted(tag) + FS_TAIL@ + json_quoted(tag)
            + SNAPSHOT_END@,
    }
}

pub open spec fn opt_view(o: Option<&str>) -> Option<Seq<char>> {
    match o {
        Some(c) => Some(c@),
        None => None,
    }
}

/// Builds `snapshot_payload`.
pub fn snapshot_payload_text(tag: &str, commit: Option<&str>) -> (r: String)
    ensures
        r@ == snapshot_payload(tag@, opt_view(commit)),
{
    let qtag = json_string_literal(tag);
    let mut r = String::from_str(SNAPSHOT_HEAD);
    match commit {
        Some(c) => {
            let qc = json_string_literal(c);
            r.append(COMMIT_KEY);
            r.append(qc.as_str());
            r.append(COMMIT_TAG_KEY);
            r.append(qtag.as_str());
            r.append(COMMIT_TAIL);
        },
        None => {
            r.append(FS_HEAD);
            r.append(qtag.as_str());
            r.append(FS_TAIL);
        },
    }
    r.append(qtag.as_str());
    r.append(SNAPSHOT_END);
    r
}

impl Ledger {
    /// Appends a forensic snapshot marker tagged `tag`; `commit` is the
    /// source-control commit the workspace stands on, if there is one.
    pub fn snapshot(&mut self, tag: &str, commit: Option<&str>) -> (e: LedgerEntry)
        requires
            old(self).wf(),
            old(self).next_index_spec() < u64::MAX,
        ensures
            final(self).wf(),
            final(self).view() == old(self).view().push(e),
            e.index as int == old(self).next_index_spec(),
            e.previous_hash@ == chain_head(old(self).view()),
            e.payload@ == snapshot_payload(tag@, opt_view(commit)),
            sealed(e),
            chain_valid(old(self).view()) ==> chain_valid(final(self).view()),
    {
        let payload = snapshot_payload_text(tag, commit);
        self.append(payload.as_str())
    }
}

proof fn lemma_push_keeps_chain_valid(s: Seq<LedgerEntry>, e: LedgerEntry)
    requires
        chain_valid(s),
        e.previous_hash@ == chain_head(s),
        sealed(e),
    ensures
        chain_valid(s.push(e)),
{
    let t = s.push(e);
    assert(t.take(s.len() as int) =~= s);
    assert forall|i: int| 0 <= i < t.len() implies #[trigger] linked_at(t, i) && sealed(t[i]) by {
        if i < s.len() {
            assert(t.take(i) =~= s.take(i));
            assert(linked_at(s, i) && sealed(s[i]));
        }
    }
}

/// A ledger replays cleanly after any run of appends: the empty chain is
/// valid, and appending an entry that points back to the head and carries
/// its own digest (what `append` produces) keeps a valid chain valid.
pub proof fn law_appends_verify(s: Seq<LedgerEntry>, e: LedgerEntry)
    requires
        chain_valid(s),
        e.previous_hash@ == chain_head(s),
        sealed(e),
    ensures
        chain_valid(Seq::<LedgerEntry>::empty()),
        chain_valid(s.push(e)),
{
    lemma_push_keeps_chain_valid(s, e);
}

/// Replacing one entry of a valid chain by a copy whose stored digest was
/// altered, or whose payload was altered (to one whose digest differs, that
/// is, barring a SHA-256 collision), makes the replay fail.
pub proof fn law_corruption_detected(s: Seq<LedgerEntry>, i: int, c: LedgerEntry)
    requires
        chain_valid(s),
        0 <= i < s.len(),
        c.index == s[i].index,
        c.previous_hash@ == s[i].previous_hash@,
        c.timestamp@ == s[i].timestamp@,
        (c.payload@ == s[i].payload@ && c.hash@ != s[i].hash@) || (c.hash@ == s[i].hash@
            && entry_digest(c.index, c.previous_hash@, c.payload@, c.timestamp@) != entry_digest(
            s[i].index,
            s[i].previous_hash@,
            s[i].payload@,
            s[i].timestamp@,
        )),
    ensures
        !chain_valid(s.update(i, c)),
{
    assert(sealed(s[i]));
    assert(s.update(i, c)[i] == c);
    assert(!sealed(c));
}

/// In a valid chain the first entry points back to 64 `'0'` characters and
/// every later entry to the digest of the one before it.
pub proof fn law_chain_links(s: Seq<LedgerEntry>)
    requires
        chain_valid(s),
    ensures
        s.len() > 0 ==> s[0].previous_hash@ == Seq::new(64, |_i: int| '0'),
        forall|i: int| 0 < i < s.len() ==> (#[trigger] s[i]).previous_hash@ == s[i - 1].hash@,
{
    if s.len() > 0 {
        assert(linked_at(s, 0) && sealed(s[0]));
        assert(s.take(0).len() == 0);
    }
    assert forall|i: int| 0 < i < s.len() implies (#[trigger] s[i]).previous_hash@ == s[i - 1].hash@ by {
        assert(linked_at(s, i) && sealed(s[i]));
        assert(s.take(i).last() == s[i - 1]);
    }
}

/// An exported bundle checks out: when the exporting ledger's chain is
/// valid and `m` is its manifest, the bundle's copy of the chain, opened
/// again, replays cleanly and has the head digest and entry count that the
/// manifest records.
pub proof fn law_reopened_bundle_root(exporter: Ledger, m: RunpackManifest, reopened: Ledger)
    requires
        exporter.wf(),
        chain_valid(exporter.view()),
        m.root_hash@ == chain_head(exporter.view()),
        m.total_entries as int == exporter.next_index_spec(),
        reopened.wf(),
        reopened.view() == exporter.view(),
    ensures
        chain_valid(reopened.view()),
        chain_head(reopened.view()) == m.root_hash@,
        reopened.next_index_spec() == m.total_entries as int,
{
}

} // verus!
