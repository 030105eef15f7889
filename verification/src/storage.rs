//! The storage coordinator: the capture-history ledger, artifact filenames
//! and directory selection, and storage statistics.
//!
//! Disk I/O — reading and writing the ledger files, walking the artifact
//! directory — belongs to the platform layer, which hands the results in as
//! plain values; every decision about them is made and verified here.

use vstd::prelude::*;
use vstd::string::StringExecFns;
use crate::timestamp::{now_local, timestamp_chars, Timestamp};

verus! {

/// Kind of a persisted capture artifact.
#[derive(Clone, Copy, Debug, PartialEq, Eq, Structural)]
pub enum CaptureType {
    Screenshot,
    Recording,
    Gif,
}

/// The filename prefix of each capture kind.
pub open spec fn prefix_chars(t: CaptureType) -> Seq<char> {
    match t {
        CaptureType::Screenshot => "Screenshot"@,
        CaptureType::Recording => "Recording"@,
        CaptureType::Gif => "GIF"@,
    }
}

/// The full artifact filename: `{Prefix} {YYYY-MM-DD at HH.MM.SS}.{ext}`.
pub open spec fn filename_chars(t: CaptureType, stamp: Timestamp, ext: Seq<char>) -> Seq<char> {
    prefix_chars(t) + " "@ + timestamp_chars(stamp) + "."@ + ext
}

fn prefix_str(t: &CaptureType) -> (r: &'static str)
    ensures
        r@ == prefix_chars(*t),
{
    match t {
        CaptureType::Screenshot => "Screenshot",
        CaptureType::Recording => "Recording",
        CaptureType::Gif => "GIF",
    }
}

/// Render the artifact filename for a capture of the given kind taken at
/// the given local time. Deterministic: equal arguments give the equal
/// string, so two captures of one kind within the same second collide.
pub fn filename_for(capture_type: &CaptureType, stamp: &Timestamp, extension: &str) -> (r: String)
    requires
        stamp.wf(),
    ensures
        r@ == filename_chars(*capture_type, *stamp, extension@),
{
    let mut s = String::from_str(prefix_str(capture_type));
    s.append(" ");
    crate::timestamp::append_timestamp(&mut s, stamp);
    s.append(".");
    s.append(extension);
    proof {
        assert(s@ =~= filename_chars(*capture_type, *stamp, extension@));
    }
    s
}

/// Relies on `uuid::Uuid::new_v4` and its `Display` rendering: a random
/// version-4 UUID in hyphenated lowercase form, always 36 characters.
#[verifier::external_body]
fn new_uuid_string() -> (r: String)
    ensures
        r@.len() == 36,
{
    uuid::Uuid::new_v4().to_string()
}

/// Relies on `chrono::Utc::now` and `DateTime::to_rfc3339`: a nonempty
/// RFC 3339 rendering of the current instant.
#[verifier::external_body]
fn utc_now_rfc3339() -> (r: String)
    ensures
        r@.len() > 0,
{
    chrono::Utc::now().to_rfc3339()
}

/// Metadata of one persisted artifact.
#[derive(Debug)]
pub struct CaptureItem {
    /// Opaque unique token, assigned at creation and immutable.
    pub id: String,
    pub capture_type: CaptureType,
    pub filename: String,
    /// RFC 3339 creation instant.
    pub created_at: String,
    pub is_favorite: bool,
}

impl Clone for CaptureItem {
    fn clone(&self) -> (r: CaptureItem)
        ensures
            r == *self,
    {
        CaptureItem {
            id: self.id.clone(),
            capture_type: self.capture_type,
            filename: self.filename.clone(),
            created_at: self.created_at.clone(),
            is_favorite: self.is_favorite,
        }
    }
}

impl CaptureItem {
    /// A fresh screenshot record: new id, not a favorite, created now.
    pub fn new_screenshot(filename: String) -> (r: CaptureItem)
        ensures
            r.capture_type is Screenshot,
            r.filename == filename,
            !r.is_favorite,
            r.id@.len() == 36,
            r.created_at@.len() > 0,
    {
        CaptureItem {
            id: new_uuid_string(),
            capture_type: CaptureType::Screenshot,
            filename,
            created_at: utc_now_rfc3339(),
            is_favorite: false,
        }
    }

    /// A fresh recording record: new id, not a favorite, created now.
    pub fn new_recording(filename: String) -> (r: CaptureItem)
        ensures
            r.capture_type is Recording,
            r.filename == filename,
            !r.is_favorite,
            r.id@.len() == 36,
            r.created_at@.len() > 0,
    {
        CaptureItem {
            id: new_uuid_string(),
            capture_type: CaptureType::Recording,
            filename,
            created_at: utc_now_rfc3339(),
            is_favorite: false,
        }
    }
}

/// Whether some item of the ledger carries the given id.
pub open spec fn contains_id(items: Seq<CaptureItem>, id: Seq<char>) -> bool {
    exists |j: int| 0 <= j < items.len() && (#[trigger] items[j].id@) == id
}

/// The ledger with every item of the given id removed.
pub open spec fn remove_id(items: Seq<CaptureItem>, id: Seq<char>) -> Seq<CaptureItem> {
    items.filter(|i: CaptureItem| i.id@ != id)
}

/// The ledger invariant: no two records share an id.
pub open spec fn unique_ids(items: Seq<CaptureItem>) -> bool {
    forall |i: int, j: int| 0 <= i < j < items.len() ==> (#[trigger] items[i].id@) != (
    #[trigger] items[j].id@)
}

/// Appending a record with a fresh id preserves the ledger invariant.
pub proof fn lemma_add_fresh_keeps_unique(items: Seq<CaptureItem>, item: CaptureItem)
    requires
        unique_ids(items),
        !contains_id(items, item.id@),
    ensures
        unique_ids(items.push(item)),
{
    let pushed = items.push(item);
    assert forall |i: int, j: int| 0 <= i < j < pushed.len() implies (#[trigger] pushed[i].id@)
        != (#[trigger] pushed[j].id@) by {
        if j < items.len() {
        } else {
            assert(pushed[j] == item);
            assert(items[i].id@ != item.id@);
        }
    }
}

/// The same item with its favorite flag flipped.
pub open spec fn flip_favorite(i: CaptureItem) -> CaptureItem {
    CaptureItem { is_favorite: !i.is_favorite, ..i }
}

/// Every id of a reduced ledger was an id of the ledger it came from.
proof fn lemma_remove_id_elements(s: Seq<CaptureItem>, id: Seq<char>)
    ensures
        forall |k: int| 0 <= k < remove_id(s, id).len() ==> contains_id(
            s,
            #[trigger] remove_id(s, id)[k].id@,
        ),
    decreases s.len(),
{
    reveal(Seq::filter);
    if s.len() > 0 {
        let s0 = s.drop_last();
        let last = s.last();
        assert(s0.push(last) =~= s);
        lemma_remove_id_push(s0, last, id);
        lemma_remove_id_elements(s0, id);
        assert forall |k: int| 0 <= k < remove_id(s, id).len() implies contains_id(
            s,
            #[trigger] remove_id(s, id)[k].id@,
        ) by {
            let r0 = remove_id(s0, id);
            if k < r0.len() {
                assert(contains_id(s0, r0[k].id@));
                let j = choose |j: int| 0 <= j < s0.len() && (#[trigger] s0[j].id@) == r0[k].id@;
                assert(s[j].id@ == r0[k].id@);
            } else {
                assert(remove_id(s, id)[k] == last);
                assert(s[s.len() - 1].id@ == last.id@);
            }
        }
    }
}

/// Removing an id preserves the ledger invariant.
pub proof fn lemma_remove_keeps_unique(s: Seq<CaptureItem>, id: Seq<char>)
    requires
        unique_ids(s),
    ensures
        unique_ids(remove_id(s, id)),
    decreases s.len(),
{
    reveal(Seq::filter);
    if s.len() > 0 {
        let s0 = s.drop_last();
        let last = s.last();
        assert(s0.push(last) =~= s);
        assert(unique_ids(s0)) by {
            assert forall |i: int, j: int| 0 <= i < j < s0.len() implies (#[trigger] s0[i].id@)
                != (#[trigger] s0[j].id@) by {
                assert(s[i].id@ != s[j].id@);
            }
        }
        lemma_remove_id_push(s0, last, id);
        lemma_remove_keeps_unique(s0, id);
        if last.id@ != id {
            lemma_remove_id_elements(s0, id);
            if contains_id(remove_id(s0, id), last.id@) {
                let k = choose |k: int| 0 <= k < remove_id(s0, id).len() && (#[trigger] remove_id(
                    s0,
                    id,
                )[k].id@) == last.id@;
                assert(contains_id(s0, last.id@));
                let j = choose |j: int| 0 <= j < s0.len() && (#[trigger] s0[j].id@) == last.id@;
                assert(s[j].id@ == s[s.len() - 1].id@);
                assert(false);
            }
            lemma_add_fresh_keeps_unique(remove_id(s0, id), last);
        }
    }
}

/// Flipping a record's favorite flag keeps its id, so it preserves the
/// ledger invariant.
pub proof fn lemma_toggle_keeps_unique(items: Seq<CaptureItem>, k: int)
    requires
        unique_ids(items),
        0 <= k < items.len(),
    ensures
        unique_ids(items.update(k, flip_favorite(items[k]))),
{
    let updated = items.update(k, flip_favorite(items[k]));
    assert forall |i: int, j: int| 0 <= i < j < updated.len() implies (#[trigger] updated[i].id@)
        != (#[trigger] updated[j].id@) by {
        assert(items[i].id@ != items[j].id@);
    }
}

/// Extending the ledger by one item carries an id exactly when the item
/// does or the ledger already did.
proof fn lemma_contains_id_push(s: Seq<CaptureItem>, x: CaptureItem, id: Seq<char>)
    ensures
        contains_id(s.push(x), id) == (contains_id(s, id) || x.id@ == id),
{
    if contains_id(s, id) {
        let j = choose |j: int| 0 <= j < s.len() && (#[trigger] s[j].id@) == id;
        assert(s.push(x)[j].id@ == id);
    }
    if x.id@ == id {
        assert(s.push(x)[s.len() as int].id@ == id);
    }
    if contains_id(s.push(x), id) {
        let j = choose |j: int| 0 <= j < s.push(x).len() && (#[trigger] s.push(x)[j].id@) == id;
        if j < s.len() {
            assert(s[j].id@ == id);
        }
    }
}

/// Removing an id from a ledger extended by one item keeps the new item
/// exactly when its id differs.
proof fn lemma_remove_id_push(s: Seq<CaptureItem>, x: CaptureItem, id: Seq<char>)
    ensures
        remove_id(s.push(x), id) == if x.id@ != id {
            remove_id(s, id).push(x)
        } else {
            remove_id(s, id)
        },
{
    reveal(Seq::filter);
    assert(s.push(x).drop_last() =~= s);
}

/// Removing an id that no item of the ledger carries changes nothing.
proof fn lemma_remove_id_absent(s: Seq<CaptureItem>, id: Seq<char>)
    requires
        forall |j: int| 0 <= j < s.len() ==> s[j].id@ != id,
    ensures
        remove_id(s, id) == s,
    decreases s.len(),
{
    reveal(Seq::filter);
    if s.len() > 0 {
        lemma_remove_id_absent(s.drop_last(), id);
        assert(remove_id(s, id) =~= s);
    } else {
        assert(remove_id(s, id) =~= s);
    }
}

/// Law: adding an item whose id is fresh and then removing that id reports
/// a removal and restores the ledger — in particular its length — to what
/// it was before the addition.
pub proof fn lemma_add_then_remove(items: Seq<CaptureItem>, item: CaptureItem)
    requires
        forall |j: int| 0 <= j < items.len() ==> items[j].id@ != item.id@,
    ensures
        contains_id(items.push(item), item.id@),
        remove_id(items.push(item), item.id@) == items,
        remove_id(items.push(item), item.id@).len() == items.len(),
{
    assert(items.push(item)[items.len() as int].id@ == item.id@);
    lemma_remove_id_push(items, item, item.id@);
    lemma_remove_id_absent(items, item.id@);
}

/// Insertion-ordered ledger of persisted captures.
#[derive(Debug)]
pub struct CaptureHistory {
    pub items: Vec<CaptureItem>,
}

impl Clone for CaptureHistory {
    fn clone(&self) -> (r: CaptureHistory)
        ensures
            r.items@ == self.items@,
    {
        let mut items: Vec<CaptureItem> = Vec::new();
        let mut k: usize = 0;
        while k < self.items.len()
            invariant
                0 <= k <= self.items@.len(),
                items@ == self.items@.subrange(0, k as int),
            decreases self.items@.len() - k,
        {
            items.push(self.items[k].clone());
            proof {
                assert(items@ =~= self.items@.subrange(0, k + 1));
            }
            k = k + 1;
        }
        proof {
            assert(self.items@.subrange(0, self.items@.len() as int) =~= self.items@);
        }
        CaptureHistory { items }
    }
}

impl CaptureHistory {
    /// An empty ledger.
    pub fn new() -> (r: CaptureHistory)
        ensures
            r.items@.len() == 0,
    {
        CaptureHistory { items: Vec::new() }
    }

    /// Append a record; the ledger is append-only except explicit removal.
    pub fn add(&mut self, item: CaptureItem)
        ensures
            final(self).items@ == old(self).items@.push(item),
    {
        self.items.push(item);
    }

    /// Remove every record with the given id; reports whether any existed.
    pub fn remove(&mut self, id: &str) -> (r: bool)
        ensures
            final(self).items@ == remove_id(old(self).items@, id@),
            r == contains_id(old(self).items@, id@),
    {
        let idc: String = id.to_owned();
        let mut kept: Vec<CaptureItem> = Vec::new();
        let mut found = false;
        let mut k: usize = 0;
        while k < self.items.len()
            invariant
                0 <= k <= self.items@.len(),
                idc@ == id@,
                kept@ == remove_id(self.items@.subrange(0, k as int), id@),
                found == contains_id(self.items@.subrange(0, k as int), id@),
            decreases self.items@.len() - k,
        {
            let ghost prefix = self.items@.subrange(0, k as int);
            let it = &self.items[k];
            let same = it.id == idc;
            if same {
                found = true;
            } else {
                kept.push(it.clone());
            }
            proof {
                assert(self.items@.subrange(0, k + 1) =~= prefix.push(self.items@[k as int]));
                lemma_remove_id_push(prefix, self.items@[k as int], id@);
                lemma_contains_id_push(prefix, self.items@[k as int], id@);
            }
            k = k + 1;
        }
        proof {
            assert(self.items@.subrange(0, self.items@.len() as int) =~= self.items@);
        }
        self.items = kept;
        found
    }

    /// Flip the favorite flag of the first record with the given id;
    /// reports whether the id existed. A miss mutates nothing.
    pub fn toggle_favorite(&mut self, id: &str) -> (r: bool)
        ensures
            r == contains_id(old(self).items@, id@),
            !r ==> final(self).items@ == old(self).items@,
            r ==> exists |k: int|
                0 <= k < old(self).items@.len() && old(self).items@[k].id@ == id@ && (forall |j: int|
                0 <= j < k ==> old(self).items@[j].id@ != id@) && final(self).items@ == old(
                self,
            ).items@.update(k, flip_favorite(old(self).items@[k])),
    {
        let idc: String = id.to_owned();
        let mut k: usize = 0;
        while k < self.items.len()
            invariant
                0 <= k <= self.items@.len(),
                idc@ == id@,
                self.items@ == old(self).items@,
                forall |j: int| 0 <= j < k ==> old(self).items@[j].id@ != id@,
            decreases self.items@.len() - k,
        {
            let same = self.items[k].id == idc;
            if same {
                let updated = {
                    let it = &self.items[k];
                    CaptureItem {
                        id: it.id.clone(),
                        capture_type: it.capture_type,
                        filename: it.filename.clone(),
                        created_at: it.created_at.clone(),
                        is_favorite: !it.is_favorite,
                    }
                };
                self.items[k] = updated;
                return true;
            }
            k = k + 1;
        }
        false
    }

    /// The filename of the first record with the given id, if any.
    pub fn filename_of(&self, id: &str) -> (r: Option<String>)
        ensures
            r is Some <==> contains_id(self.items@, id@),
            r matches Some(f) ==> exists |k: int|
                0 <= k < self.items@.len() && self.items@[k].id@ == id@ && (forall |j: int|
                0 <= j < k ==> self.items@[j].id@ != id@) && f == self.items@[k].filename,
    {
        let idc: String = id.to_owned();
        let mut k: usize = 0;
        while k < self.items.len()
            invariant
                0 <= k <= self.items@.len(),
                idc@ == id@,
                forall |j: int| 0 <= j < k ==> self.items@[j].id@ != id@,
            decreases self.items@.len() - k,
        {
            let same = self.items[k].id == idc;
            if same {
                return Some(self.items[k].filename.clone());
            }
            k = k + 1;
        }
        None
    }
}

/// Where artifacts are written.
#[derive(Debug)]
pub enum StorageLocation {
    /// A `Screenshots` directory inside the per-application data directory.
    Default,
    /// The user's desktop directory.
    Desktop,
    /// An explicit directory.
    Custom { path: String },
}

impl Clone for StorageLocation {
    fn clone(&self) -> (r: StorageLocation)
        ensures
            r == *self,
    {
        match self {
            StorageLocation::Default => StorageLocation::Default,
            StorageLocation::Desktop => StorageLocation::Desktop,
            StorageLocation::Custom { path } => StorageLocation::Custom { path: path.clone() },
        }
    }
}

/// A snapshot of the artifact directory: where it is and what it holds.
#[derive(Debug)]
pub struct StorageInfo {
    pub location: StorageLocation,
    pub path: String,
    pub total_items: usize,
    pub total_size_bytes: u64,
}

/// The total of a list of file sizes, as an unbounded integer.
pub open spec fn sum_sizes(s: Seq<u64>) -> int
    decreases s.len(),
{
    if s.len() == 0 {
        0
    } else {
        sum_sizes(s.drop_last()) + s.last()
    }
}

/// Owner of the capture-history ledger and the artifact directory choice.
#[derive(Debug)]
pub struct StorageManager {
    pub history: CaptureHistory,
    pub location: StorageLocation,
}

impl StorageManager {
    /// A fresh coordinator: empty ledger, default location. Loading
    /// persisted state from disk is the platform layer's job; it fills the
    /// fields with whatever it read.
    pub fn new() -> (r: StorageManager)
        ensures
            r.history.items@.len() == 0,
            r.location is Default,
    {
        StorageManager { history: CaptureHistory::new(), location: StorageLocation::Default }
    }

    /// Switch the artifact directory; the ledger is untouched.
    pub fn set_location(&mut self, location: StorageLocation)
        ensures
            final(self).location == location,
            final(self).history.items@ == old(self).history.items@,
    {
        self.location = location;
    }

    /// The artifact directory for the current location, given the
    /// platform's data and desktop directories.
    pub fn screenshots_dir(&self, data_dir: &str, desktop_dir: &str) -> (r: String)
        ensures
            self.location is Default ==> r@ == data_dir@ + "/ScreenCapture/Screenshots"@,
            self.location is Desktop ==> r@ == desktop_dir@,
            (self.location matches StorageLocation::Custom { path } ==> r == path),
    {
        match &self.location {
            StorageLocation::Default => {
                let mut s = String::from_str(data_dir);
                s.append("/ScreenCapture/Screenshots");
                s
            },
            StorageLocation::Desktop => String::from_str(desktop_dir),
            StorageLocation::Custom { path } => path.clone(),
        }
    }

    /// A collision-resistant artifact filename: the capture kind's prefix
    /// and the current local time at second granularity. Two calls for one
    /// kind within the same second produce the same string.
    pub fn generate_filename(&self, capture_type: &CaptureType, extension: &str) -> (r: String)
        ensures
            exists |t: Timestamp| t.wf() && r@ == filename_chars(*capture_type, t, extension@),
    {
        let stamp = now_local();
        let r = filename_for(capture_type, &stamp, extension);
        proof {
            assert(stamp.wf() && r@ == filename_chars(*capture_type, stamp, extension@));
        }
        r
    }

    /// Summarize the artifact directory from the sizes of the files in it,
    /// as the platform layer read them; a missing directory reads as no
    /// files. The total saturates at the largest representable size.
    pub fn compute_storage_info(&self, path: String, file_sizes: &Vec<u64>) -> (r: StorageInfo)
        ensures
            r.location == self.location,
            r.path == path,
            r.total_items == file_sizes@.len(),
            r.total_size_bytes == if sum_sizes(file_sizes@) > u64::MAX {
                u64::MAX as int
            } else {
                sum_sizes(file_sizes@)
            },
    {
        let mut total: u64 = 0;
        let mut saturated = false;
        let mut k: usize = 0;
        while k < file_sizes.len()
            invariant
                0 <= k <= file_sizes@.len(),
                !saturated ==> total == sum_sizes(file_sizes@.subrange(0, k as int)),
                saturated ==> total == u64::MAX && sum_sizes(file_sizes@.subrange(0, k as int))
                    > u64::MAX,
            decreases file_sizes@.len() - k,
        {
            let ghost prefix = file_sizes@.subrange(0, k as int);
            proof {
                assert(file_sizes@.subrange(0, k + 1).drop_last() =~= prefix);
                assert(sum_sizes(file_sizes@.subrange(0, k + 1)) == sum_sizes(prefix)
                    + file_sizes@[k as int]);
            }
            if !saturated {
                match total.checked_add(file_sizes[k]) {
                    Some(t) => {
                        total = t;
                    },
                    None => {
                        total = u64::MAX;
                        saturated = true;
                    },
                }
            }
            k = k + 1;
        }
        proof {
            assert(file_sizes@.subrange(0, file_sizes@.len() as int) =~= file_sizes@);
        }
        StorageInfo {
            location: self.location.clone(),
            path,
            total_items: file_sizes.len(),
            total_size_bytes: total,
        }
    }
}

} // verus!
