//! File descriptors: the per-entry snapshot that enumeration returns.
//!
//! The I/O shell stats each directory entry and hands over a `RawEntry` of
//! plain values; the library turns it into a `FileDescriptor`, adding the
//! image classification. A full enumeration result is a snapshot: one
//! descriptor per entry, in order.

use vstd::prelude::*;
use crate::classify::is_image;
use crate::classify::is_image_path;

verus! {

/// What the I/O shell reports of one directory entry: base name, absolute
/// path, byte size, and best-effort timestamps (absent when the file
/// system does not report them).
pub struct RawEntry {
    pub name: String,
    pub path: String,
    pub size: u64,
    pub created_at: Option<String>,
    pub modified_at: Option<String>,
}

/// One file of the downloads directory, as reported to the frontend.
pub struct FileDescriptor {
    pub name: String,
    pub path: String,
    pub size: u64,
    pub created_at: Option<String>,
    pub modified_at: Option<String>,
    pub is_image: bool,
}

impl FileDescriptor {
    /// The classification flag agrees with the path's extension.
    pub open spec fn wf(self) -> bool {
        self.is_image == is_image(self.path@)
    }

    /// The descriptor reports exactly the given entry.
    pub open spec fn matches_entry(self, e: RawEntry) -> bool {
        &&& self.name == e.name
        &&& self.path == e.path
        &&& self.size == e.size
        &&& self.created_at == e.created_at
        &&& self.modified_at == e.modified_at
        &&& self.is_image == is_image(e.path@)
    }
}

/// A snapshot reports the given entries: one descriptor per entry, in
/// order, each faithful to its entry.
pub open spec fn snapshot_of(ds: Seq<FileDescriptor>, es: Seq<RawEntry>) -> bool {
    &&& ds.len() == es.len()
    &&& forall|i: int| 0 <= i < es.len() ==> #[trigger] ds[i].matches_entry(es[i])
}

/// Build the descriptor of one entry.
pub fn build_descriptor(e: RawEntry) -> (d: FileDescriptor)
    ensures
        d.matches_entry(e),
        d.wf(),
{
    let img = is_image_path(e.path.as_str());
    FileDescriptor {
        name: e.name,
        path: e.path,
        size: e.size,
        created_at: e.created_at,
        modified_at: e.modified_at,
        is_image: img,
    }
}

/// Build the full snapshot of an enumeration's entries.
pub fn build_descriptors(entries: Vec<RawEntry>) -> (ds: Vec<FileDescriptor>)
    ensures
        snapshot_of(ds@, entries@),
{
    let ghost orig = entries@;
    let mut rest = entries;
    let mut ds: Vec<FileDescriptor> = Vec::new();
    while rest.len() > 0
        invariant
            ds@.len() + rest@.len() == orig.len(),
            rest@ == orig.subrange(ds@.len() as int, orig.len() as int),
            forall|i: int| 0 <= i < ds@.len() ==> #[trigger] ds@[i].matches_entry(orig[i]),
        decreases rest.len(),
    {
        let e = rest.remove(0);
        assert(e == orig[ds@.len() as int]);
        let d = build_descriptor(e);
        ds.push(d);
        assert(rest@ =~= orig.subrange(ds@.len() as int, orig.len() as int));
    }
    ds
}

/// Number of descriptors marked as images.
pub open spec fn count_images(ds: Seq<FileDescriptor>) -> int
    decreases ds.len(),
{
    if ds.len() == 0 {
        0
    } else {
        count_images(ds.drop_last()) + if ds.last().is_image {
            1int
        } else {
            0int
        }
    }
}

/// Number of entries whose path bears a recognized image extension.
pub open spec fn count_image_entries(es: Seq<RawEntry>) -> int
    decreases es.len(),
{
    if es.len() == 0 {
        0
    } else {
        count_image_entries(es.drop_last()) + if is_image(es.last().path@) {
            1int
        } else {
            0int
        }
    }
}

/// Enumeration classifies exactly the image entries: a snapshot of N image
/// entries and M others holds N + M descriptors, and the ones marked
/// `is_image` are precisely those whose entry's path bears a recognized
/// extension — so their count is N.
pub proof fn lemma_snapshot_counts(ds: Seq<FileDescriptor>, es: Seq<RawEntry>)
    requires
        snapshot_of(ds, es),
    ensures
        ds.len() == es.len(),
        count_images(ds) == count_image_entries(es),
        0 <= count_images(ds) <= ds.len(),
        forall|i: int| 0 <= i < ds.len() ==> ds[i].is_image == is_image(es[i].path@),
    decreases es.len(),
{
    if es.len() > 0 {
        assert(snapshot_of(ds.drop_last(), es.drop_last()));
        lemma_snapshot_counts(ds.drop_last(), es.drop_last());
        assert(ds.last().matches_entry(es.last()));
    }
    assert forall|i: int| 0 <= i < ds.len() implies ds[i].is_image == is_image(es[i].path@) by {
        assert(ds[i].matches_entry(es[i]));
    }
}

/// Enumerating unchanged entries twice is idempotent: two snapshots of the
/// same entries agree, descriptor by descriptor, on every field — in
/// particular on path, size and image classification.
pub proof fn lemma_snapshot_deterministic(
    a: Seq<FileDescriptor>,
    b: Seq<FileDescriptor>,
    es: Seq<RawEntry>,
)
    requires
        snapshot_of(a, es),
        snapshot_of(b, es),
    ensures
        a.len() == b.len(),
        forall|i: int|
            0 <= i < a.len() ==> a[i].path == b[i].path && a[i].size == b[i].size
                && a[i].is_image == b[i].is_image && a[i].name == b[i].name && a[i].created_at
                == b[i].created_at && a[i].modified_at == b[i].modified_at,
{
    assert forall|i: int| 0 <= i < a.len() implies a[i].path == b[i].path && a[i].size == b[i].size
        && a[i].is_image == b[i].is_image && a[i].name == b[i].name && a[i].created_at
        == b[i].created_at && a[i].modified_at == b[i].modified_at by {
        assert(a[i].matches_entry(es[i]));
        assert(b[i].matches_entry(es[i]));
    }
}

} // verus!
