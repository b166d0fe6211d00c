//! Java Edition release notes.
use vstd::prelude::*;
use super::PatchImage;
use crate::text::same_text;

verus! {

/// Java Edition release notes: a schema version and the entries.
pub struct JavaPatchNotes {
    pub version: u8,
    pub entries: Vec<JavaPatchEntry>,
}

/// One Java Edition release note.
pub struct JavaPatchEntry {
    pub id: String,
    pub title: String,
    pub version: String,
    /// Kind of release, such as `release` or `snapshot`.
    pub patch_type: Option<String>,
    pub date: Option<String>,
    pub body: String,
    pub content_path: String,
    pub image: PatchImage,
}

/// Whether `e` is a note of kind `t`.
pub open spec fn of_type(e: JavaPatchEntry, t: Seq<char>) -> bool {
    e.patch_type matches Some(k) && k@ == t
}

/// Notes of kind `t` among the first `k` entries, in order.
pub open spec fn notes_of_type(entries: Seq<JavaPatchEntry>, t: Seq<char>, k: int) -> Seq<
    JavaPatchEntry,
>
    decreases k,
{
    if k <= 0 {
        Seq::empty()
    } else if of_type(entries[k - 1], t) {
        notes_of_type(entries, t, k - 1).push(entries[k - 1])
    } else {
        notes_of_type(entries, t, k - 1)
    }
}

impl JavaPatchNotes {
    /// The notes of kind `patch_type`, in order.
    pub fn by_type(&self, patch_type: &str) -> (r: Vec<&JavaPatchEntry>)
        ensures
            r@.unref() == notes_of_type(self.entries@, patch_type@, self.entries@.len() as int),
    {
        let mut r: Vec<&JavaPatchEntry> = Vec::new();
        let mut i: usize = 0;
        while i < self.entries.len()
            invariant
                i <= self.entries@.len(),
                r@.unref() == notes_of_type(self.entries@, patch_type@, i as int),
            decreases self.entries@.len() - i,
        {
            let e = &self.entries[i];
            let matches_type = match &e.patch_type {
                Some(k) => same_text(k.as_str(), patch_type),
                None => false,
            };
            if matches_type {
                r.push(e);
            }
            i += 1;
        }
        r
    }

    /// The release notes of full releases, in order.
    pub fn releases(&self) -> (r: Vec<&JavaPatchEntry>)
        ensures
            r@.unref() == notes_of_type(self.entries@, "release"@, self.entries@.len() as int),
    {
        self.by_type("release")
    }

    /// The release notes of snapshots, in order.
    pub fn snapshots(&self) -> (r: Vec<&JavaPatchEntry>)
        ensures
            r@.unref() == notes_of_type(self.entries@, "snapshot"@, self.entries@.len() as int),
    {
        self.by_type("snapshot")
    }
}

} // verus!
