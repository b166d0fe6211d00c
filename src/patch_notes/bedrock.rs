//! Bedrock Edition release notes.
use vstd::prelude::*;
use super::PatchImage;
use crate::text::same_text;

verus! {

/// Bedrock Edition release notes: a schema version and the entries.
pub struct BedrockPatchNotes {
    pub version: u8,
    pub entries: Vec<BedrockPatchEntry>,
}

/// One Bedrock Edition release note.
pub struct BedrockPatchEntry {
    pub id: String,
    pub title: String,
    pub version: String,
    /// Kind of release, such as `retail` or `beta`.
    pub patch_note_type: Option<String>,
    pub date: String,
    pub body: String,
    pub content_path: String,
    pub image: PatchImage,
}

/// Whether `e` is a note of kind `t`.
pub open spec fn of_type(e: BedrockPatchEntry, t: Seq<char>) -> bool {
    e.patch_note_type matches Some(k) && k@ == t
}

/// Notes of kind `t` among the first `k` entries, in order.
pub open spec fn notes_of_type(entries: Seq<BedrockPatchEntry>, t: Seq<char>, k: int) -> Seq<
    BedrockPatchEntry,
>
    decreases k,
{
    if k <= 0 {
        Seq::empty()
    } else if of_type(entries[k - 1], t) {
        notes_of_type(entries, t, k - 1).push(entries[k - 1])
    } else {
        notes_of_type(entries, t, k - 1)
    }
}

impl BedrockPatchNotes {
    /// The notes of kind `patch_note_type`, in order.
    pub fn by_type(&self, patch_note_type: &str) -> (r: Vec<&BedrockPatchEntry>)
        ensures
            r@.unref() == notes_of_type(self.entries@, patch_note_type@, self.entries@.len() as int),
    {
        let mut r: Vec<&BedrockPatchEntry> = Vec::new();
        let mut i: usize = 0;
        while i < self.entries.len()
            invariant
                i <= self.entries@.len(),
                r@.unref() == notes_of_type(self.entries@, patch_note_type@, i as int),
            decreases self.entries@.len() - i,
        {
            let e = &self.entries[i];
            let matches_type = match &e.patch_note_type {
                Some(k) => same_text(k.as_str(), patch_note_type),
                None => false,
            };
            if matches_type {
                r.push(e);
            }
            i += 1;
        }
        r
    }

    /// The retail notes, in order.
    pub fn retail(&self) -> (r: Vec<&BedrockPatchEntry>)
        ensures
            r@.unref() == notes_of_type(self.entries@, "retail"@, self.entries@.len() as int),
    {
        self.by_type("retail")
    }

    /// The beta notes, in order.
    pub fn beta(&self) -> (r: Vec<&BedrockPatchEntry>)
        ensures
            r@.unref() == notes_of_type(self.entries@, "beta"@, self.entries@.len() as int),
    {
        self.by_type("beta")
    }
}

} // verus!
