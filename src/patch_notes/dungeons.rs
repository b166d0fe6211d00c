//! Minecraft Dungeons release notes.
use vstd::prelude::*;
use super::PatchImage;

verus! {

/// Dungeons release notes: a schema version and the entries, newest first.
pub struct DungeonsPatchNotes {
    pub version: u8,
    pub entries: Vec<DungeonsPatchEntry>,
}

/// One Dungeons release note.
pub struct DungeonsPatchEntry {
    pub id: String,
    pub title: String,
    pub version: String,
    pub date: String,
    pub body: String,
    pub content_path: String,
    pub image: PatchImage,
}

impl DungeonsPatchNotes {
    /// The most recent note: the first entry, if any.
    pub fn latest(&self) -> (r: Option<&DungeonsPatchEntry>)
        ensures
            self.entries@.len() == 0 ==> r is None,
            self.entries@.len() > 0 ==> r == Some(&self.entries@[0]),
    {
        if self.entries.len() == 0 {
            None
        } else {
            Some(&self.entries[0])
        }
    }
}

} // verus!
