//! Launcher release notes.
use vstd::prelude::*;
use super::PatchImage;
use crate::text::{opt_text, same_text};

verus! {

/// Launcher release notes: a schema version and the entries, newest first.
pub struct LauncherPatchNotes {
    pub version: u8,
    pub entries: Vec<LauncherPatchEntry>,
}

/// One launcher release note.
pub struct LauncherPatchEntry {
    pub id: String,
    pub date: String,
    pub body: String,
    pub versions: LauncherVersions,
    pub highlight: Option<LauncherHighlight>,
}

/// The launcher's version on each platform, where it was released there.
pub struct LauncherVersions {
    pub windows: Option<String>,
    pub osx: Option<String>,
    pub linux: Option<String>,
    pub gamecore: Option<String>,
}

/// An announcement shown with a release.
pub struct LauncherHighlight {
    pub until: String,
    pub title: String,
    pub description: String,
    pub image: PatchImage,
}

/// Lower-case form of `s` by Unicode's rules, as `str::to_lowercase` gives it.
pub uninterp spec fn lowercase_of(s: Seq<char>) -> Seq<char>;

/// Relies on str::to_lowercase: the lower-case form of every character,
/// which depends on the characters alone.
#[verifier::external_body]
fn lowercase(s: &str) -> (r: String)
    ensures
        r@ == lowercase_of(s@),
{
    s.to_lowercase()
}

/// Version recorded in `v` for the platform spelled `p` in lower case:
/// `windows` or `win`; `osx`, `macos` or `mac`; `linux`; `gamecore` or
/// `xbox`. Any other spelling names no platform.
pub open spec fn platform_version(v: LauncherVersions, p: Seq<char>) -> Option<Seq<char>> {
    if p == "windows"@ || p == "win"@ {
        opt_text(v.windows)
    } else if p == "osx"@ || p == "macos"@ || p == "mac"@ {
        opt_text(v.osx)
    } else if p == "linux"@ {
        opt_text(v.linux)
    } else if p == "gamecore"@ || p == "xbox"@ {
        opt_text(v.gamecore)
    } else {
        None
    }
}

/// Text of an optional borrowed version.
pub open spec fn opt_str_view(o: Option<&str>) -> Option<Seq<char>> {
    match o {
        Some(s) => Some(s@),
        None => None,
    }
}

fn as_text(o: &Option<String>) -> (r: Option<&str>)
    ensures
        opt_str_view(r) == opt_text(*o),
{
    match o {
        Some(s) => Some(s.as_str()),
        None => None,
    }
}

/// Entries among the first `k` that carry a highlight, in order.
pub open spec fn highlighted(entries: Seq<LauncherPatchEntry>, k: int) -> Seq<LauncherPatchEntry>
    decreases k,
{
    if k <= 0 {
        Seq::empty()
    } else if entries[k - 1].highlight is Some {
        highlighted(entries, k - 1).push(entries[k - 1])
    } else {
        highlighted(entries, k - 1)
    }
}

impl LauncherPatchNotes {
    /// The most recent note: the first entry, if any.
    pub fn latest(&self) -> (r: Option<&LauncherPatchEntry>)
        ensures
            self.entries@.len() == 0 ==> r is None,
            self.entries@.len() > 0 ==> r == Some(&self.entries@[0]),
    {
        if self.entries.len() == 0 {
            None
        } else {
            Some(&self.entries[0])
        }
    }

    /// The entries that carry a highlight, in order.
    pub fn with_highlights(&self) -> (r: Vec<&LauncherPatchEntry>)
        ensures
            r@.unref() == highlighted(self.entries@, self.entries@.len() as int),
    {
        let mut r: Vec<&LauncherPatchEntry> = Vec::new();
        let mut i: usize = 0;
        while i < self.entries.len()
            invariant
                i <= self.entries@.len(),
                r@.unref() == highlighted(self.entries@, i as int),
            decreases self.entries@.len() - i,
        {
            if self.entries[i].highlight.is_some() {
                r.push(&self.entries[i]);
            }
            i += 1;
        }
        r
    }
}

impl LauncherPatchEntry {
    /// The version for the platform spelled `platform` in any case.
    pub fn version_for_platform(&self, platform: &str) -> (r: Option<&str>)
        ensures
            opt_str_view(r) == platform_version(self.versions, lowercase_of(platform@)),
    {
        let lowered = lowercase(platform);
        self.version_for_lowered_platform(lowered.as_str())
    }

    /// The version for the platform spelled `platform`, already in lower case.
    pub fn version_for_lowered_platform(&self, platform: &str) -> (r: Option<&str>)
        ensures
            opt_str_view(r) == platform_version(self.versions, platform@),
    {
        if same_text(platform, "windows") || same_text(platform, "win") {
            as_text(&self.versions.windows)
        } else if same_text(platform, "osx") || same_text(platform, "macos") || same_text(
            platform,
            "mac",
        ) {
            as_text(&self.versions.osx)
        } else if same_text(platform, "linux") {
            as_text(&self.versions.linux)
        } else if same_text(platform, "gamecore") || same_text(platform, "xbox") {
            as_text(&self.versions.gamecore)
        } else {
            None
        }
    }
}

} // verus!
