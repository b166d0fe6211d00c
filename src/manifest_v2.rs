//! The list of published game versions.
use vstd::prelude::*;
use crate::text::same_text;

verus! {

/// A point in time in UTC: seconds since the Unix epoch and the
/// nanoseconds past that second.
#[derive(PartialEq, Eq, Structural, Clone, Copy, Debug)]
pub struct Timestamp {
    pub seconds: i64,
    pub nanos: u32,
}

/// The list of published versions, with the latest of each channel.
pub struct ManifestV2 {
    pub latest: LatestManifest,
    pub versions: Vec<Version>,
}

/// Identifiers of the latest release and the latest snapshot.
pub struct LatestManifest {
    pub release: String,
    pub snapshot: String,
}

/// One published version and where its manifest is served.
pub struct Version {
    pub id: String,
    pub release_type: ReleaseType,
    pub url: String,
    pub time: Timestamp,
    pub release_time: Timestamp,
    pub sha1: String,
    pub compliance_level: u8,
}

#[derive(PartialEq, Eq, Structural, Clone, Copy, Debug)]
pub enum ReleaseType {
    Release,
    Snapshot,
    OldBeta,
    OldAlpha,
}

/// Display name of a release channel.
pub open spec fn release_label(t: ReleaseType) -> Seq<char> {
    match t {
        ReleaseType::Release => "Release"@,
        ReleaseType::Snapshot => "Snapshot"@,
        ReleaseType::OldBeta => "Old Beta"@,
        ReleaseType::OldAlpha => "Old Alpha"@,
    }
}

impl ReleaseType {
    /// Display name of this channel.
    pub fn label(&self) -> (r: String)
        ensures
            r@ == release_label(*self),
    {
        match self {
            ReleaseType::Release => String::from_str("Release"),
            ReleaseType::Snapshot => String::from_str("Snapshot"),
            ReleaseType::OldBeta => String::from_str("Old Beta"),
            ReleaseType::OldAlpha => String::from_str("Old Alpha"),
        }
    }
}

impl Version {
    /// An equal copy of this entry.
    pub fn duplicate(&self) -> (r: Self)
        ensures
            r == *self,
    {
        Version {
            id: self.id.clone(),
            release_type: self.release_type,
            url: self.url.clone(),
            time: self.time,
            release_time: self.release_time,
            sha1: self.sha1.clone(),
            compliance_level: self.compliance_level,
        }
    }
}

/// Versions among the first `k` that are full releases, in order.
pub open spec fn releases_in(versions: Seq<Version>, k: int) -> Seq<Version>
    decreases k,
{
    if k <= 0 {
        Seq::empty()
    } else if versions[k - 1].release_type == ReleaseType::Release {
        releases_in(versions, k - 1).push(versions[k - 1])
    } else {
        releases_in(versions, k - 1)
    }
}

impl ManifestV2 {
    /// The first version whose identifier is `id`, if any.
    pub fn version_entry(&self, id: &str) -> (r: Option<&Version>)
        ensures
            r is None <==> forall|i: int| 0 <= i < self.versions@.len() ==> #[trigger] self.versions@[i].id@ != id@,
            r matches Some(v) ==> exists|i: int|
                0 <= i < self.versions@.len() && *v == self.versions@[i] && forall|j: int|
                    0 <= j < i ==> #[trigger] self.versions@[j].id@ != id@,
            r matches Some(v) ==> v.id@ == id@,
    {
        let mut i: usize = 0;
        while i < self.versions.len()
            invariant
                i <= self.versions@.len(),
                forall|j: int| 0 <= j < i ==> #[trigger] self.versions@[j].id@ != id@,
            decreases self.versions@.len() - i,
        {
            if same_text(self.versions[i].id.as_str(), id) {
                return Some(&self.versions[i]);
            }
            i += 1;
        }
        None
    }

    /// Copies of the full releases, in list order.
    pub fn releases(&self) -> (r: Vec<Version>)
        ensures
            r@ == releases_in(self.versions@, self.versions@.len() as int),
    {
        let mut r: Vec<Version> = Vec::new();
        let mut i: usize = 0;
        while i < self.versions.len()
            invariant
                i <= self.versions@.len(),
                r@ == releases_in(self.versions@, i as int),
            decreases self.versions@.len() - i,
        {
            if self.versions[i].release_type == ReleaseType::Release {
                r.push(self.versions[i].duplicate());
            }
            i += 1;
        }
        r
    }
}

} // verus!
