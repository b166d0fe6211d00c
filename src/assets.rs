//! Asset indexes: where each object is fetched from and stored, and how a set
//! of stored objects is classified against their digests.
use vstd::prelude::*;
use crate::download_util::FileDownloadArguments;
use crate::sha_validation::{digest_matches, hex_text_matches};

verus! {

/// Host serving the objects of every asset index.
pub const MINECRAFT_RESOURCE_CDN: &'static str = "https://resources.download.minecraft.net";

/// An asset index: its origin, identifier, the directory it was stored in,
/// and its objects by name.
pub struct Assets {
    pub url: String,
    pub asset_id: String,
    pub path: Option<String>,
    pub objects: Vec<(String, AssetItem)>,
}

/// One object of an asset index, addressed by its SHA-1 digest.
pub struct AssetItem {
    pub hash: String,
    pub size: u64,
}

/// Classification of every object of an index.
pub struct AssetValidationResult {
    pub asset_id: String,
    pub succeeded: Vec<String>,
    pub failed: Vec<AssetValidationFailureResult>,
}

/// An object that failed validation, by name, and why.
pub struct AssetValidationFailureResult {
    pub hash: String,
    pub reason: AssetValidationFailureReason,
}

#[derive(PartialEq, Eq, Structural, Clone, Copy, Debug)]
pub enum AssetValidationFailureReason {
    FileNotFound,
    HashNotMatching,
}

/// Failure of one object's validation.
pub enum AssetError {
    AssetNotFound { name: String, path: String },
    AssetFailedToValidate { name: String, path: String },
}

/// What was found on disk where an object is stored.
pub enum FileState {
    /// No file is there.
    Absent,
    /// A file is there but could not be read to the end.
    Unreadable,
    /// The file's SHA-1 digest.
    Hashed(Vec<u8>),
}

/// At most the first two characters of `hash`: the shard directory.
pub open spec fn shard_of(hash: Seq<char>) -> Seq<char> {
    if hash.len() < 2 {
        hash
    } else {
        hash.subrange(0, 2)
    }
}

/// `name` appended to the directory `dir` as one more path component; a
/// name that starts at the root stands alone.
pub open spec fn join_path(dir: Seq<char>, name: Seq<char>) -> Seq<char> {
    if name.len() > 0 && name[0] == '/' {
        name
    } else if dir.len() == 0 {
        name
    } else if dir.last() == '/' {
        dir + name
    } else {
        dir + seq!['/'] + name
    }
}

/// Where the object with digest `hash` is fetched from.
pub open spec fn object_url(hash: Seq<char>) -> Seq<char> {
    MINECRAFT_RESOURCE_CDN@ + seq!['/'] + shard_of(hash) + seq!['/'] + hash
}

/// Where the object with digest `hash` is stored under `dir`.
pub open spec fn object_path(dir: Seq<char>, hash: Seq<char>) -> Seq<char> {
    join_path(join_path(dir, shard_of(hash)), hash)
}

/// Why an object with digest `hash` whose stored file is in `state` fails
/// validation, or `None` when it passes.
pub open spec fn failure_reason(hash: Seq<char>, state: FileState) -> Option<
    AssetValidationFailureReason,
> {
    match state {
        FileState::Absent => Some(AssetValidationFailureReason::FileNotFound),
        FileState::Unreadable => Some(AssetValidationFailureReason::HashNotMatching),
        FileState::Hashed(d) => if hex_text_matches(d@, hash) {
            None
        } else {
            Some(AssetValidationFailureReason::HashNotMatching)
        },
    }
}

/// `dir` followed by `/`, as a string.
fn slash_terminated(dir: &str) -> (r: String)
    ensures
        r@ == dir@ + seq!['/'],
{
    let mut r = String::from_str(dir);
    r.append("/");
    proof {
        reveal_strlit("/");
    }
    r
}

/// Joins `name` to `dir` as one more path component.
pub fn join(dir: &str, name: &str) -> (r: String)
    ensures
        r@ == join_path(dir@, name@),
{
    let name_len = name.unicode_len();
    if name_len > 0 && name.get_char(0) == '/' {
        return String::from_str(name);
    }
    let dir_len = dir.unicode_len();
    if dir_len == 0 {
        String::from_str(name)
    } else if dir.get_char(dir_len - 1) == '/' {
        let mut r = String::from_str(dir);
        r.append(name);
        r
    } else {
        let mut r = slash_terminated(dir);
        r.append(name);
        r
    }
}

fn shard(hash: &str) -> (r: &str)
    ensures
        r@ == shard_of(hash@),
{
    let n = hash.unicode_len();
    if n < 2 {
        hash.substring_char(0, n)
    } else {
        hash.substring_char(0, 2)
    }
}

impl AssetItem {
    /// URL of this object on the content host.
    pub fn get_download_url(&self) -> (r: String)
        ensures
            r@ == object_url(self.hash@),
    {
        let mut r = slash_terminated(MINECRAFT_RESOURCE_CDN);
        r.append(shard(self.hash.as_str()));
        let mut r = slash_terminated(r.as_str());
        r.append(self.hash.as_str());
        r
    }

    /// Path of this object under `asset_dir`: a shard directory named by
    /// the digest's first two characters, then the digest.
    pub fn get_download_path(&self, asset_dir: &str) -> (r: String)
        ensures
            r@ == object_path(asset_dir@, self.hash@),
    {
        let dir = join(asset_dir, shard(self.hash.as_str()));
        join(dir.as_str(), self.hash.as_str())
    }

    /// Validates this object, stored under `asset_dir`, given what was found
    /// at its path.
    pub fn validate(&self, asset_dir: &str, found: &FileState) -> (r: Result<(), AssetError>)
        ensures
            failure_reason(self.hash@, *found) is None ==> r is Ok,
            failure_reason(self.hash@, *found) == Some(AssetValidationFailureReason::FileNotFound)
                ==> (r matches Err(AssetError::AssetNotFound { name, path }) && name@ == self.hash@
                && path@ == object_path(asset_dir@, self.hash@)),
            failure_reason(self.hash@, *found) == Some(
                AssetValidationFailureReason::HashNotMatching,
            ) ==> (r matches Err(AssetError::AssetFailedToValidate { name, path }) && name@
                == self.hash@ && path@ == object_path(asset_dir@, self.hash@)),
    {
        let file_path = self.get_download_path(asset_dir);
        match found {
            FileState::Absent => Err(AssetError::AssetNotFound { name: self.hash.clone(), path: file_path }),
            FileState::Unreadable => Err(
                AssetError::AssetFailedToValidate { name: self.hash.clone(), path: file_path },
            ),
            FileState::Hashed(d) => {
                if digest_matches(d.as_slice(), self.hash.as_str()) {
                    Ok(())
                } else {
                    Err(AssetError::AssetFailedToValidate { name: self.hash.clone(), path: file_path })
                }
            },
        }
    }
}


/// Names of the first `k` objects that passed, in index order.
pub open spec fn passed(objects: Seq<(String, AssetItem)>, found: Seq<FileState>, k: int) -> Seq<
    Seq<char>,
>
    decreases k,
{
    if k <= 0 {
        Seq::empty()
    } else {
        let rest = passed(objects, found, k - 1);
        if failure_reason(objects[k - 1].1.hash@, found[k - 1]) is None {
            rest.push(objects[k - 1].0@)
        } else {
            rest
        }
    }
}

/// Names and reasons of the first `k` objects that failed, in index order.
pub open spec fn failures(objects: Seq<(String, AssetItem)>, found: Seq<FileState>, k: int) -> Seq<
    (Seq<char>, AssetValidationFailureReason),
>
    decreases k,
{
    if k <= 0 {
        Seq::empty()
    } else {
        let rest = failures(objects, found, k - 1);
        match failure_reason(objects[k - 1].1.hash@, found[k - 1]) {
            Some(reason) => rest.push((objects[k - 1].0@, reason)),
            None => rest,
        }
    }
}

/// No two objects share a name, as in an index read from a JSON object.
pub open spec fn names_distinct(objects: Seq<(String, AssetItem)>) -> bool {
    forall|i: int, j: int|
        0 <= i < objects.len() && 0 <= j < objects.len() && i != j ==> objects[i].0@
            != objects[j].0@
}

pub open spec fn report_names(r: Seq<String>) -> Seq<Seq<char>> {
    r.map_values(|s: String| s@)
}

pub open spec fn report_failures(r: Seq<AssetValidationFailureResult>) -> Seq<
    (Seq<char>, AssetValidationFailureReason),
> {
    r.map_values(|f: AssetValidationFailureResult| (f.hash@, f.reason))
}

/// Start of the last `/`-separated segment among the first `j` characters.
pub open spec fn segment_start(s: Seq<char>, j: int) -> int
    decreases j,
{
    if j <= 0 {
        0
    } else if s[j - 1] == '/' {
        j
    } else {
        segment_start(s, j - 1)
    }
}

pub open spec fn ends_with_json(s: Seq<char>) -> bool {
    &&& s.len() >= 5
    &&& s[s.len() - 5] == '.'
    &&& s[s.len() - 4] == 'j'
    &&& s[s.len() - 3] == 's'
    &&& s[s.len() - 2] == 'o'
    &&& s[s.len() - 1] == 'n'
}

/// `s` with every trailing `.json` removed.
pub open spec fn trim_json(s: Seq<char>) -> Seq<char>
    decreases s.len(),
{
    if ends_with_json(s) {
        trim_json(s.subrange(0, s.len() - 5))
    } else {
        s
    }
}

/// Identifier of the asset index at `url`: its last path segment without
/// trailing `.json`.
pub open spec fn asset_id_of(url: Seq<char>) -> Seq<char> {
    trim_json(url.subrange(segment_start(url, url.len() as int), url.len() as int))
}

/// Identifier of the asset index served at `url`.
pub fn asset_id_from_url(url: &str) -> (r: String)
    ensures
        r@ == asset_id_of(url@),
{
    let n = url.unicode_len();
    let mut start: usize = n;
    while start > 0 && url.get_char(start - 1) != '/'
        invariant
            start <= n,
            n == url@.len(),
            segment_start(url@, n as int) == segment_start(url@, start as int),
        decreases start,
    {
        start -= 1;
    }
    let ghost seg = url@.subrange(start as int, n as int);
    let mut end: usize = n;
    while end - start >= 5 && url.get_char(end - 5) == '.' && url.get_char(end - 4) == 'j'
        && url.get_char(end - 3) == 's' && url.get_char(end - 2) == 'o' && url.get_char(end - 1)
        == 'n'
        invariant
            start <= end <= n,
            n == url@.len(),
            trim_json(seg) == trim_json(url@.subrange(start as int, end as int)),
        decreases end,
    {
        assert(url@.subrange(start as int, end as int).subrange(0, end - start - 5) =~= url@.subrange(
            start as int,
            end - 5,
        ));
        end -= 5;
    }
    String::from_str(url.substring_char(start, end))
}

impl Assets {
    /// The transfers that store every object of this index under `directory`,
    /// one per object, in index order.
    pub fn download_items(&self, directory: &str) -> (r: Vec<FileDownloadArguments>)
        ensures
            r@.len() == self.objects@.len(),
            forall|i: int|
                0 <= i < r@.len() ==> {
                    let item = #[trigger] self.objects@[i].1;
                    &&& r@[i].url@ == object_url(item.hash@)
                    &&& r@[i].path@ == object_path(directory@, item.hash@)
                    &&& r@[i].sha1 matches Some(h) && h@ == item.hash@
                    &&& r@[i].size == Some(item.size)
                },
    {
        let mut r: Vec<FileDownloadArguments> = Vec::new();
        let mut i: usize = 0;
        while i < self.objects.len()
            invariant
                i <= self.objects@.len(),
                r@.len() == i,
                forall|k: int|
                    0 <= k < i ==> {
                        let item = #[trigger] self.objects@[k].1;
                        &&& r@[k].url@ == object_url(item.hash@)
                        &&& r@[k].path@ == object_path(directory@, item.hash@)
                        &&& r@[k].sha1 matches Some(h) && h@ == item.hash@
                        &&& r@[k].size == Some(item.size)
                    },
            decreases self.objects@.len() - i,
        {
            let item = &self.objects[i].1;
            r.push(
                FileDownloadArguments {
                    url: item.get_download_url(),
                    path: item.get_download_path(directory),
                    sha1: Some(item.hash.clone()),
                    size: Some(item.size),
                },
            );
            i += 1;
        }
        r
    }

    /// Classifies every object of this index stored under `asset_dir`, given
    /// what was found at each object's path (`found[i]` for object `i`). No
    /// object's state affects another's classification.
    pub fn validation_report(&self, asset_dir: &str, found: &Vec<FileState>) -> (r:
        AssetValidationResult)
        requires
            found@.len() == self.objects@.len(),
        ensures
            r.asset_id@ == self.asset_id@,
            report_names(r.succeeded@) == passed(
                self.objects@,
                found@,
                self.objects@.len() as int,
            ),
            report_failures(r.failed@) == failures(
                self.objects@,
                found@,
                self.objects@.len() as int,
            ),
    {
        let mut succeeded: Vec<String> = Vec::new();
        let mut failed: Vec<AssetValidationFailureResult> = Vec::new();
        let mut i: usize = 0;
        while i < self.objects.len()
            invariant
                i <= self.objects@.len(),
                found@.len() == self.objects@.len(),
                report_names(succeeded@) == passed(self.objects@, found@, i as int),
                report_failures(failed@) == failures(self.objects@, found@, i as int),
            decreases self.objects@.len() - i,
        {
            let name = &self.objects[i].0;
            let outcome = self.objects[i].1.validate(asset_dir, &found[i]);
            match outcome {
                Ok(()) => {
                    let ghost before = succeeded@;
                    succeeded.push(name.clone());
                    assert(report_names(succeeded@) =~= report_names(before).push(name@));
                },
                Err(AssetError::AssetNotFound { .. }) => {
                    let ghost before = failed@;
                    failed.push(
                        AssetValidationFailureResult {
                            hash: name.clone(),
                            reason: AssetValidationFailureReason::FileNotFound,
                        },
                    );
                    assert(report_failures(failed@) =~= report_failures(before).push(
                        (name@, AssetValidationFailureReason::FileNotFound),
                    ));
                },
                Err(AssetError::AssetFailedToValidate { .. }) => {
                    let ghost before = failed@;
                    failed.push(
                        AssetValidationFailureResult {
                            hash: name.clone(),
                            reason: AssetValidationFailureReason::HashNotMatching,
                        },
                    );
                    assert(report_failures(failed@) =~= report_failures(before).push(
                        (name@, AssetValidationFailureReason::HashNotMatching),
                    ));
                },
            }
            i += 1;
        }
        AssetValidationResult { asset_id: self.asset_id.clone(), succeeded, failed }
    }
}

/// Among the first `k` objects, each one that passed is listed as passed
/// and each one that failed is listed with its reason.
pub proof fn lemma_object_reported(
    objects: Seq<(String, AssetItem)>,
    found: Seq<FileState>,
    k: int,
    j: int,
)
    requires
        0 <= j < k <= objects.len(),
        found.len() == objects.len(),
    ensures
        failure_reason(objects[j].1.hash@, found[j]) is None ==> passed(objects, found, k).contains(
            objects[j].0@,
        ),
        failure_reason(objects[j].1.hash@, found[j]) matches Some(reason) ==> failures(
            objects,
            found,
            k,
        ).contains((objects[j].0@, reason)),
    decreases k,
{
    if j < k - 1 {
        lemma_object_reported(objects, found, k - 1, j);
        let p = passed(objects, found, k - 1);
        let f = failures(objects, found, k - 1);
        if failure_reason(objects[j].1.hash@, found[j]) is None {
            let x = choose|x: int| 0 <= x < p.len() && p[x] == objects[j].0@;
            assert(passed(objects, found, k)[x] == objects[j].0@);
        } else {
            let reason = failure_reason(objects[j].1.hash@, found[j])->Some_0;
            let x = choose|x: int| 0 <= x < f.len() && f[x] == (objects[j].0@, reason);
            assert(failures(objects, found, k)[x] == (objects[j].0@, reason));
        }
    } else {
        let p = passed(objects, found, k);
        let f = failures(objects, found, k);
        if failure_reason(objects[j].1.hash@, found[j]) is None {
            assert(p[p.len() - 1] == objects[j].0@);
        } else {
            assert(f[f.len() - 1] == (objects[j].0@, failure_reason(objects[j].1.hash@, found[j])->Some_0));
        }
    }
}

/// Every name listed as passed among the first `k` objects belongs to an
/// object that passed.
pub proof fn lemma_passed_are_clean(objects: Seq<(String, AssetItem)>, found: Seq<FileState>, k: int)
    requires
        0 <= k <= objects.len(),
        found.len() == objects.len(),
    ensures
        forall|x: Seq<char>|
            #[trigger] passed(objects, found, k).contains(x) ==> exists|j: int|
                0 <= j < k && objects[j].0@ == x && failure_reason(objects[j].1.hash@, found[j]) is None,
    decreases k,
{
    if k > 0 {
        lemma_passed_are_clean(objects, found, k - 1);
        assert forall|x: Seq<char>| #[trigger] passed(objects, found, k).contains(x) implies exists|j: int|
            0 <= j < k && objects[j].0@ == x && failure_reason(objects[j].1.hash@, found[j]) is None by {
            let p = passed(objects, found, k);
            let q = passed(objects, found, k - 1);
            let y = choose|y: int| 0 <= y < p.len() && p[y] == x;
            if y < q.len() {
                assert(q[y] == x);
                assert(q.contains(x));
            } else {
                assert(objects[k - 1].0@ == x);
            }
        }
    }
}

/// An object whose stored file hashes to its digest is reported as passed.
pub proof fn lemma_matching_file_passes(objects: Seq<(String, AssetItem)>, found: Seq<FileState>, j: int)
    requires
        0 <= j < objects.len(),
        found.len() == objects.len(),
        found[j] matches FileState::Hashed(d) && hex_text_matches(d@, objects[j].1.hash@),
    ensures
        passed(objects, found, objects.len() as int).contains(objects[j].0@),
{
    lemma_object_reported(objects, found, objects.len() as int, j);
}

/// An object whose stored file does not hash to its digest is reported as
/// failed with `HashNotMatching`, and, names being distinct, never as passed.
pub proof fn lemma_corrupted_file_fails(objects: Seq<(String, AssetItem)>, found: Seq<FileState>, j: int)
    requires
        0 <= j < objects.len(),
        found.len() == objects.len(),
        names_distinct(objects),
        found[j] matches FileState::Hashed(d) && !hex_text_matches(d@, objects[j].1.hash@),
    ensures
        failures(objects, found, objects.len() as int).contains(
            (objects[j].0@, AssetValidationFailureReason::HashNotMatching),
        ),
        !passed(objects, found, objects.len() as int).contains(objects[j].0@),
{
    lemma_object_reported(objects, found, objects.len() as int, j);
    lemma_passed_are_clean(objects, found, objects.len() as int);
}

/// Removing one object's file makes that object `FileNotFound` and, names
/// being distinct, never passed; every other object's classification stays
/// as it was.
pub proof fn lemma_missing_file_isolated(
    objects: Seq<(String, AssetItem)>,
    found: Seq<FileState>,
    k: int,
)
    requires
        0 <= k < objects.len(),
        found.len() == objects.len(),
        names_distinct(objects),
    ensures
        failures(objects, found.update(k, FileState::Absent), objects.len() as int).contains(
            (objects[k].0@, AssetValidationFailureReason::FileNotFound),
        ),
        !passed(objects, found.update(k, FileState::Absent), objects.len() as int).contains(
            objects[k].0@,
        ),
        forall|j: int|
            0 <= j < objects.len() && j != k ==> failure_reason(
                objects[j].1.hash@,
                #[trigger] found.update(k, FileState::Absent)[j],
            ) == failure_reason(objects[j].1.hash@, found[j]),
{
    let gone = found.update(k, FileState::Absent);
    lemma_object_reported(objects, gone, objects.len() as int, k);
    lemma_passed_are_clean(objects, gone, objects.len() as int);
}

/// An index with no objects yields a report with nothing passed and nothing
/// failed.
pub proof fn lemma_empty_index_report(objects: Seq<(String, AssetItem)>, found: Seq<FileState>)
    requires
        objects.len() == 0,
    ensures
        passed(objects, found, objects.len() as int) == Seq::<Seq<char>>::empty(),
        failures(objects, found, objects.len() as int) == Seq::<
            (Seq<char>, AssetValidationFailureReason),
        >::empty(),
{
}

} // verus!
