//! Java runtimes offered for the game, and the files that install one.
use vstd::prelude::*;
use crate::assets::{join, join_path};
use crate::download_util::FileDownloadArguments;
use crate::manifest_v2::Timestamp;

verus! {

/// One Java runtime build and where its file list is served.
pub struct JavaRuntime {
    pub version: Version,
    pub manifest: Manifest,
    pub availability: Availability,
}

/// Where a runtime's file list is served, and its digest and size.
pub struct Manifest {
    pub sha1: String,
    pub size: usize,
    pub url: String,
}

/// Name and release time of a runtime build.
pub struct Version {
    pub name: String,
    pub released: Timestamp,
}

/// Rollout group and progress of a runtime build.
pub struct Availability {
    pub group: u32,
    pub progress: u32,
}

/// One entry of a runtime's file list: a file, directory or link.
pub struct JavaInstallationFile {
    /// Path of the entry relative to the installation directory.
    pub name: String,
    pub file_type: Option<FileType>,
    pub executable: Option<bool>,
    pub downloads: Option<Downloads>,
}

/// Where the content of a file is served, raw and compressed.
pub struct Downloads {
    pub lzma: Option<DownloadItem>,
    pub raw: DownloadItem,
}

/// A served file, with its digest and size.
pub struct DownloadItem {
    pub sha1: String,
    pub size: usize,
    pub url: String,
}

#[derive(PartialEq, Eq, Structural, Clone, Copy, Debug)]
pub enum FileType {
    File,
    Directory,
    Link,
}

/// The file-list entry `e.1` named by its key `e.0`.
pub open spec fn named_file(e: (String, JavaInstallationFile)) -> JavaInstallationFile {
    JavaInstallationFile {
        name: e.0,
        file_type: e.1.file_type,
        executable: e.1.executable,
        downloads: e.1.downloads,
    }
}

/// Entries among the first `k` that have content to fetch, in order.
pub open spec fn fetchable(files: Seq<JavaInstallationFile>, k: int) -> Seq<JavaInstallationFile>
    decreases k,
{
    if k <= 0 {
        Seq::empty()
    } else if files[k - 1].downloads is Some {
        fetchable(files, k - 1).push(files[k - 1])
    } else {
        fetchable(files, k - 1)
    }
}

/// `t` fetches the raw content of `f` into `dir`.
pub open spec fn installs(t: FileDownloadArguments, f: JavaInstallationFile, dir: Seq<char>) -> bool {
    let raw = f.downloads->Some_0.raw;
    &&& t.url@ == raw.url@
    &&& t.path@ == join_path(dir, f.name@)
    &&& t.sha1 matches Some(h) && h@ == raw.sha1@
    &&& t.size == Some(raw.size as u64)
}

impl JavaRuntime {
    /// Display name of this runtime: its version name.
    pub fn label(&self) -> (r: String)
        ensures
            r@ == self.version.name@,
    {
        self.version.name.clone()
    }

    /// The entries of a file list, each named by its key, in the order given.
    pub fn name_installation_files(entries: Vec<(String, JavaInstallationFile)>) -> (r: Vec<
        JavaInstallationFile,
    >)
        ensures
            r@ == entries@.map_values(|e: (String, JavaInstallationFile)| named_file(e)),
    {
        let ghost original = entries@;
        let mut entries = entries;
        let mut reversed: Vec<JavaInstallationFile> = Vec::new();
        while entries.len() > 0
            invariant
                entries@ == original.subrange(0, entries@.len() as int),
                entries@.len() + reversed@.len() == original.len(),
                forall|i: int|
                    0 <= i < reversed@.len() ==> #[trigger] reversed@[i] == named_file(
                        original[original.len() - 1 - i],
                    ),
            decreases entries@.len(),
        {
            let (name, file) = entries.pop().unwrap();
            reversed.push(
                JavaInstallationFile {
                    name,
                    file_type: file.file_type,
                    executable: file.executable,
                    downloads: file.downloads,
                },
            );
            assert(entries@ =~= original.subrange(0, entries@.len() as int));
        }
        let mut r: Vec<JavaInstallationFile> = Vec::new();
        while reversed.len() > 0
            invariant
                reversed@.len() + r@.len() == original.len(),
                forall|i: int|
                    0 <= i < reversed@.len() ==> #[trigger] reversed@[i] == named_file(
                        original[original.len() - 1 - i],
                    ),
                forall|i: int| 0 <= i < r@.len() ==> #[trigger] r@[i] == named_file(original[i]),
            decreases reversed@.len(),
        {
            let f = reversed.pop().unwrap();
            r.push(f);
        }
        assert(r@ =~= original.map_values(|e: (String, JavaInstallationFile)| named_file(e)));
        r
    }

    /// The transfers that install `files` into `directory`: one for each
    /// entry with content, fetching its raw form, in list order.
    pub fn installation_items(files: &Vec<JavaInstallationFile>, directory: &str) -> (r: Vec<
        FileDownloadArguments,
    >)
        ensures
            r@.len() == fetchable(files@, files@.len() as int).len(),
            forall|i: int|
                0 <= i < r@.len() ==> installs(
                    #[trigger] r@[i],
                    fetchable(files@, files@.len() as int)[i],
                    directory@,
                ),
    {
        let mut r: Vec<FileDownloadArguments> = Vec::new();
        let mut i: usize = 0;
        while i < files.len()
            invariant
                i <= files@.len(),
                r@.len() == fetchable(files@, i as int).len(),
                forall|j: int|
                    0 <= j < r@.len() ==> installs(
                        #[trigger] r@[j],
                        fetchable(files@, i as int)[j],
                        directory@,
                    ),
            decreases files@.len() - i,
        {
            let f = &files[i];
            match &f.downloads {
                Some(d) => {
                    r.push(
                        FileDownloadArguments {
                            url: d.raw.url.clone(),
                            path: join(directory, f.name.as_str()),
                            sha1: Some(d.raw.sha1.clone()),
                            size: Some(d.raw.size as u64),
                        },
                    );
                },
                None => {},
            }
            i += 1;
        }
        r
    }
}

} // verus!
