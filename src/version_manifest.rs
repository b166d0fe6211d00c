//! The manifest of one game version: its launch arguments and downloads.
use vstd::prelude::*;
use std::collections::HashMap;
use crate::download_util::FileDownloadArguments;
use crate::manifest_v2::{ReleaseType, Timestamp};

verus! {

/// Everything published about one game version.
pub struct VersionManifest {
    pub id: String,
    pub main_class: String,
    pub minimal_launcher_version: u8,
    pub release_time: Timestamp,
    pub time: Timestamp,
    pub release_type: ReleaseType,
    pub arguments: Arguments,
    pub asset_index: AssetIndex,
    pub assets: String,
    pub compliance_level: Option<u8>,
    pub downloads: Downloads,
    pub java_version: Option<JavaVersion>,
}

/// Launch arguments: structured lists, or one string in older versions.
pub enum Arguments {
    Post113(Post113),
    Pre113(String),
}

/// Game and JVM argument lists.
pub struct Post113 {
    pub game: Vec<GameArgument>,
    pub jvm: Vec<GameArgument>,
}

/// A launch argument, given always or under rules.
pub enum GameArgument {
    Plain(String),
    Conditional(ConditionalArgument),
}

/// An argument that applies when its rules allow it.
pub struct ConditionalArgument {
    pub rules: Vec<Rule>,
    pub value: ArgumentValue,
}

/// One argument, or several in a row.
pub enum ArgumentValue {
    Single(String),
    Multiple(Vec<String>),
}

/// A rule that allows or disallows something by feature flags or system.
pub struct Rule {
    pub action: String,
    pub features: Option<HashMap<String, bool>>,
    pub os: Option<OsRule>,
}

/// The system a rule applies to.
pub struct OsRule {
    pub name: Option<String>,
    pub arch: Option<String>,
}

/// Where the version's asset index is served.
pub struct AssetIndex {
    pub id: String,
    pub sha1: String,
    pub size: u64,
    pub total_size: u64,
    pub url: String,
}

/// The version's client and, where there is one, its server.
pub struct Downloads {
    pub client: Download,
    pub server: Option<Download>,
}

/// A served file, with its digest and size.
pub struct Download {
    pub id: Option<String>,
    pub sha1: String,
    pub size: u64,
    pub url: String,
}

/// The Java runtime a version needs.
pub struct JavaVersion {
    pub component: String,
    pub major_version: u8,
}

/// Logging set-up of the client.
pub struct Logging {
    pub client: ClientLogging,
}

/// The client's logging argument and configuration file.
pub struct ClientLogging {
    pub argument: String,
    pub log_type: String,
    pub file: Download,
}

/// A library the client needs, and when.
pub struct LibraryItem {
    pub name: String,
    pub downloads: LibraryDownload,
    pub rules: Option<Vec<Rule>>,
}

/// Where a library's artifact is served.
pub struct LibraryDownload {
    pub name: String,
    pub artifact: Download,
}

/// `t` fetches `d` to `path`, checked against its digest when `validate`.
pub open spec fn fetches(t: FileDownloadArguments, d: Download, path: Seq<char>, validate: bool) -> bool {
    &&& t.url@ == d.url@
    &&& t.path@ == path
    &&& (if validate {
        t.sha1 matches Some(h) && h@ == d.sha1@
    } else {
        t.sha1 is None
    })
    &&& t.size == Some(d.size)
}

impl Download {
    /// The transfer of this file to `path`, checked against its digest
    /// when `validate`.
    pub fn transfer_to(&self, path: &str, validate: bool) -> (r: FileDownloadArguments)
        ensures
            fetches(r, *self, path@, validate),
    {
        FileDownloadArguments {
            url: self.url.clone(),
            path: String::from_str(path),
            sha1: if validate {
                Some(self.sha1.clone())
            } else {
                None
            },
            size: Some(self.size),
        }
    }
}

impl VersionManifest {
    /// The transfer of the client to `path`.
    pub fn client_transfer(&self, path: &str, validate: bool) -> (r: FileDownloadArguments)
        ensures
            fetches(r, self.downloads.client, path@, validate),
    {
        self.downloads.client.transfer_to(path, validate)
    }

    /// The transfer of the server to `path`, or `None` when this version
    /// publishes no server.
    pub fn server_transfer(&self, path: &str, validate: bool) -> (r: Option<FileDownloadArguments>)
        ensures
            self.downloads.server is None ==> r is None,
            self.downloads.server matches Some(s) ==> (r matches Some(t) && fetches(
                t,
                s,
                path@,
                validate,
            )),
    {
        match &self.downloads.server {
            Some(s) => Some(s.transfer_to(path, validate)),
            None => None,
        }
    }
}

} // verus!
