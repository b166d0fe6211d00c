use piston_mc::assets::{asset_id_from_url, join, AssetItem, Assets};
use piston_mc::java::{DownloadItem, Downloads, FileType, JavaInstallationFile, JavaRuntime};
use piston_mc::manifest_v2::{LatestManifest, ManifestV2, ReleaseType, Timestamp, Version};
use piston_mc::news::{Category, News, NewsImage, NewsReport};
use piston_mc::patch_notes::bedrock::{BedrockPatchEntry, BedrockPatchNotes};
use piston_mc::patch_notes::dungeons::{DungeonsPatchEntry, DungeonsPatchNotes};
use piston_mc::patch_notes::java::{JavaPatchEntry, JavaPatchNotes};
use piston_mc::patch_notes::launcher::{
    LauncherHighlight, LauncherPatchEntry, LauncherPatchNotes, LauncherVersions,
};
use piston_mc::patch_notes::PatchImage;
use piston_mc::version_manifest::{Download, Downloads as VersionDownloads};

fn image() -> PatchImage {
    PatchImage { url: "/img.png".to_string(), title: "img".to_string() }
}

#[test]
fn asset_id_is_last_segment_without_json() {
    assert_eq!(asset_id_from_url("https://piston-meta.mojang.com/v1/packages/abc/17.json"), "17");
    assert_eq!(asset_id_from_url("https://host/x/legacy.json.json"), "legacy");
    assert_eq!(asset_id_from_url("https://host/x/"), "");
    assert_eq!(asset_id_from_url("pre-1.6"), "pre-1.6");
    assert_eq!(asset_id_from_url("https://host/.json"), "");
}

#[test]
fn object_url_and_path_are_sharded_by_digest() {
    let item = AssetItem { hash: "bdf48ef6b5d0d23bbb02e17d04865216179f510a".to_string(), size: 1 };
    assert_eq!(
        item.get_download_url(),
        "https://resources.download.minecraft.net/bd/bdf48ef6b5d0d23bbb02e17d04865216179f510a"
    );
    assert_eq!(
        item.get_download_path("target/assets/objects"),
        "target/assets/objects/bd/bdf48ef6b5d0d23bbb02e17d04865216179f510a"
    );
    let short = AssetItem { hash: "a".to_string(), size: 1 };
    assert_eq!(short.get_download_path(""), "a/a");
}

#[test]
fn path_join_rules() {
    assert_eq!(join("a", "b"), "a/b");
    assert_eq!(join("a/", "b"), "a/b");
    assert_eq!(join("", "b"), "b");
    assert_eq!(join("a", "/b"), "/b");
}

#[test]
fn asset_download_items_follow_objects() {
    let assets = Assets {
        url: "u".to_string(),
        asset_id: "1".to_string(),
        path: None,
        objects: vec![
            ("x".to_string(), AssetItem { hash: "00aa".to_string(), size: 4 }),
            ("y".to_string(), AssetItem { hash: "ffbb".to_string(), size: 9 }),
        ],
    };
    let items = assets.download_items("dir");
    assert_eq!(items.len(), 2);
    assert_eq!(items[0].url, "https://resources.download.minecraft.net/00/00aa");
    assert_eq!(items[0].path, "dir/00/00aa");
    assert_eq!(items[0].sha1.as_deref(), Some("00aa"));
    assert_eq!(items[1].size, Some(9));
}

fn bedrock_entry(id: &str, t: Option<&str>) -> BedrockPatchEntry {
    BedrockPatchEntry {
        id: id.to_string(),
        title: id.to_string(),
        version: "1.0".to_string(),
        patch_note_type: t.map(|s| s.to_string()),
        date: "2024-01-01".to_string(),
        body: String::new(),
        content_path: String::new(),
        image: image(),
    }
}

#[test]
fn bedrock_notes_by_type() {
    let notes = BedrockPatchNotes {
        version: 1,
        entries: vec![
            bedrock_entry("a", Some("retail")),
            bedrock_entry("b", Some("beta")),
            bedrock_entry("c", None),
            bedrock_entry("d", Some("retail")),
        ],
    };
    let retail: Vec<&str> = notes.retail().iter().map(|e| e.id.as_str()).collect();
    assert_eq!(retail, vec!["a", "d"]);
    let beta: Vec<&str> = notes.beta().iter().map(|e| e.id.as_str()).collect();
    assert_eq!(beta, vec!["b"]);
    assert!(notes.by_type("Retail").is_empty());
}

#[test]
fn java_notes_by_type() {
    let entry = |id: &str, t: Option<&str>| JavaPatchEntry {
        id: id.to_string(),
        title: id.to_string(),
        version: id.to_string(),
        patch_type: t.map(|s| s.to_string()),
        date: None,
        body: String::new(),
        content_path: String::new(),
        image: image(),
    };
    let notes = JavaPatchNotes {
        version: 1,
        entries: vec![entry("1.20", Some("release")), entry("23w01a", Some("snapshot")), entry("x", None)],
    };
    assert_eq!(notes.releases().len(), 1);
    assert_eq!(notes.releases()[0].id, "1.20");
    assert_eq!(notes.snapshots()[0].id, "23w01a");
}

#[test]
fn dungeons_latest_is_first() {
    let entry = |id: &str| DungeonsPatchEntry {
        id: id.to_string(),
        title: String::new(),
        version: String::new(),
        date: String::new(),
        body: String::new(),
        content_path: String::new(),
        image: image(),
    };
    let notes = DungeonsPatchNotes { version: 1, entries: vec![entry("new"), entry("old")] };
    assert_eq!(notes.latest().unwrap().id, "new");
    assert!(DungeonsPatchNotes { version: 1, entries: vec![] }.latest().is_none());
}

fn launcher_entry(id: &str, highlight: bool) -> LauncherPatchEntry {
    LauncherPatchEntry {
        id: id.to_string(),
        date: "2024-01-01".to_string(),
        body: String::new(),
        versions: LauncherVersions {
            windows: Some("2.1".to_string()),
            osx: Some("2.2".to_string()),
            linux: None,
            gamecore: Some("2.3".to_string()),
        },
        highlight: if highlight {
            Some(LauncherHighlight {
                until: "2024-02-01".to_string(),
                title: "t".to_string(),
                description: "d".to_string(),
                image: image(),
            })
        } else {
            None
        },
    }
}

#[test]
fn launcher_latest_and_highlights() {
    let notes = LauncherPatchNotes {
        version: 2,
        entries: vec![launcher_entry("a", false), launcher_entry("b", true), launcher_entry("c", true)],
    };
    assert_eq!(notes.latest().unwrap().id, "a");
    let ids: Vec<&str> = notes.with_highlights().iter().map(|e| e.id.as_str()).collect();
    assert_eq!(ids, vec!["b", "c"]);
}

#[test]
fn launcher_version_for_platform_ignores_case() {
    let e = launcher_entry("a", false);
    assert_eq!(e.version_for_platform("WINDOWS"), Some("2.1"));
    assert_eq!(e.version_for_platform("Win"), Some("2.1"));
    assert_eq!(e.version_for_platform("MacOS"), Some("2.2"));
    assert_eq!(e.version_for_platform("mac"), Some("2.2"));
    assert_eq!(e.version_for_platform("Linux"), None);
    assert_eq!(e.version_for_platform("XBOX"), Some("2.3"));
    assert_eq!(e.version_for_platform("amiga"), None);
    assert_eq!(e.version_for_lowered_platform("WINDOWS"), None);
}

fn report(id: &str, category: Category) -> NewsReport {
    let img = || NewsImage { title: "i".to_string(), url: "/i.png".to_string(), dimensions: None };
    NewsReport {
        id: id.to_string(),
        title: id.to_string(),
        category,
        date: "2024-01-01".to_string(),
        text: String::new(),
        play_page_image: img(),
        news_page_image: img(),
        read_more_link: String::new(),
        news_type: vec!["News page".to_string()],
        card_border: None,
        tag: Some("tag".to_string()),
    }
}

#[test]
fn news_by_category() {
    let news = News {
        version: 1,
        entries: vec![
            report("a", Category::MinecraftJavaEdition),
            report("b", Category::MinecraftDungeons),
            report("c", Category::MinecraftJavaEdition),
        ],
    };
    let java: Vec<String> = news.java_edition().into_iter().map(|r| r.id).collect();
    assert_eq!(java, vec!["a".to_string(), "c".to_string()]);
    assert_eq!(news.dungeons()[0].news_type, vec!["News page".to_string()]);
    assert!(news.legends().is_empty());
    assert!(news.minecraft_windows().is_empty());
    assert_eq!(news.get_news_by_category(Category::MinecraftDungeons).len(), 1);
}

fn version(id: &str, t: ReleaseType) -> Version {
    let ts = Timestamp { seconds: 1_700_000_000, nanos: 0 };
    Version {
        id: id.to_string(),
        release_type: t,
        url: format!("https://host/{}.json", id),
        time: ts,
        release_time: ts,
        sha1: "00".to_string(),
        compliance_level: 1,
    }
}

#[test]
fn manifest_releases_and_lookup() {
    let m = ManifestV2 {
        latest: LatestManifest { release: "1.20".to_string(), snapshot: "23w01a".to_string() },
        versions: vec![
            version("23w01a", ReleaseType::Snapshot),
            version("1.20", ReleaseType::Release),
            version("b1.7", ReleaseType::OldBeta),
            version("1.19", ReleaseType::Release),
        ],
    };
    let ids: Vec<String> = m.releases().into_iter().map(|v| v.id).collect();
    assert_eq!(ids, vec!["1.20".to_string(), "1.19".to_string()]);
    assert_eq!(m.version_entry("b1.7").unwrap().release_type, ReleaseType::OldBeta);
    assert!(m.version_entry("9.9").is_none());
    assert_eq!(ReleaseType::OldAlpha.label(), "Old Alpha");
    assert_eq!(ReleaseType::Release.label(), "Release");
}

#[test]
fn java_installation_items() {
    let raw = |n: &str| DownloadItem { sha1: format!("sha-{}", n), size: 3, url: format!("https://host/{}", n) };
    let entries = vec![
        (
            "bin/java".to_string(),
            JavaInstallationFile {
                name: String::new(),
                file_type: Some(FileType::File),
                executable: Some(true),
                downloads: Some(Downloads { lzma: None, raw: raw("java") }),
            },
        ),
        (
            "bin".to_string(),
            JavaInstallationFile { name: String::new(), file_type: Some(FileType::Directory), executable: None, downloads: None },
        ),
    ];
    let files = JavaRuntime::name_installation_files(entries);
    assert_eq!(files[0].name, "bin/java");
    assert_eq!(files[1].name, "bin");
    let items = JavaRuntime::installation_items(&files, "jre");
    assert_eq!(items.len(), 1);
    assert_eq!(items[0].path, "jre/bin/java");
    assert_eq!(items[0].url, "https://host/java");
    assert_eq!(items[0].sha1.as_deref(), Some("sha-java"));
}

#[test]
fn version_downloads_become_transfers() {
    let d = Download { id: None, sha1: "abc".to_string(), size: 7, url: "https://host/client.jar".to_string() };
    let checked = d.transfer_to("client.jar", true);
    assert_eq!(checked.sha1.as_deref(), Some("abc"));
    assert_eq!(checked.path, "client.jar");
    let unchecked = d.transfer_to("client.jar", false);
    assert!(unchecked.sha1.is_none());
    let downloads = VersionDownloads { client: d, server: None };
    assert!(downloads.server.is_none());
}
