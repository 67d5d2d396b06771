use miner_launcher::package::PackageInfo;
use miner_launcher::release::{Asset, FetchOutcome, ReleaseInfo, ResolveError};
use miner_launcher::store::{Pointer, Stage, StoreOp};
use std::collections::{BTreeMap, BTreeSet};

fn pkg(os: &str) -> PackageInfo {
    PackageInfo::for_host(os.to_string(), "x86_64".to_string(), "/data")
}

fn release(tag: &str, os: &str) -> FetchOutcome {
    let name = format!("nockpool-miner-{}-x86_64", os);
    FetchOutcome::Release(ReleaseInfo {
        tag_name: tag.to_string(),
        assets: vec![Asset { browser_download_url: format!("https://dl.example/{}", name), name }],
        selected_binary: Some("pick".to_string()),
    })
}

/// A disk in memory, on which the steps mean what the store says they mean.
struct MemoryDisk {
    dirs: BTreeSet<String>,
    files: BTreeMap<String, bool>,
    links: BTreeMap<String, String>,
    entries: Vec<String>,
    done: Vec<&'static str>,
}

impl MemoryDisk {
    fn new() -> MemoryDisk {
        MemoryDisk {
            dirs: BTreeSet::new(),
            files: BTreeMap::new(),
            links: BTreeMap::new(),
            entries: vec!["nockpool-miner".to_string(), "README".to_string()],
            done: Vec::new(),
        }
    }

    fn apply(&mut self, op: &StoreOp) -> bool {
        match op {
            StoreOp::Download { .. } => {
                self.done.push("download");
                true
            }
            StoreOp::CreateDir { path } => {
                self.done.push("mkdir");
                self.dirs.insert(path.clone());
                true
            }
            StoreOp::WriteBinary { path } => {
                self.done.push("write");
                self.files.insert(path.clone(), false);
                true
            }
            StoreOp::Unpack { dir } => {
                self.done.push("unpack");
                for entry in self.entries.clone() {
                    self.files.insert(miner_launcher::paths::join_path(dir, &entry), false);
                }
                true
            }
            StoreOp::MakeExecutable { path } => {
                self.done.push("chmod");
                match self.files.get_mut(path) {
                    Some(mode) => {
                        *mode = true;
                        true
                    }
                    None => false,
                }
            }
            StoreOp::RemovePointer { path } => {
                self.done.push("unlink");
                self.links.remove(path).is_some()
            }
            StoreOp::PointTo { target, link } => {
                self.done.push("symlink");
                if self.links.contains_key(link) || self.files.contains_key(link) || self.dirs.contains(link) {
                    false
                } else {
                    self.links.insert(link.clone(), target.clone());
                    true
                }
            }
        }
    }

    fn run(&mut self, ops: &[StoreOp]) -> bool {
        ops.iter().all(|op| self.apply(op))
    }

    fn pointer(&self, link: &str) -> Pointer {
        match self.links.get(link) {
            None => Pointer::Absent,
            Some(target) if self.dirs.contains(target) => Pointer::Target(target.clone()),
            Some(_) => Pointer::Broken,
        }
    }
}

fn kinds(ops: &[StoreOp]) -> Vec<&'static str> {
    ops.iter()
        .map(|op| match op {
            StoreOp::Download { .. } => "download",
            StoreOp::CreateDir { .. } => "mkdir",
            StoreOp::WriteBinary { .. } => "write",
            StoreOp::Unpack { .. } => "unpack",
            StoreOp::MakeExecutable { .. } => "chmod",
            StoreOp::RemovePointer { .. } => "unlink",
            StoreOp::PointTo { .. } => "symlink",
        })
        .collect()
}

#[test]
fn local_version_is_last_component_of_target() {
    let host = pkg("linux");
    assert_eq!(host.get_local_version(&Pointer::Absent), None);
    assert_eq!(host.get_local_version(&Pointer::Broken), None);
    assert_eq!(
        host.get_local_version(&Pointer::Target("/data/versions/2.3.1".to_string())),
        Some("2.3.1".to_string())
    );
    assert_eq!(host.get_local_version(&Pointer::Target("/data/versions/2.3.1/".to_string())), Some("2.3.1".to_string()));
    assert_eq!(host.get_local_version(&Pointer::Target("/data/versions/..".to_string())), None);
    assert_eq!(host.get_local_version(&Pointer::Target("/".to_string())), None);
}

#[test]
fn install_steps_on_linux_write_the_binary() {
    let mut host = pkg("linux");
    host.fetch_latest(&release("v2.3.1", "linux")).unwrap();
    let ops = host.download_and_install();
    assert_eq!(kinds(&ops), vec!["download", "mkdir", "write", "chmod"]);
    match &ops[0] {
        StoreOp::Download { url } => assert_eq!(url, "https://dl.example/nockpool-miner-linux-x86_64"),
        _ => panic!("first step is not a download"),
    }
    match &ops[1] {
        StoreOp::CreateDir { path } => assert_eq!(path, "/data/versions/2.3.1"),
        _ => panic!("second step does not make the directory"),
    }
    match &ops[2] {
        StoreOp::WriteBinary { path } => assert_eq!(path, "/data/versions/2.3.1/nockpool-miner"),
        _ => panic!("third step does not write the binary"),
    }
    match &ops[3] {
        StoreOp::MakeExecutable { path } => assert_eq!(path, "/data/versions/2.3.1/nockpool-miner"),
        _ => panic!("fourth step does not mark the binary"),
    }
}

#[test]
fn install_steps_on_macos_unpack_the_archive() {
    let mut host = pkg("macos");
    host.fetch_latest(&release("v2.3.1", "macos")).unwrap();
    let ops = host.download_and_install();
    assert_eq!(kinds(&ops), vec!["download", "mkdir", "unpack", "chmod"]);
    match &ops[2] {
        StoreOp::Unpack { dir } => assert_eq!(dir, "/data/versions/2.3.1"),
        _ => panic!("third step does not unpack"),
    }
}

#[test]
fn promote_steps_remove_a_pointer_that_is_there() {
    let mut host = pkg("linux");
    host.fetch_latest(&release("v2.3.1", "linux")).unwrap();
    let fresh = host.update_symlink(false);
    assert_eq!(kinds(&fresh), vec!["symlink"]);
    match &fresh[0] {
        StoreOp::PointTo { target, link } => {
            assert_eq!(target, "/data/versions/2.3.1");
            assert_eq!(link, "/data/current");
        }
        _ => panic!("not a pointer step"),
    }
    let again = host.update_symlink(true);
    assert_eq!(kinds(&again), vec!["unlink", "symlink"]);
    match &again[0] {
        StoreOp::RemovePointer { path } => assert_eq!(path, "/data/current"),
        _ => panic!("not a removal step"),
    }
}

#[test]
fn ensure_latest_installs_when_nothing_is_installed() {
    let mut host = pkg("linux");
    let mut disk = MemoryDisk::new();
    let pointer = disk.pointer("/data/current");
    let ops = host.ensure_latest_version(&pointer, &release("v2.3.1", "linux")).unwrap();
    assert_eq!(kinds(&ops), vec!["download", "mkdir", "write", "chmod", "symlink"]);
    assert!(disk.run(&ops));
    assert_eq!(host.get_local_version(&disk.pointer("/data/current")), Some("2.3.1".to_string()));
    assert_eq!(disk.files.get("/data/versions/2.3.1/nockpool-miner"), Some(&true));
    assert_eq!(host.run_miner(&[]).program, "/data/current/nockpool-miner");
}

#[test]
fn ensure_latest_follows_every_change_of_remote() {
    let mut host = pkg("macos");
    let mut disk = MemoryDisk::new();
    for tag in ["v1.0.0", "v1.1.0", "v1.0.0", "v3.0.0-rc1", "v2.0.0"] {
        let pointer = disk.pointer("/data/current");
        let ops = host.ensure_latest_version(&pointer, &release(tag, "macos")).unwrap();
        assert!(!ops.is_empty(), "{}", tag);
        assert!(disk.run(&ops), "{}", tag);
        let local = host.get_local_version(&disk.pointer("/data/current"));
        assert_eq!(local, Some(host.version.clone()), "{}", tag);
        let bin = format!("/data/versions/{}/nockpool-miner", host.version);
        assert_eq!(disk.files.get(&bin), Some(&true), "{}", tag);
    }
    assert_eq!(host.version, "2.0.0");
}

#[test]
fn ensure_latest_leaves_a_current_store_alone() {
    let mut host = pkg("linux");
    let mut disk = MemoryDisk::new();
    let first = host.ensure_latest_version(&disk.pointer("/data/current"), &release("v2.3.1", "linux")).unwrap();
    assert!(disk.run(&first));
    let calls = disk.done.len();
    for _ in 0..3 {
        let ops = host.ensure_latest_version(&disk.pointer("/data/current"), &release("v2.3.1", "linux")).unwrap();
        assert!(ops.is_empty());
        assert!(disk.run(&ops));
    }
    assert_eq!(disk.done.len(), calls);
    assert_eq!(host.get_local_version(&disk.pointer("/data/current")), Some("2.3.1".to_string()));
}

#[test]
fn ensure_latest_treats_an_older_remote_as_an_update() {
    let mut host = pkg("linux");
    let pointer = Pointer::Target("/data/versions/2.3.1".to_string());
    let ops = host.ensure_latest_version(&pointer, &release("v2.3.0", "linux")).unwrap();
    assert_eq!(kinds(&ops), vec!["download", "mkdir", "write", "chmod", "unlink", "symlink"]);
    assert_eq!(host.version, "2.3.0");
}

#[test]
fn ensure_latest_replaces_a_broken_pointer() {
    let mut host = pkg("linux");
    let ops = host.ensure_latest_version(&Pointer::Broken, &release("v2.3.1", "linux")).unwrap();
    assert_eq!(kinds(&ops), vec!["download", "mkdir", "write", "chmod", "unlink", "symlink"]);
}

#[test]
fn ensure_latest_propagates_unsupported_and_plans_nothing() {
    let mut host = PackageInfo::for_host("macos".to_string(), "aarch64".to_string(), "/data");
    let outcome = FetchOutcome::Release(ReleaseInfo {
        tag_name: "v2.3.1".to_string(),
        assets: vec![Asset {
            name: "nockpool-miner-linux-x86_64".to_string(),
            browser_download_url: "https://dl.example/a".to_string(),
        }],
        selected_binary: Some("nockpool-miner-linux-x86_64".to_string()),
    });
    let result = host.ensure_latest_version(&Pointer::Absent, &outcome);
    assert_eq!(result.err(), Some(ResolveError::Unsupported));
    assert_eq!(host.version, "");
    let unreachable = host.ensure_latest_version(&Pointer::Absent, &FetchOutcome::Unreachable);
    assert_eq!(unreachable.err(), Some(ResolveError::Transport));
}

#[test]
fn promote_twice_changes_nothing_and_never_fails() {
    let mut host = pkg("linux");
    let mut disk = MemoryDisk::new();
    host.fetch_latest(&release("v2.3.1", "linux")).unwrap();
    assert!(disk.run(&host.download_and_install()));
    let present = !matches!(disk.pointer("/data/current"), Pointer::Absent);
    assert!(disk.run(&host.update_symlink(present)));
    let once = disk.links.clone();
    let present = !matches!(disk.pointer("/data/current"), Pointer::Absent);
    assert!(present);
    assert!(disk.run(&host.update_symlink(present)));
    assert_eq!(disk.links, once);
    assert_eq!(host.get_local_version(&disk.pointer("/data/current")), Some("2.3.1".to_string()));
}

#[test]
fn steps_on_the_pointer_promote_and_all_others_install() {
    let mut host = pkg("macos");
    let ops = host.ensure_latest_version(&Pointer::Broken, &release("v2.3.1", "macos")).unwrap();
    let stages: Vec<Stage> = ops.iter().map(|op| op.stage()).collect();
    assert_eq!(
        stages,
        vec![Stage::Install, Stage::Install, Stage::Install, Stage::Install, Stage::Promote, Stage::Promote]
    );
    assert_eq!(StoreOp::WriteBinary { path: "x".to_string() }.stage(), Stage::Install);
}
