//! The installation store: versioned directories, the pointer to the active one, and the
//! steps that install a version and promote it.
//!
//! The store itself lives on disk and is driven by the caller. This module decides which
//! steps to take, and says, over a model of the disk, what those steps achieve.

use vstd::prelude::*;
use crate::package::{worker_binary, PackageInfo};
use crate::paths::{
    file_name, join_path, joined, last_component, lemma_last_component_of_joined, plain_name,
};
use crate::release::{resolution, FetchOutcome, ResolveError};
use crate::text::same_text;

verus! {

/// One step the caller performs on the store, in the order given.
#[derive(Debug, Clone, PartialEq, Eq)]
pub enum StoreOp {
    /// Fetch the package from `url`; its bytes are the payload of the steps that follow.
    Download { url: String },
    /// Create the directory `path` and any missing parent.
    CreateDir { path: String },
    /// Write the payload to the file `path`, replacing what was there.
    WriteBinary { path: String },
    /// Unpack the payload, an archive, into the directory `dir`.
    Unpack { dir: String },
    /// Mark the file `path` executable.
    MakeExecutable { path: String },
    /// Remove the pointer at `path`.
    RemovePointer { path: String },
    /// Create a pointer at `link` that names `target`.
    PointTo { target: String, link: String },
}

/// A step, as text.
pub enum Step {
    Download { url: Seq<char> },
    CreateDir { path: Seq<char> },
    WriteBinary { path: Seq<char> },
    Unpack { dir: Seq<char> },
    MakeExecutable { path: Seq<char> },
    RemovePointer { path: Seq<char> },
    PointTo { target: Seq<char>, link: Seq<char> },
}

impl View for StoreOp {
    type V = Step;

    open spec fn view(&self) -> Step {
        match *self {
            StoreOp::Download { url } => Step::Download { url: url@ },
            StoreOp::CreateDir { path } => Step::CreateDir { path: path@ },
            StoreOp::WriteBinary { path } => Step::WriteBinary { path: path@ },
            StoreOp::Unpack { dir } => Step::Unpack { dir: dir@ },
            StoreOp::MakeExecutable { path } => Step::MakeExecutable { path: path@ },
            StoreOp::RemovePointer { path } => Step::RemovePointer { path: path@ },
            StoreOp::PointTo { target, link } => Step::PointTo { target: target@, link: link@ },
        }
    }
}

/// The two stages of an update.
#[derive(Clone, Copy, Debug, PartialEq, Eq, Structural)]
pub enum Stage {
    /// Fetching the package and populating the version directory.
    Install,
    /// Repointing the current pointer.
    Promote,
}

/// The stage a step belongs to: the steps on the pointer promote, all others install.
pub open spec fn stage_of(step: Step) -> Stage {
    match step {
        Step::RemovePointer { .. } => Stage::Promote,
        Step::PointTo { .. } => Stage::Promote,
        _ => Stage::Install,
    }
}

impl StoreOp {
    /// The stage this step belongs to, by which a failure of it is reported.
    pub fn stage(&self) -> (stage: Stage)
        ensures
            stage == stage_of(self@),
    {
        match self {
            StoreOp::RemovePointer { .. } => Stage::Promote,
            StoreOp::PointTo { .. } => Stage::Promote,
            _ => Stage::Install,
        }
    }
}

/// The steps a list of operations stands for.
pub open spec fn steps_of(ops: Seq<StoreOp>) -> Seq<Step> {
    ops.map_values(|op: StoreOp| op@)
}

/// What the caller found at the pointer's path.
#[derive(Debug, Clone, PartialEq, Eq)]
pub enum Pointer {
    /// Nothing is there.
    Absent,
    /// A pointer is there, but it cannot be read or what it names does not exist.
    Broken,
    /// A pointer is there and names this existing directory.
    Target(String),
}

/// A pointer observation, as text.
pub enum PointerView {
    Absent,
    Broken,
    Target(Seq<char>),
}

impl View for Pointer {
    type V = PointerView;

    open spec fn view(&self) -> PointerView {
        match *self {
            Pointer::Absent => PointerView::Absent,
            Pointer::Broken => PointerView::Broken,
            Pointer::Target(target) => PointerView::Target(target@),
        }
    }
}

/// The version a pointer observation stands for: the last component of the directory it
/// names. A missing or broken pointer stands for no version.
pub open spec fn local_version_of(pointer: PointerView) -> Option<Seq<char>> {
    match pointer {
        PointerView::Target(target) => last_component(target),
        _ => None,
    }
}

/// Directory of the version that `pkg` last resolved.
pub open spec fn version_dir_of(pkg: PackageInfo) -> Seq<char> {
    joined(pkg.versions_dir@, pkg.version@)
}

/// Path of the worker binary of the version that `pkg` last resolved.
pub open spec fn binary_path_of(pkg: PackageInfo) -> Seq<char> {
    joined(version_dir_of(pkg), pkg.bin_name@)
}

/// Whether packages for the host of `pkg` ship as an archive.
pub open spec fn ships_archive(pkg: PackageInfo) -> bool {
    pkg.os_name@ == "macos"@
}

/// Installing the resolved version: fetch the package, make the version directory, put
/// the payload in it, and mark the worker binary executable.
pub open spec fn install_steps(pkg: PackageInfo) -> Seq<Step> {
    seq![
        Step::Download { url: pkg.download_url@ },
        Step::CreateDir { path: version_dir_of(pkg) },
        if ships_archive(pkg) {
            Step::Unpack { dir: version_dir_of(pkg) }
        } else {
            Step::WriteBinary { path: binary_path_of(pkg) }
        },
        Step::MakeExecutable { path: binary_path_of(pkg) },
    ]
}

/// Promoting the resolved version: remove the pointer if one is there, then point at the
/// version directory.
pub open spec fn promote_steps(pkg: PackageInfo, present: bool) -> Seq<Step> {
    let point = Step::PointTo { target: version_dir_of(pkg), link: pkg.current_symlink@ };
    if present {
        seq![Step::RemovePointer { path: pkg.current_symlink@ }, point]
    } else {
        seq![point]
    }
}

/// Bringing the store up to the resolved version: nothing when the pointer already
/// stands for it, else install and promote.
pub open spec fn update_steps(pkg: PackageInfo, pointer: PointerView) -> Seq<Step> {
    if local_version_of(pointer) == Some(pkg.version@) {
        Seq::empty()
    } else {
        install_steps(pkg) + promote_steps(pkg, pointer != PointerView::Absent)
    }
}

impl PackageInfo {
    /// The version that the current pointer stands for, if any.
    pub fn get_local_version(&self, pointer: &Pointer) -> (version: Option<String>)
        ensures
            match local_version_of(pointer@) {
                Some(want) => version matches Some(got) && got@ == want,
                None => version is None,
            },
    {
        match pointer {
            Pointer::Target(target) => file_name(target.as_str()),
            _ => None,
        }
    }

    /// The steps that install the version last resolved.
    pub fn download_and_install(&self) -> (ops: Vec<StoreOp>)
        ensures
            steps_of(ops@) == install_steps(*self),
    {
        let version_dir = join_path(self.versions_dir.as_str(), self.version.as_str());
        let bin_path = join_path(version_dir.as_str(), self.bin_name.as_str());
        let mut ops: Vec<StoreOp> = Vec::new();
        ops.push(StoreOp::Download { url: self.download_url.clone() });
        ops.push(StoreOp::CreateDir { path: version_dir.clone() });
        if same_text(self.os_name.as_str(), "macos") {
            ops.push(StoreOp::Unpack { dir: version_dir });
        } else {
            ops.push(StoreOp::WriteBinary { path: bin_path.clone() });
        }
        ops.push(StoreOp::MakeExecutable { path: bin_path });
        assert(steps_of(ops@) =~= install_steps(*self));
        ops
    }

    /// The steps that promote the version last resolved. `present` says whether anything
    /// stands at the pointer's path now.
    pub fn update_symlink(&self, present: bool) -> (ops: Vec<StoreOp>)
        ensures
            steps_of(ops@) == promote_steps(*self, present),
    {
        let version_dir = join_path(self.versions_dir.as_str(), self.version.as_str());
        let mut ops: Vec<StoreOp> = Vec::new();
        if present {
            ops.push(StoreOp::RemovePointer { path: self.current_symlink.clone() });
        }
        ops.push(StoreOp::PointTo { target: version_dir, link: self.current_symlink.clone() });
        assert(steps_of(ops@) =~= promote_steps(*self, present));
        ops
    }

    /// Resolves the release for this host and plans how to reach it.
    ///
    /// The plan is empty when the pointer already stands for the resolved version.
    /// Otherwise it installs that version and then promotes it. Versions are compared as
    /// text: any difference calls for an update. When resolution fails, the failure is
    /// returned, nothing is planned and nothing changes.
    pub fn ensure_latest_version(&mut self, pointer: &Pointer, outcome: &FetchOutcome) -> (plan:
        Result<Vec<StoreOp>, ResolveError>)
        ensures
            final(self).os_name == old(self).os_name,
            final(self).arch == old(self).arch,
            final(self).bin_name == old(self).bin_name,
            final(self).versions_dir == old(self).versions_dir,
            final(self).current_symlink == old(self).current_symlink,
            match resolution(old(self).os_name@, old(self).arch@, *outcome) {
                Ok(want) => plan matches Ok(ops) && final(self).version@ == want.0
                    && final(self).download_url@ == want.1
                    && final(self).package_name@ == want.2
                    && steps_of(ops@) == update_steps(*final(self), pointer@),
                Err(error) => plan matches Err(got) && got == error && *final(self) == *old(self),
            },
    {
        let local_version = self.get_local_version(pointer);
        match self.fetch_latest(outcome) {
            Ok(()) => {},
            Err(error) => {
                return Err(error);
            },
        }
        let needs_update = match &local_version {
            Some(local) => !same_text(local.as_str(), self.version.as_str()),
            None => true,
        };
        if needs_update {
            let present = match pointer {
                Pointer::Absent => false,
                _ => true,
            };
            let mut ops = self.download_and_install();
            let mut promote = self.update_symlink(present);
            let ghost install = ops@;
            let ghost link = promote@;
            ops.append(&mut promote);
            assert(steps_of(ops@) =~= steps_of(install) + steps_of(link));
            Ok(ops)
        } else {
            let ops: Vec<StoreOp> = Vec::new();
            assert(steps_of(ops@) =~= Seq::<Step>::empty());
            Ok(ops)
        }
    }
}

/// A model of the disk: the directories, the regular files with whether each is
/// executable, and the pointers with what each names.
pub struct FileTree {
    pub dirs: Set<Seq<char>>,
    pub files: Map<Seq<char>, bool>,
    pub links: Map<Seq<char>, Seq<char>>,
}

/// A model of a package payload: the names of the files it unpacks to, when it is an
/// archive.
pub struct Payload {
    pub entries: Set<Seq<char>>,
}

/// Whether unpacking `payload` into `dir` writes the file `path`.
pub open spec fn unpacks_to(payload: Payload, dir: Seq<char>, path: Seq<char>) -> bool {
    exists|entry: Seq<char>| #[trigger] payload.entries.contains(entry) && path == joined(dir, entry)
}

/// The disk after one step, or `None` when the step fails. Fetching leaves the disk as it
/// is. Marking a file executable fails when the file is missing, removing a pointer fails
/// when there is none, and creating one fails when its path is taken.
pub open spec fn apply(disk: FileTree, step: Step, payload: Payload) -> Option<FileTree> {
    match step {
        Step::Download { url } => Some(disk),
        Step::CreateDir { path } => Some(FileTree { dirs: disk.dirs.insert(path), ..disk }),
        Step::WriteBinary { path } => Some(FileTree { files: disk.files.insert(path, false), ..disk }),
        Step::Unpack { dir } => Some(
            FileTree {
                files: Map::new(
                    |path: Seq<char>|
                        disk.files.dom().contains(path) || unpacks_to(payload, dir, path),
                    |path: Seq<char>|
                        if unpacks_to(payload, dir, path) {
                            false
                        } else {
                            disk.files[path]
                        },
                ),
                ..disk
            },
        ),
        Step::MakeExecutable { path } => if disk.files.dom().contains(path) {
            Some(FileTree { files: disk.files.insert(path, true), ..disk })
        } else {
            None
        },
        Step::RemovePointer { path } => if disk.links.dom().contains(path) {
            Some(FileTree { links: disk.links.remove(path), ..disk })
        } else {
            None
        },
        Step::PointTo { target, link } => if disk.links.dom().contains(link)
            || disk.files.dom().contains(link) || disk.dirs.contains(link) {
            None
        } else {
            Some(FileTree { links: disk.links.insert(link, target), ..disk })
        },
    }
}

/// The disk after `steps`, taken in order, or `None` when one of them fails.
pub open spec fn run(disk: FileTree, steps: Seq<Step>, payload: Payload) -> Option<FileTree>
    decreases steps.len(),
{
    if steps.len() == 0 {
        Some(disk)
    } else {
        match apply(disk, steps[0], payload) {
            Some(next) => run(next, steps.drop_first(), payload),
            None => None,
        }
    }
}

/// What a caller finds at `link` on `disk`.
pub open spec fn observe(disk: FileTree, link: Seq<char>) -> PointerView {
    if !disk.links.dom().contains(link) {
        PointerView::Absent
    } else if disk.dirs.contains(disk.links[link]) {
        PointerView::Target(disk.links[link])
    } else {
        PointerView::Broken
    }
}

/// The version that is current on `disk` for the layout of `pkg`.
pub open spec fn local_version_on(disk: FileTree, pkg: PackageInfo) -> Option<Seq<char>> {
    local_version_of(observe(disk, pkg.current_symlink@))
}

/// The layout of `pkg` is usable on `disk`: the pointer's path is neither a file nor a
/// directory there, and differs from the version directory and the binary's path.
pub open spec fn layout_fits(disk: FileTree, pkg: PackageInfo) -> bool {
    &&& !disk.files.dom().contains(pkg.current_symlink@)
    &&& !disk.dirs.contains(pkg.current_symlink@)
    &&& pkg.current_symlink@ != version_dir_of(pkg)
    &&& pkg.current_symlink@ != binary_path_of(pkg)
}

/// A payload is valid for `pkg` when, if it is an archive, it holds the worker binary and
/// none of its files lands on the pointer's path.
pub open spec fn payload_fits(payload: Payload, pkg: PackageInfo) -> bool {
    ships_archive(pkg) ==> payload.entries.contains(pkg.bin_name@) && !unpacks_to(
        payload,
        version_dir_of(pkg),
        pkg.current_symlink@,
    )
}

/// In the layout under one data directory, the pointer's path is neither the directory
/// of a plainly named version nor the path of the worker binary in it.
pub proof fn law_layout_keeps_pointer_apart(pkg: PackageInfo, base: Seq<char>)
    requires
        pkg.versions_dir@ == joined(base, "versions"@),
        pkg.current_symlink@ == joined(base, "current"@),
        pkg.bin_name@ == worker_binary(),
        plain_name(pkg.version@),
    ensures
        pkg.current_symlink@ != version_dir_of(pkg),
        pkg.current_symlink@ != binary_path_of(pkg),
{
    reveal_strlit("versions");
    reveal_strlit("current");
    reveal_strlit("nockpool-miner");
    let stem = if base.len() == 0 || base.last() == '/' {
        base
    } else {
        base + seq!['/']
    };
    let at = stem.len() as int;
    let link = pkg.current_symlink@;
    let versions = pkg.versions_dir@;
    let dir = version_dir_of(pkg);
    let bin = binary_path_of(pkg);
    assert("versions"@[0] == 'v');
    assert("current"@[0] == 'c');
    assert("nockpool-miner"@[0] == 'n');
    assert(link =~= stem + "current"@);
    assert(versions =~= stem + "versions"@);
    assert(link[at] == 'c');
    assert(versions[at] == 'v');
    assert(pkg.version@[0] != '/');
    assert(versions.last() == 's');
    assert(dir =~= versions + seq!['/'] + pkg.version@);
    assert(dir[at] == 'v');
    assert(bin.len() > at && bin[at] == 'v') by {
        if dir.last() == '/' {
            assert(bin =~= dir + pkg.bin_name@);
        } else {
            assert(bin =~= dir + seq!['/'] + pkg.bin_name@);
        }
    }
}

/// Running two lists of steps one after the other is running their concatenation.
pub proof fn lemma_run_concat(disk: FileTree, first: Seq<Step>, second: Seq<Step>, payload: Payload)
    ensures
        run(disk, first + second, payload) == match run(disk, first, payload) {
            Some(middle) => run(middle, second, payload),
            None => None,
        },
    decreases first.len(),
{
    if first.len() == 0 {
        assert(first + second =~= second);
    } else {
        assert((first + second)[0] == first[0]);
        assert((first + second).drop_first() =~= first.drop_first() + second);
        match apply(disk, first[0], payload) {
            Some(next) => lemma_run_concat(next, first.drop_first(), second, payload),
            None => {},
        }
    }
}

/// Installing leaves the pointers alone, makes the version directory, and leaves the
/// worker binary in it as an executable file.
pub proof fn lemma_install(disk: FileTree, pkg: PackageInfo, payload: Payload)
    requires
        payload_fits(payload, pkg),
    ensures
        run(disk, install_steps(pkg), payload) matches Some(after) && after.links == disk.links
            && after.dirs == disk.dirs.insert(version_dir_of(pkg))
            && after.files.dom().contains(binary_path_of(pkg))
            && after.files[binary_path_of(pkg)]
            && (forall|path: Seq<char>| #[trigger]
            after.files.dom().contains(path) ==> disk.files.dom().contains(path) || path
                == binary_path_of(pkg) || (ships_archive(pkg) && unpacks_to(
                payload,
                version_dir_of(pkg),
                path,
            ))),
{
    let steps = install_steps(pkg);
    let s1 = steps.drop_first();
    let s2 = s1.drop_first();
    let s3 = s2.drop_first();
    assert(s3.drop_first().len() == 0);
    let d1 = apply(disk, steps[0], payload)->0;
    let d2 = apply(d1, s1[0], payload)->0;
    let d3 = apply(d2, s2[0], payload)->0;
    if ships_archive(pkg) {
        assert(unpacks_to(payload, version_dir_of(pkg), binary_path_of(pkg))) by {
            assert(payload.entries.contains(pkg.bin_name@));
        }
    }
    assert(d3.files.dom().contains(binary_path_of(pkg)));
    let d4 = apply(d3, s3[0], payload)->0;
    assert(run(d4, s3.drop_first(), payload) == Some(d4));
    assert(run(d3, s3, payload) == Some(d4));
    assert(run(d2, s2, payload) == Some(d4));
    assert(run(d1, s1, payload) == Some(d4));
    assert(run(disk, steps, payload) == Some(d4));
}

/// Promoting on a disk where the pointer's path is free or holds a pointer never fails,
/// and leaves exactly that pointer naming the version directory.
pub proof fn lemma_promote(disk: FileTree, pkg: PackageInfo, payload: Payload)
    requires
        !disk.files.dom().contains(pkg.current_symlink@),
        !disk.dirs.contains(pkg.current_symlink@),
    ensures
        run(
            disk,
            promote_steps(pkg, observe(disk, pkg.current_symlink@) != PointerView::Absent),
            payload,
        ) matches Some(after) && after.dirs == disk.dirs && after.files == disk.files
            && after.links == disk.links.insert(pkg.current_symlink@, version_dir_of(pkg)),
{
    let link = pkg.current_symlink@;
    let present = observe(disk, link) != PointerView::Absent;
    let steps = promote_steps(pkg, present);
    if present {
        let s1 = steps.drop_first();
        assert(s1.drop_first().len() == 0);
        let d1 = apply(disk, steps[0], payload)->0;
        let d2 = apply(d1, s1[0], payload)->0;
        assert(run(d2, s1.drop_first(), payload) == Some(d2));
        assert(run(d1, s1, payload) == Some(d2));
        assert(run(disk, steps, payload) == Some(d2));
        assert(d2.links =~= disk.links.insert(link, version_dir_of(pkg)));
    } else {
        assert(steps.drop_first().len() == 0);
        let d1 = apply(disk, steps[0], payload)->0;
        assert(run(d1, steps.drop_first(), payload) == Some(d1));
    }
}

/// Whenever the version on disk differs from the one resolved, carrying out the plan
/// makes the resolved version current, and the pointer then leads to an executable
/// worker binary. The pointer's path stays free of files and directories, so the same
/// holds of the next update, and of every one after it.
///
/// `pkg` is the record as resolution left it. This holds for versions that are plain
/// names; a version such as `a/b` would be read back by its last component only.
pub proof fn law_update_reaches_remote(pkg: PackageInfo, disk: FileTree, payload: Payload)
    requires
        local_version_on(disk, pkg) != Some(pkg.version@),
        plain_name(pkg.version@),
        layout_fits(disk, pkg),
        payload_fits(payload, pkg),
    ensures
        run(disk, update_steps(pkg, observe(disk, pkg.current_symlink@)), payload) matches Some(
            after,
        ) && local_version_on(after, pkg) == Some(pkg.version@) && observe(
            after,
            pkg.current_symlink@,
        ) == PointerView::Target(version_dir_of(pkg)) && after.files.dom().contains(
            binary_path_of(pkg),
        ) && after.files[binary_path_of(pkg)] && !after.files.dom().contains(
            pkg.current_symlink@,
        ) && !after.dirs.contains(pkg.current_symlink@),
{
    let link = pkg.current_symlink@;
    let pointer = observe(disk, link);
    let install = install_steps(pkg);
    let promote = promote_steps(pkg, pointer != PointerView::Absent);
    lemma_install(disk, pkg, payload);
    let middle = run(disk, install, payload)->0;
    assert(observe(middle, link) != PointerView::Absent <==> pointer != PointerView::Absent);
    assert(!middle.files.dom().contains(link));
    lemma_promote(middle, pkg, payload);
    lemma_run_concat(disk, install, promote, payload);
    lemma_last_component_of_joined(pkg.versions_dir@, pkg.version@);
}

/// The disk after one update for each record of `pkgs`, in order, each with its payload:
/// before every update the pointer is observed anew, and the plan for what is observed is
/// carried out. `None` when a step of some plan fails.
pub open spec fn follow(disk: FileTree, pkgs: Seq<PackageInfo>, payloads: Seq<Payload>) -> Option<
    FileTree,
>
    decreases pkgs.len(),
{
    if pkgs.len() == 0 {
        Some(disk)
    } else {
        match follow(disk, pkgs.drop_last(), payloads.drop_last()) {
            Some(before) => run(
                before,
                update_steps(pkgs.last(), observe(before, pkgs.last().current_symlink@)),
                payloads.last(),
            ),
            None => None,
        }
    }
}

/// Over any sequence of resolved releases, whether each differs from what is installed
/// or not, no update fails, and after the last one the current version is the version
/// last resolved.
///
/// The records share one pointer, every version is a plain name, and every payload is
/// valid for its record.
pub proof fn law_updates_follow_remote(
    disk: FileTree,
    pkgs: Seq<PackageInfo>,
    payloads: Seq<Payload>,
)
    requires
        pkgs.len() > 0,
        payloads.len() == pkgs.len(),
        forall|i: int|
            0 <= i < pkgs.len() ==> (#[trigger] pkgs[i]).current_symlink@
                == pkgs[0].current_symlink@ && plain_name(pkgs[i].version@) && layout_fits(
                disk,
                pkgs[i],
            ) && payload_fits(payloads[i], pkgs[i]),
    ensures
        follow(disk, pkgs, payloads) matches Some(end) && local_version_on(end, pkgs.last())
            == Some(pkgs.last().version@) && !end.files.dom().contains(pkgs[0].current_symlink@)
            && !end.dirs.contains(pkgs[0].current_symlink@),
    decreases pkgs.len(),
{
    let link = pkgs[0].current_symlink@;
    let last = pkgs.last();
    let earlier = pkgs.drop_last();
    let before = if earlier.len() == 0 {
        disk
    } else {
        assert forall|i: int| 0 <= i < earlier.len() implies (#[trigger] earlier[i]).current_symlink@
            == earlier[0].current_symlink@ && plain_name(earlier[i].version@) && layout_fits(
            disk,
            earlier[i],
        ) && payload_fits(payloads.drop_last()[i], earlier[i]) by {
            assert(earlier[i] == pkgs[i]);
            assert(earlier[0] == pkgs[0]);
        }
        law_updates_follow_remote(disk, earlier, payloads.drop_last());
        follow(disk, earlier, payloads.drop_last())->0
    };
    assert(follow(disk, earlier, payloads.drop_last()) == Some(before));
    assert(last == pkgs[pkgs.len() - 1]);
    assert(layout_fits(before, last));
    if local_version_on(before, last) != Some(last.version@) {
        law_update_reaches_remote(last, before, payloads.last());
    } else {
        law_current_store_untouched(last, before, payloads.last());
    }
}

/// In every plan the steps that install come before the steps that promote: the pointer
/// is touched only after the version directory is populated and the binary marked.
pub proof fn law_install_before_promote(pkg: PackageInfo, pointer: PointerView)
    ensures
        forall|i: int, j: int|
            0 <= i < j < update_steps(pkg, pointer).len() && stage_of(
                #[trigger] update_steps(pkg, pointer)[i],
            ) == Stage::Promote ==> stage_of(#[trigger] update_steps(pkg, pointer)[j])
                == Stage::Promote,
        update_steps(pkg, pointer).len() > 0 ==> stage_of(update_steps(pkg, pointer).last())
            == Stage::Promote && update_steps(pkg, pointer).last() == (Step::PointTo {
            target: version_dir_of(pkg),
            link: pkg.current_symlink@,
        }),
{
}

/// When the version on disk already is the one resolved, the plan is empty: nothing is
/// installed and nothing is promoted.
pub proof fn law_current_store_untouched(pkg: PackageInfo, disk: FileTree, payload: Payload)
    requires
        local_version_on(disk, pkg) == Some(pkg.version@),
    ensures
        update_steps(pkg, observe(disk, pkg.current_symlink@)).len() == 0,
        run(disk, update_steps(pkg, observe(disk, pkg.current_symlink@)), payload) == Some(disk),
{
}

/// Promoting the same installed version twice in a row never fails: the first promotion
/// makes it current, and the second leaves the disk, and so the current version, as the
/// first left it.
pub proof fn law_promote_idempotent(pkg: PackageInfo, disk: FileTree, payload: Payload)
    requires
        disk.dirs.contains(version_dir_of(pkg)),
        !disk.files.dom().contains(pkg.current_symlink@),
        !disk.dirs.contains(pkg.current_symlink@),
    ensures
        run(
            disk,
            promote_steps(pkg, observe(disk, pkg.current_symlink@) != PointerView::Absent),
            payload,
        ) matches Some(once) && run(
            once,
            promote_steps(pkg, observe(once, pkg.current_symlink@) != PointerView::Absent),
            payload,
        ) == Some(once) && local_version_on(once, pkg) == last_component(version_dir_of(pkg)),
{
    lemma_promote(disk, pkg, payload);
    let once = run(
        disk,
        promote_steps(pkg, observe(disk, pkg.current_symlink@) != PointerView::Absent),
        payload,
    )->0;
    lemma_promote(once, pkg, payload);
    let twice = run(
        once,
        promote_steps(pkg, observe(once, pkg.current_symlink@) != PointerView::Absent),
        payload,
    )->0;
    assert(twice.links =~= once.links);
}

} // verus!
