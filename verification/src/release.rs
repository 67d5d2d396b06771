//! Release resolution: from what the release source answered to the one package that
//! fits this host.

use vstd::prelude::*;
use crate::package::PackageInfo;
use crate::text::{chars_of, contains, contains_seq, lowercase_of, string_of, to_lowercase};

verus! {

/// One downloadable file of a release.
#[derive(Debug, Clone, PartialEq, Eq)]
pub struct Asset {
    pub name: String,
    pub browser_download_url: String,
}

/// The release manifest as the release source sends it.
#[derive(Debug, Clone, PartialEq, Eq)]
pub struct ReleaseInfo {
    pub tag_name: String,
    pub assets: Vec<Asset>,
    /// The binary the release source picked for this host, if it picked one.
    pub selected_binary: Option<String>,
}

/// How a request to the release source ended.
#[derive(Debug, Clone, PartialEq, Eq)]
pub enum FetchOutcome {
    /// The request did not reach the release source, or no answer came back.
    Unreachable,
    /// The release source answered with a status other than success.
    Rejected,
    /// The answer was not a release manifest.
    Malformed,
    /// The release source answered with a manifest.
    Release(ReleaseInfo),
}

/// Why no package was resolved.
#[derive(Clone, Copy, Debug, PartialEq, Eq, Structural)]
pub enum ResolveError {
    /// Network or parse failure: worth retrying later.
    Transport,
    /// The release source offers nothing for this host: retrying will not help.
    Unsupported,
}

/// The package resolved for this host.
#[derive(Debug, Clone, PartialEq, Eq)]
pub struct RemotePackage {
    pub version: String,
    pub download_url: String,
    pub package_name: String,
}

/// The part of a release tag before its first `-`; the whole tag if it has none.
pub open spec fn tag_stem(tag: Seq<char>) -> Seq<char> {
    match tag.index_of_first('-') {
        Some(i) => tag.take(i),
        None => tag,
    }
}

/// The version identifier a release tag stands for: its stem with every `v` removed.
pub open spec fn version_of_tag(tag: Seq<char>) -> Seq<char> {
    tag_stem(tag).filter(|c: char| c != 'v')
}

/// An asset name fits a host when, lower-cased, it mentions both the host's operating
/// system and its architecture.
pub open spec fn name_fits(lowered: Seq<char>, os: Seq<char>, arch: Seq<char>) -> bool {
    contains_seq(lowered, os) && contains_seq(lowered, arch)
}

/// Whether the asset called `name` fits the host `(os, arch)`.
pub open spec fn asset_fits(name: Seq<char>, os: Seq<char>, arch: Seq<char>) -> bool {
    name_fits(lowercase_of(name), os, arch)
}

/// Index of the first asset at or after `from` that fits the host.
pub open spec fn first_fit(assets: Seq<Asset>, os: Seq<char>, arch: Seq<char>, from: int) -> Option<
    int,
>
    decreases assets.len() - from + 1,
{
    if from < 0 || from >= assets.len() {
        None
    } else if asset_fits(assets[from].name@, os, arch) {
        Some(from)
    } else {
        first_fit(assets, os, arch, from + 1)
    }
}

/// What resolution yields for a host and an outcome: version, download URL and asset
/// name of the first fitting asset, or the reason there is none.
pub open spec fn resolution(os: Seq<char>, arch: Seq<char>, outcome: FetchOutcome) -> Result<
    (Seq<char>, Seq<char>, Seq<char>),
    ResolveError,
> {
    match outcome {
        FetchOutcome::Unreachable => Err(ResolveError::Transport),
        FetchOutcome::Malformed => Err(ResolveError::Transport),
        FetchOutcome::Rejected => Err(ResolveError::Unsupported),
        FetchOutcome::Release(release) => {
            if release.selected_binary is None {
                Err(ResolveError::Unsupported)
            } else {
                match first_fit(release.assets@, os, arch, 0) {
                    Some(i) => Ok(
                        (
                            version_of_tag(release.tag_name@),
                            release.assets@[i].browser_download_url@,
                            release.assets@[i].name@,
                        ),
                    ),
                    None => Err(ResolveError::Unsupported),
                }
            }
        },
    }
}

/// Resolution picks the first asset that fits: the asset picked fits, and none before it
/// does; when none is picked, no asset fits.
pub proof fn law_first_fit_is_least(assets: Seq<Asset>, os: Seq<char>, arch: Seq<char>, from: int)
    requires
        0 <= from,
    ensures
        match first_fit(assets, os, arch, from) {
            Some(i) => from <= i < assets.len() && asset_fits(assets[i].name@, os, arch)
                && forall|j: int| from <= j < i ==> !asset_fits(assets[j].name@, os, arch),
            None => forall|j: int|
                from <= j < assets.len() ==> !asset_fits(assets[j].name@, os, arch),
        },
    decreases assets.len() - from + 1,
{
    if from >= assets.len() {
    } else if asset_fits(assets[from].name@, os, arch) {
    } else {
        law_first_fit_is_least(assets, os, arch, from + 1);
    }
}

/// Whether an already lower-cased asset name mentions both `os` and `arch`.
pub fn names_host(lowered: &str, os: &str, arch: &str) -> (fits: bool)
    ensures
        fits == name_fits(lowered@, os@, arch@),
{
    contains(lowered, os) && contains(lowered, arch)
}

/// The version identifier that a release tag stands for.
pub fn version_from_tag(tag: &str) -> (version: String)
    ensures
        version@ == version_of_tag(tag@),
{
    let chars = chars_of(tag);
    let mut out: Vec<char> = Vec::new();
    let mut i: usize = 0;
    let ghost keep = |c: char| c != 'v';
    proof {
        assert(chars@.take(0).filter(keep) =~= Seq::<char>::empty()) by {
            reveal(Seq::filter);
        }
    }
    while i < chars.len() && chars[i] != '-'
        invariant
            i <= chars.len(),
            chars@ == tag@,
            keep == |c: char| c != 'v',
            forall|j: int| 0 <= j < i ==> chars@[j] != '-',
            out@ == chars@.take(i as int).filter(keep),
        decreases chars.len() - i,
    {
        let c = chars[i];
        proof {
            let before = chars@.take(i as int);
            let after = chars@.take(i as int + 1);
            assert(after.drop_last() =~= before);
            assert(after.last() == c);
            reveal(Seq::filter);
        }
        if c != 'v' {
            out.push(c);
        }
        i += 1;
    }
    proof {
        tag@.index_of_first_ensures('-');
        if i < chars.len() {
            assert(tag@[i as int] == '-');
            assert(tag@.index_of_first('-') == Some(i as int));
        } else {
            assert(chars@.take(i as int) =~= tag@);
        }
    }
    string_of(&out)
}

/// What a resolution failure tells the operator.
pub open spec fn error_text(error: ResolveError) -> Seq<char> {
    match error {
        ResolveError::Transport => "Could not reach the release source. Please try again later."@,
        ResolveError::Unsupported =>
            "This system isn't supported with the launcher. Please build from source."@,
    }
}

impl ResolveError {
    /// The operator-facing text of this failure.
    pub fn message(&self) -> (text: String)
        ensures
            text@ == error_text(*self),
    {
        match self {
            ResolveError::Transport => {
                "Could not reach the release source. Please try again later.".to_owned()
            },
            ResolveError::Unsupported => {
                "This system isn't supported with the launcher. Please build from source.".to_owned()
            },
        }
    }
}

/// An unsupported platform and an unreachable release source never read the same.
pub proof fn law_error_texts_differ()
    ensures
        error_text(ResolveError::Transport) != error_text(ResolveError::Unsupported),
{
    reveal_strlit("Could not reach the release source. Please try again later.");
    reveal_strlit("This system isn't supported with the launcher. Please build from source.");
    assert(error_text(ResolveError::Transport)[0] == 'C');
    assert(error_text(ResolveError::Unsupported)[0] == 'T');
}

impl PackageInfo {
    /// Picks the package for this host out of what the release source answered.
    ///
    /// A manifest resolves to its first asset that fits the host, provided the release
    /// source named a binary for it. Every other outcome is an error: `Transport` when the
    /// source was not reached or its answer was unreadable, `Unsupported` otherwise.
    pub fn resolve(&self, outcome: &FetchOutcome) -> (found: Result<RemotePackage, ResolveError>)
        ensures
            match resolution(self.os_name@, self.arch@, *outcome) {
                Ok(want) => found matches Ok(package) && package.version@ == want.0
                    && package.download_url@ == want.1 && package.package_name@ == want.2,
                Err(error) => found matches Err(got) && got == error,
            },
    {
        match outcome {
            FetchOutcome::Unreachable => Err(ResolveError::Transport),
            FetchOutcome::Malformed => Err(ResolveError::Transport),
            FetchOutcome::Rejected => Err(ResolveError::Unsupported),
            FetchOutcome::Release(release) => {
                let selected = match &release.selected_binary {
                    Some(name) => name,
                    None => {
                        return Err(ResolveError::Unsupported);
                    },
                };
                let mut i: usize = 0;
                while i < release.assets.len()
                    invariant
                        i <= release.assets.len(),
                        *outcome == FetchOutcome::Release(*release),
                        release.selected_binary is Some,
                        first_fit(release.assets@, self.os_name@, self.arch@, 0) == first_fit(
                            release.assets@,
                            self.os_name@,
                            self.arch@,
                            i as int,
                        ),
                    decreases release.assets.len() - i,
                {
                    let asset = &release.assets[i];
                    if self.is_compatible_asset(asset.name.as_str(), selected.as_str()) {
                        assert(first_fit(release.assets@, self.os_name@, self.arch@, i as int)
                            == Some(i as int));
                        return Ok(
                            RemotePackage {
                                version: version_from_tag(release.tag_name.as_str()),
                                download_url: asset.browser_download_url.clone(),
                                package_name: asset.name.clone(),
                            },
                        );
                    }
                    i += 1;
                }
                Err(ResolveError::Unsupported)
            },
        }
    }

    /// Resolves the package for this host and records it.
    ///
    /// On success `version`, `download_url` and `package_name` describe the resolved
    /// package; on failure nothing changes.
    pub fn fetch_latest(&mut self, outcome: &FetchOutcome) -> (done: Result<(), ResolveError>)
        ensures
            final(self).os_name == old(self).os_name,
            final(self).arch == old(self).arch,
            final(self).bin_name == old(self).bin_name,
            final(self).versions_dir == old(self).versions_dir,
            final(self).current_symlink == old(self).current_symlink,
            match resolution(old(self).os_name@, old(self).arch@, *outcome) {
                Ok(want) => done is Ok && final(self).version@ == want.0
                    && final(self).download_url@ == want.1
                    && final(self).package_name@ == want.2,
                Err(error) => done matches Err(got) && got == error && *final(self) == *old(self),
            },
    {
        match self.resolve(outcome) {
            Ok(package) => {
                self.version = package.version;
                self.download_url = package.download_url;
                self.package_name = package.package_name;
                Ok(())
            },
            Err(error) => Err(error),
        }
    }

    /// Whether the asset called `asset_name` fits this host. The release source's own
    /// pick plays no part in the answer.
    pub fn is_compatible_asset(&self, asset_name: &str, _selected_binary: &str) -> (fits: bool)
        ensures
            fits == asset_fits(asset_name@, self.os_name@, self.arch@),
    {
        let asset_lower = to_lowercase(asset_name);
        names_host(asset_lower.as_str(), self.os_name.as_str(), self.arch.as_str())
    }
}

} // verus!
