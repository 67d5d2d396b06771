//! What the host is asked directly. Nothing is known of the answers in advance: each is
//! whatever the machine says at the time of the call.

use vstd::prelude::*;

verus! {

/// `directories::ProjectDirs`: the directories of a project. Nothing is known of what it
/// holds.
#[verifier::external_type_specification]
#[verifier::external_body]
pub struct ExProjectDirs(directories::ProjectDirs);

/// `System::name` gives the operating system's name, if the host tells it. Nothing is
/// claimed of the name.
pub assume_specification[ sysinfo::System::name ]() -> (name: Option<String>);

/// `System::cpu_arch` gives the processor architecture, if the host tells it. Nothing is
/// claimed of it.
pub assume_specification[ sysinfo::System::cpu_arch ]() -> (arch: Option<String>);

/// `ProjectDirs::from` gives the directories of a project, if a home directory can be
/// found for the user. Nothing is claimed of them.
pub assume_specification[ directories::ProjectDirs::from ](
    qualifier: &str,
    organization: &str,
    application: &str,
) -> (dirs: Option<directories::ProjectDirs>);

/// The project's data directory, as text.
///
/// Trusted: `ProjectDirs::data_dir` gives the path of the project's data directory.
/// Nothing is claimed of it. A path that is not valid UTF-8 is given with the invalid
/// parts replaced.
#[verifier::external_body]
pub(crate) fn data_dir_of(dirs: &directories::ProjectDirs) -> (path: String) {
    dirs.data_dir().to_string_lossy().into_owned()
}

} // verus!
