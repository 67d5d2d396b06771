//! The launcher's own command line: two flags of its own, everything else belongs to
//! the worker.

use vstd::prelude::*;
use crate::package::PackageInfo;
use crate::store::{local_version_of, Pointer};
use crate::text::{same_text, texts_of};

verus! {

/// What the operator asked of the launcher.
#[derive(Debug, Clone, PartialEq, Eq)]
pub struct LauncherConfig {
    /// Do not watch for updates in the background.
    pub disable_update_loop: bool,
    /// Do not check for an update at startup.
    pub no_update: bool,
    /// The arguments of the worker, in the order given.
    pub miner_args: Vec<String>,
}

/// How the launcher starts.
#[derive(Clone, Copy, Debug, PartialEq, Eq, Structural)]
pub enum Startup {
    /// Bring the store up to the latest release first.
    Update,
    /// Launch the version that is installed.
    UseInstalled,
}

/// Why the launcher cannot start.
#[derive(Clone, Copy, Debug, PartialEq, Eq, Structural)]
pub enum StartupError {
    /// No update is wanted, and no version is installed.
    NotInstalled,
}

/// Whether an argument is the flag that turns the background watcher off.
pub open spec fn is_watch_flag(arg: Seq<char>) -> bool {
    arg == "--disable-update-loop"@
}

/// Whether an argument is the flag that skips the update at startup.
pub open spec fn is_update_flag(arg: Seq<char>) -> bool {
    arg == "--no-update"@
}

/// The arguments that are not the launcher's own, in the order given.
pub open spec fn worker_args(args: Seq<Seq<char>>) -> Seq<Seq<char>> {
    args.filter(|arg: Seq<char>| !is_watch_flag(arg) && !is_update_flag(arg))
}

/// What a failure to start tells the operator.
pub open spec fn startup_error_text(error: StartupError) -> Seq<char> {
    match error {
        StartupError::NotInstalled =>
            "No current version installed. Please run without --no-update first."@,
    }
}

impl StartupError {
    /// The operator-facing text of this failure.
    pub fn message(&self) -> (text: String)
        ensures
            text@ == startup_error_text(*self),
    {
        match self {
            StartupError::NotInstalled => {
                "No current version installed. Please run without --no-update first.".to_owned()
            },
        }
    }
}

impl LauncherConfig {
    /// Reads the arguments given to the launcher, the program's own name left out. Each
    /// flag of the launcher may stand anywhere and any number of times; every other
    /// argument is passed on to the worker.
    pub fn from_args(args: &Vec<String>) -> (config: LauncherConfig)
        ensures
            config.disable_update_loop == exists|i: int|
                0 <= i < args@.len() && is_watch_flag(#[trigger] texts_of(args@)[i]),
            config.no_update == exists|i: int|
                0 <= i < args@.len() && is_update_flag(#[trigger] texts_of(args@)[i]),
            texts_of(config.miner_args@) == worker_args(texts_of(args@)),
    {
        let mut disable_update_loop = false;
        let mut no_update = false;
        let mut miner_args: Vec<String> = Vec::new();
        let ghost keep = |arg: Seq<char>| !is_watch_flag(arg) && !is_update_flag(arg);
        let mut i: usize = 0;
        assert(texts_of(args@).len() == args@.len());
        assert(texts_of(miner_args@) =~= texts_of(args@).take(0).filter(keep)) by {
            reveal(Seq::filter);
        }
        while i < args.len()
            invariant
                i <= args.len(),
                texts_of(args@).len() == args@.len(),
                keep == |arg: Seq<char>| !is_watch_flag(arg) && !is_update_flag(arg),
                disable_update_loop == exists|j: int|
                    0 <= j < i && is_watch_flag(#[trigger] texts_of(args@)[j]),
                no_update == exists|j: int|
                    0 <= j < i && is_update_flag(#[trigger] texts_of(args@)[j]),
                texts_of(miner_args@) == texts_of(args@).take(i as int).filter(keep),
            decreases args.len() - i,
        {
            let arg = &args[i];
            let ghost passed = texts_of(miner_args@);
            proof {
                let before = texts_of(args@).take(i as int);
                let after = texts_of(args@).take(i as int + 1);
                assert(after.drop_last() =~= before);
                assert(after.last() == arg@);
                assert(texts_of(args@)[i as int] == arg@);
                reveal(Seq::filter);
                reveal_strlit("--disable-update-loop");
                reveal_strlit("--no-update");
                assert("--disable-update-loop"@.len() != "--no-update"@.len());
            }
            if same_text(arg.as_str(), "--disable-update-loop") {
                disable_update_loop = true;
            } else if same_text(arg.as_str(), "--no-update") {
                no_update = true;
            } else {
                miner_args.push(arg.clone());
                assert(texts_of(miner_args@) =~= passed.push(arg@));
            }
            i += 1;
        }
        assert(texts_of(args@).take(args.len() as int) =~= texts_of(args@));
        LauncherConfig { disable_update_loop, no_update, miner_args }
    }

    /// How the launcher starts, given what stands at the current pointer. Without the
    /// flag that skips it, the store is updated first. With it, the installed version is
    /// launched, and there must be one.
    pub fn startup(&self, pkg: &PackageInfo, pointer: &Pointer) -> (start: Result<
        Startup,
        StartupError,
    >)
        ensures
            start == if !self.no_update {
                Ok::<Startup, StartupError>(Startup::Update)
            } else if local_version_of(pointer@) is Some {
                Ok(Startup::UseInstalled)
            } else {
                Err(StartupError::NotInstalled)
            },
    {
        if !self.no_update {
            Ok(Startup::Update)
        } else if pkg.get_local_version(pointer).is_some() {
            Ok(Startup::UseInstalled)
        } else {
            Err(StartupError::NotInstalled)
        }
    }
}

} // verus!
