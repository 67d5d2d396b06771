//! The host profile: what kind of machine this is, worked out from what the machine
//! reports and from what was read off it.

use vstd::prelude::*;
use crate::gpu::{all_devices, gpus_are, text_of, GpuInfo, GpuReadings};
use crate::package::{worker_binary, PackageInfo};
use crate::paths::{is_root, join_path, joined, names_root};
use crate::probe::data_dir_of;
use crate::text::{
    chars_of, contains, contains_seq, lowercase_of, same_text, starts_with, starts_with_seq,
    string_of, texts_of, to_lowercase, trim, trimmed,
};

verus! {

/// Why the host could not be described.
#[derive(Clone, Copy, Debug, PartialEq, Eq, Structural)]
pub enum HostError {
    /// The host does not tell its operating system's name.
    NoOsName,
    /// The host does not tell its processor architecture.
    NoCpuArch,
    /// The host reports no processor.
    NoCpu,
    /// No data directory can be found for the application.
    NoDataDir,
}

/// What the running program found out about its processor's features.
#[derive(Clone, Copy, Debug, PartialEq, Eq, Structural)]
pub enum CpuFlags {
    /// A 64-bit x86 processor, with whether each feature was detected.
    X86 { avx2: bool, aes: bool, sse4_2: bool, fma: bool, sha: bool },
    /// A 64-bit ARM processor.
    Arm,
    /// Any other processor.
    Other,
}

/// What the error tells the operator.
pub open spec fn host_error_text(error: HostError) -> Seq<char> {
    match error {
        HostError::NoOsName => "Failed to get OS name"@,
        HostError::NoCpuArch => "Failed to get CPU architecture"@,
        HostError::NoCpu => "No CPU information available"@,
        HostError::NoDataDir => "Could not determine application data directory"@,
    }
}

impl HostError {
    /// The operator-facing text of this failure.
    pub fn message(&self) -> (text: String)
        ensures
            text@ == host_error_text(*self),
    {
        match self {
            HostError::NoOsName => "Failed to get OS name".to_owned(),
            HostError::NoCpuArch => "Failed to get CPU architecture".to_owned(),
            HostError::NoCpu => "No CPU information available".to_owned(),
            HostError::NoDataDir => "Could not determine application data directory".to_owned(),
        }
    }
}

/// The operating system a lower-cased system name stands for: `macos` when it mentions
/// `darwin`, `linux` otherwise.
pub open spec fn os_label_of(lowered: Seq<char>) -> Seq<char> {
    if contains_seq(lowered, "darwin"@) {
        "macos"@
    } else {
        "linux"@
    }
}

/// The operating system a system name stands for.
pub open spec fn os_label(name: Seq<char>) -> Seq<char> {
    os_label_of(lowercase_of(name))
}

/// The architecture an architecture name stands for: `aarch64` for `aarch64` and `arm64`,
/// `x86_64` for every other name.
pub open spec fn arch_label(name: Seq<char>) -> Seq<char> {
    if name == "aarch64"@ || name == "arm64"@ {
        "aarch64"@
    } else {
        "x86_64"@
    }
}

/// Operating system and architecture of a host that reports `os` and `arch`. The
/// operating system's name is asked for first.
pub open spec fn device_info(os: Option<Seq<char>>, arch: Option<Seq<char>>) -> Result<
    (Seq<char>, Seq<char>),
    HostError,
> {
    match os {
        None => Err(HostError::NoOsName),
        Some(os_name) => match arch {
            None => Err(HostError::NoCpuArch),
            Some(arch_name) => Ok((os_label(os_name), arch_label(arch_name))),
        },
    }
}

/// The feature names for `flags`, in a fixed order.
pub open spec fn cpu_features_of(flags: CpuFlags) -> Seq<Seq<char>> {
    match flags {
        CpuFlags::X86 { avx2, aes, sse4_2, fma, sha } => {
            (if avx2 {
                seq!["avx2"@]
            } else {
                Seq::empty()
            }) + (if aes {
                seq!["aes"@]
            } else {
                Seq::empty()
            }) + (if sse4_2 {
                seq!["sse4_2"@]
            } else {
                Seq::empty()
            }) + (if fma {
                seq!["fma3"@]
            } else {
                Seq::empty()
            }) + (if sha {
                seq!["sha"@]
            } else {
                Seq::empty()
            })
        },
        CpuFlags::Arm => seq!["neon"@],
        CpuFlags::Other => Seq::empty(),
    }
}

/// Whether a lower-cased system vendor names a virtual machine monitor.
pub open spec fn vendor_is_virtual(lowered: Seq<char>) -> bool {
    contains_seq(lowered, "vmware"@) || contains_seq(lowered, "virtualbox"@) || contains_seq(
        lowered,
        "qemu"@,
    )
}

/// The system vendor as it is compared: without surrounding white space, lower-cased.
pub open spec fn vendor_key(sys_vendor: Seq<char>) -> Seq<char> {
    lowercase_of(trimmed(sys_vendor))
}

/// Whether the host is virtual: the processor description mentions a hypervisor, or the
/// host is a Docker container, or the system vendor is a virtual machine monitor.
pub open spec fn virtualized(
    cpuinfo: Option<Seq<char>>,
    dockerenv: bool,
    sys_vendor: Option<Seq<char>>,
) -> bool {
    ||| cpuinfo is Some && contains_seq(cpuinfo->0, "hypervisor"@)
    ||| dockerenv
    ||| sys_vendor is Some && vendor_is_virtual(vendor_key(sys_vendor->0))
}

/// The kind of virtualisation, given the vendor key: Docker first, then the vendor.
pub open spec fn virtualization_kind_of(dockerenv: bool, key: Option<Seq<char>>) -> Option<
    Seq<char>,
> {
    if dockerenv {
        Some("docker"@)
    } else if key is Some && contains_seq(key->0, "vmware"@) {
        Some("vmware"@)
    } else if key is Some && contains_seq(key->0, "virtualbox"@) {
        Some("virtualbox"@)
    } else if key is Some && contains_seq(key->0, "qemu"@) {
        Some("kvm"@)
    } else {
        None
    }
}

/// The kind of virtualisation of a host.
pub open spec fn virtualization_kind(dockerenv: bool, sys_vendor: Option<Seq<char>>) -> Option<
    Seq<char>,
> {
    virtualization_kind_of(
        dockerenv,
        match sys_vendor {
            Some(vendor) => Some(vendor_key(vendor)),
            None => None,
        },
    )
}

/// The container runtime: Docker, or Podman when the `container` variable says so.
pub open spec fn container_runtime_of(dockerenv: bool, container: Option<Seq<char>>) -> Option<
    Seq<char>,
> {
    if dockerenv {
        Some("docker"@)
    } else if container == Some("podman"@) {
        Some("podman"@)
    } else {
        None
    }
}

/// The storage kind that the mount table suggests.
pub open spec fn storage_kind(mounts: Option<Seq<char>>) -> Seq<char> {
    if mounts is Some && contains_seq(mounts->0, "nvme"@) {
        "nvme"@
    } else if mounts is Some && contains_seq(mounts->0, "ssd"@) {
        "ssd"@
    } else {
        "unknown"@
    }
}

/// Whether an interface name is that of a wired interface.
pub open spec fn is_wired(name: Seq<char>) -> bool {
    starts_with_seq(name, "eth"@) || starts_with_seq(name, "en"@)
}

/// Whether an interface name is that of a wireless interface.
pub open spec fn is_wireless(name: Seq<char>) -> bool {
    !is_wired(name) && (starts_with_seq(name, "wlan"@) || starts_with_seq(name, "wl"@))
}

/// The kinds of network interface among `names`, each once, in alphabetical order;
/// `unknown` alone when there is none.
pub open spec fn interface_kinds(names: Seq<Seq<char>>) -> Seq<Seq<char>> {
    let wired = exists|i: int| 0 <= i < names.len() && is_wired(#[trigger] names[i]);
    let wireless = exists|i: int| 0 <= i < names.len() && is_wireless(#[trigger] names[i]);
    if wired && wireless {
        seq!["ethernet"@, "wifi"@]
    } else if wired {
        seq!["ethernet"@]
    } else if wireless {
        seq!["wifi"@]
    } else {
        seq!["unknown"@]
    }
}

/// The worker threads for a host with `logical` processors: two fewer, and at least one.
pub open spec fn worker_threads(logical: u32) -> u32 {
    if logical > 3 {
        (logical - 2) as u32
    } else {
        1
    }
}

/// A count as a 32-bit number; a count that does not fit counts as the largest.
pub open spec fn count_u32(count: usize) -> u32 {
    if count > u32::MAX {
        u32::MAX
    } else {
        count as u32
    }
}

/// Bytes in whole mebibytes.
pub open spec fn mebibytes(bytes: u64) -> u64 {
    bytes / 1024 / 1024
}

/// What the host reports of one processor.
#[derive(Debug, Clone, PartialEq, Eq)]
pub struct CpuFacts {
    pub brand: String,
    pub vendor_id: String,
    /// Frequency in MHz.
    pub frequency: u64,
}

/// What the host reports of one disk.
#[derive(Debug, Clone, PartialEq, Eq)]
pub struct DiskFacts {
    pub mount_point: String,
    /// Free space in bytes.
    pub available: u64,
}

/// What the host reports about itself.
#[derive(Debug, Clone, PartialEq, Eq)]
pub struct HostFacts {
    pub os_name: Option<String>,
    pub arch: Option<String>,
    pub os_version: Option<String>,
    pub kernel_version: Option<String>,
    pub distribution: String,
    /// The processors, in the order the host lists them.
    pub cpus: Vec<CpuFacts>,
    pub physical_cores: Option<usize>,
    pub logical_cores: usize,
    /// Memory size in bytes.
    pub total_memory: u64,
    /// Memory available in bytes.
    pub available_memory: u64,
    /// Seconds since boot.
    pub uptime: u64,
    pub disks: Vec<DiskFacts>,
}

/// What was read off the host from files, commands and the environment.
#[derive(Debug, Clone, PartialEq, Eq)]
pub struct HostReadings {
    /// The processor description, if it could be read.
    pub cpuinfo: Option<String>,
    /// Whether the Docker marker file exists.
    pub dockerenv: bool,
    /// The system vendor, if it could be read.
    pub sys_vendor: Option<String>,
    /// The value of the `container` environment variable, if it is set.
    pub container: Option<String>,
    /// The mount table, if it could be read.
    pub mounts: Option<String>,
    /// The names of the network interfaces; empty if they could not be listed.
    pub interfaces: Vec<String>,
    /// The frequency governor's setting, if it could be read.
    pub governor: Option<String>,
    /// What was read about graphics devices; `None` on a host that cannot be asked.
    pub gpu: Option<GpuReadings>,
    /// The processor features that the running program detected.
    pub cpu_flags: CpuFlags,
    /// The launcher's own version.
    pub launcher_version: String,
}

/// The processor of a host profile.
#[derive(Debug, Clone, PartialEq, Eq)]
pub struct CpuInfo {
    pub model: String,
    pub vendor: String,
    pub cores_physical: u32,
    pub cores_logical: u32,
    pub base_frequency_mhz: Option<u64>,
    pub features: Vec<String>,
    pub architecture: Option<String>,
}

/// The host profile that is sent to the release source.
#[derive(Debug, Clone, PartialEq, Eq)]
pub struct SystemInfo {
    pub os_name: String,
    pub os_version: String,
    pub arch: String,
    pub kernel_version: Option<String>,
    pub distribution: Option<String>,
    pub cpu: CpuInfo,
    pub memory_total_mb: u64,
    pub memory_available_mb: u64,
    pub gpus: Vec<GpuInfo>,
    pub gpu_count: u32,
    pub max_threads: u32,
    pub is_virtualized: bool,
    pub virtualization_type: Option<String>,
    pub container_runtime: Option<String>,
    pub system_uptime_seconds: u64,
    pub cpu_governor: Option<String>,
    pub available_disk_space_mb: u64,
    pub storage_type: Option<String>,
    pub network_interfaces: Vec<String>,
    pub launcher_version: String,
}

/// Index of the first disk at or after `from` that is mounted at the root.
pub open spec fn root_disk(disks: Seq<DiskFacts>, from: int) -> Option<int>
    decreases disks.len() - from + 1,
{
    if from < 0 || from >= disks.len() {
        None
    } else if names_root(disks[from].mount_point@) {
        Some(from)
    } else {
        root_disk(disks, from + 1)
    }
}

/// The free space of all `disks` together, in bytes.
pub open spec fn total_available(disks: Seq<DiskFacts>) -> nat
    decreases disks.len(),
{
    if disks.len() == 0 {
        0
    } else {
        total_available(disks.drop_last()) + disks.last().available as nat
    }
}

/// The free disk space of the host in mebibytes: that of the first disk mounted at the
/// root or, without one, that of all disks together, where a total beyond 64 bits counts
/// as the largest 64-bit number.
pub open spec fn disk_space_mb(disks: Seq<DiskFacts>) -> u64 {
    match root_disk(disks, 0) {
        Some(i) => mebibytes(disks[i].available),
        None => if total_available(disks) > u64::MAX {
            mebibytes(u64::MAX)
        } else {
            mebibytes(total_available(disks) as u64)
        },
    }
}

/// Whether a host that reports `facts` can be described, and if not, why.
pub open spec fn describable(facts: HostFacts) -> Result<(), HostError> {
    match device_info(text_of(facts.os_name), text_of(facts.arch)) {
        Err(error) => Err(error),
        Ok(_) => if facts.cpus@.len() == 0 {
            Err(HostError::NoCpu)
        } else {
            Ok(())
        },
    }
}

/// Whether an optional string holds the optional text `want`.
pub open spec fn holds(got: Option<String>, want: Option<Seq<char>>) -> bool {
    text_of(got) == want
}

/// Whether `info` shows of the host what follows from `readings` alone.
pub open spec fn shows_readings(info: SystemInfo, readings: HostReadings) -> bool {
    &&& texts_of(info.cpu.features@) == cpu_features_of(readings.cpu_flags)
    &&& match readings.gpu {
        Some(read) => gpus_are(
            info.gpus@,
            all_devices(text_of(read.nvidia_smi), text_of(read.nvidia_driver), text_of(read.lspci)),
        ),
        None => info.gpus@.len() == 0,
    }
    &&& info.gpu_count == count_u32(info.gpus@.len() as usize)
    &&& info.is_virtualized == virtualized(
        text_of(readings.cpuinfo),
        readings.dockerenv,
        text_of(readings.sys_vendor),
    )
    &&& holds(
        info.virtualization_type,
        if info.is_virtualized {
            virtualization_kind(readings.dockerenv, text_of(readings.sys_vendor))
        } else {
            None
        },
    )
    &&& holds(
        info.container_runtime,
        container_runtime_of(readings.dockerenv, text_of(readings.container)),
    )
    &&& holds(
        info.cpu_governor,
        match readings.governor {
            Some(text) => Some(trimmed(text@)),
            None => None,
        },
    )
    &&& holds(info.storage_type, Some(storage_kind(text_of(readings.mounts))))
    &&& texts_of(info.network_interfaces@) == interface_kinds(texts_of(readings.interfaces@))
    &&& info.launcher_version@ == readings.launcher_version@
}

/// Whether `info` shows of the host what `facts` report: the processor shown is the first
/// that the host lists. `facts` must be describable.
pub open spec fn shows_facts(info: SystemInfo, facts: HostFacts) -> bool {
    &&& info.os_name@ == os_label(facts.os_name->0@)
    &&& info.arch@ == arch_label(facts.arch->0@)
    &&& info.os_version@ == match facts.os_version {
        Some(version) => version@,
        None => "Unknown"@,
    }
    &&& holds(info.kernel_version, text_of(facts.kernel_version))
    &&& holds(info.distribution, Some(facts.distribution@))
    &&& info.cpu.model@ == facts.cpus@[0].brand@
    &&& info.cpu.vendor@ == facts.cpus@[0].vendor_id@
    &&& info.cpu.cores_physical == match facts.physical_cores {
        Some(count) => count_u32(count),
        None => 0,
    }
    &&& info.cpu.cores_logical == count_u32(facts.logical_cores)
    &&& info.cpu.base_frequency_mhz == Some(facts.cpus@[0].frequency)
    &&& holds(info.cpu.architecture, Some(info.arch@))
    &&& info.memory_total_mb == mebibytes(facts.total_memory)
    &&& info.memory_available_mb == mebibytes(facts.available_memory)
    &&& info.max_threads == worker_threads(info.cpu.cores_logical)
    &&& info.system_uptime_seconds == facts.uptime
    &&& info.available_disk_space_mb == disk_space_mb(facts.disks@)
}

/// The operating system's label for a lower-cased system name.
pub fn label_os(lowered: &str) -> (label: String)
    ensures
        label@ == os_label_of(lowered@),
{
    if contains(lowered, "darwin") {
        "macos".to_owned()
    } else {
        "linux".to_owned()
    }
}

/// The architecture's label.
pub fn label_arch(name: &str) -> (label: String)
    ensures
        label@ == arch_label(name@),
{
    if same_text(name, "aarch64") || same_text(name, "arm64") {
        "aarch64".to_owned()
    } else {
        "x86_64".to_owned()
    }
}

/// Operating system and architecture of a host that reports `os` and `arch`.
pub fn classify_device(os: Option<&str>, arch: Option<&str>) -> (info: Result<
    (String, String),
    HostError,
>)
    ensures
        match device_info(
            match os {
                Some(text) => Some(text@),
                None => None,
            },
            match arch {
                Some(text) => Some(text@),
                None => None,
            },
        ) {
            Ok(want) => info matches Ok(got) && got.0@ == want.0 && got.1@ == want.1,
            Err(error) => info matches Err(got) && got == error,
        },
{
    let os_name = match os {
        Some(name) => name,
        None => {
            return Err(HostError::NoOsName);
        },
    };
    let arch_name = match arch {
        Some(name) => name,
        None => {
            return Err(HostError::NoCpuArch);
        },
    };
    let lowered = to_lowercase(os_name);
    Ok((label_os(lowered.as_str()), label_arch(arch_name)))
}

/// The system vendor as it is compared.
pub fn key_of_vendor(sys_vendor: &str) -> (key: String)
    ensures
        key@ == vendor_key(sys_vendor@),
{
    let bare = string_of(&trim(&chars_of(sys_vendor)));
    to_lowercase(bare.as_str())
}

/// The kind of virtualisation, given the vendor key.
pub fn kind_of_virtualization(dockerenv: bool, key: Option<&str>) -> (kind: Option<String>)
    ensures
        match virtualization_kind_of(
            dockerenv,
            match key {
                Some(text) => Some(text@),
                None => None,
            },
        ) {
            Some(want) => kind matches Some(got) && got@ == want,
            None => kind is None,
        },
{
    if dockerenv {
        return Some("docker".to_owned());
    }
    if let Some(vendor) = key {
        if contains(vendor, "vmware") {
            return Some("vmware".to_owned());
        } else if contains(vendor, "virtualbox") {
            return Some("virtualbox".to_owned());
        } else if contains(vendor, "qemu") {
            return Some("kvm".to_owned());
        }
    }
    None
}

/// A count as a 32-bit number.
pub fn clamp_count(count: usize) -> (clamped: u32)
    ensures
        clamped == count_u32(count),
{
    if count > u32::MAX as usize {
        u32::MAX
    } else {
        count as u32
    }
}

/// One more disk adds its free space to the total.
proof fn lemma_total_available_step(disks: Seq<DiskFacts>, upto: int)
    requires
        0 <= upto < disks.len(),
    ensures
        total_available(disks.take(upto + 1)) == total_available(disks.take(upto))
            + disks[upto].available,
{
    assert(disks.take(upto + 1).drop_last() =~= disks.take(upto));
}

/// Whether `pkg` is the record of a host `(os, arch)` with nothing resolved yet, laid out
/// under the data directory `base`.
pub open spec fn fresh_package(
    pkg: PackageInfo,
    os: Seq<char>,
    arch: Seq<char>,
    base: Seq<char>,
) -> bool {
    &&& pkg.os_name@ == os
    &&& pkg.arch@ == arch
    &&& pkg.version@.len() == 0
    &&& pkg.download_url@.len() == 0
    &&& pkg.package_name@.len() == 0
    &&& pkg.bin_name@ == worker_binary()
    &&& pkg.versions_dir@ == joined(base, "versions"@)
    &&& pkg.current_symlink@ == joined(base, "current"@)
}

/// Whether `os` and `arch` are labels that classification gives.
pub open spec fn known_labels(os: Seq<char>, arch: Seq<char>) -> bool {
    (os == "macos"@ || os == "linux"@) && (arch == "aarch64"@ || arch == "x86_64"@)
}

/// The names under which the application's directories are looked up.
pub open spec fn project_names_spec() -> (Seq<char>, Seq<char>, Seq<char>) {
    ("com"@, "swps"@, "nockpool-miner"@)
}

/// The names under which the application's directories are looked up: qualifier,
/// organisation and application.
pub fn project_names() -> (names: (&'static str, &'static str, &'static str))
    ensures
        (names.0@, names.1@, names.2@) == project_names_spec(),
{
    ("com", "swps", "nockpool-miner")
}

/// Whether a system vendor, as it is compared, names a virtual machine monitor.
pub fn is_virtual_vendor(key: &str) -> (found: bool)
    ensures
        found == vendor_is_virtual(key@),
{
    contains(key, "vmware") || contains(key, "virtualbox") || contains(key, "qemu")
}

impl PackageInfo {
    /// The record of a host with nothing resolved yet, laid out under `data_dir`.
    pub fn for_host(os_name: String, arch: String, data_dir: &str) -> (pkg: PackageInfo)
        ensures
            fresh_package(pkg, os_name@, arch@, data_dir@),
    {
        PackageInfo {
            os_name,
            arch,
            version: String::new(),
            download_url: String::new(),
            bin_name: "nockpool-miner".to_owned(),
            package_name: String::new(),
            versions_dir: join_path(data_dir, "versions"),
            current_symlink: join_path(data_dir, "current"),
        }
    }

    /// The record of a host that reports `os` and `arch` and whose data directory is
    /// `data_dir`. Without an operating system, an architecture or a data directory, in
    /// that order, there is no record.
    pub fn with_readings(os: Option<&str>, arch: Option<&str>, data_dir: Option<&str>) -> (made:
        Result<PackageInfo, HostError>)
        ensures
            match device_info(
                match os {
                    Some(text) => Some(text@),
                    None => None,
                },
                match arch {
                    Some(text) => Some(text@),
                    None => None,
                },
            ) {
                Err(error) => made matches Err(got) && got == error,
                Ok(labels) => match data_dir {
                    None => made matches Err(got) && got == HostError::NoDataDir,
                    Some(base) => made matches Ok(pkg) && fresh_package(
                        pkg,
                        labels.0,
                        labels.1,
                        base@,
                    ),
                },
            },
    {
        let (os_name, arch_name) = match classify_device(os, arch) {
            Ok(labels) => labels,
            Err(error) => {
                return Err(error);
            },
        };
        match data_dir {
            Some(base) => Ok(Self::for_host(os_name, arch_name, base)),
            None => Err(HostError::NoDataDir),
        }
    }

    /// Operating system and architecture of this host, as the host reports them. Whatever
    /// it reports, a success names a known operating system and a known architecture.
    pub fn get_device_info() -> (info: Result<(String, String), HostError>)
        ensures
            match info {
                Ok(labels) => known_labels(labels.0@, labels.1@),
                Err(error) => error == HostError::NoOsName || error == HostError::NoCpuArch,
            },
    {
        let os = sysinfo::System::name();
        let os_reading: Option<&str> = match &os {
            Some(text) => Some(text.as_str()),
            None => {
                return Err(HostError::NoOsName);
            },
        };
        let arch = sysinfo::System::cpu_arch();
        let arch_reading: Option<&str> = match &arch {
            Some(text) => Some(text.as_str()),
            None => None,
        };
        classify_device(os_reading, arch_reading)
    }

    /// The record of this host, as the host reports itself, with nothing resolved yet.
    /// The host is asked for its operating system and its architecture, and for the data
    /// directory that goes with the application's names; what it answers decides as
    /// `with_readings` says. Whatever the host answers, a record names a known operating
    /// system and a known architecture, holds no version, and is laid out under one data
    /// directory.
    pub fn new() -> (made: Result<PackageInfo, HostError>)
        ensures
            match made {
                Ok(pkg) => known_labels(pkg.os_name@, pkg.arch@) && exists|base: Seq<char>|
                    fresh_package(pkg, pkg.os_name@, pkg.arch@, base),
                Err(error) => error != HostError::NoCpu,
            },
    {
        let names = project_names();
        let os = sysinfo::System::name();
        let arch = sysinfo::System::cpu_arch();
        let data_dir = match directories::ProjectDirs::from(names.0, names.1, names.2) {
            Some(dirs) => Some(data_dir_of(&dirs)),
            None => None,
        };
        let os_reading: Option<&str> = match &os {
            Some(text) => Some(text.as_str()),
            None => None,
        };
        let arch_reading: Option<&str> = match &arch {
            Some(text) => Some(text.as_str()),
            None => None,
        };
        let dir_reading: Option<&str> = match &data_dir {
            Some(text) => Some(text.as_str()),
            None => None,
        };
        let made = Self::with_readings(os_reading, arch_reading, dir_reading);
        assert(made is Ok ==> fresh_package(
            made->Ok_0,
            made->Ok_0.os_name@,
            made->Ok_0.arch@,
            data_dir->0@,
        ));
        made
    }

    /// The free disk space of the host, in mebibytes.
    pub fn get_available_disk_space(disks: &Vec<DiskFacts>) -> (space: u64)
        ensures
            space == disk_space_mb(disks@),
    {
        let mut i: usize = 0;
        while i < disks.len()
            invariant
                i <= disks.len(),
                root_disk(disks@, 0) == root_disk(disks@, i as int),
            decreases disks.len() - i,
        {
            if is_root(disks[i].mount_point.as_str()) {
                return disks[i].available / 1024 / 1024;
            }
            i += 1;
        }
        let mut total: u64 = 0;
        let mut full = false;
        let mut k: usize = 0;
        while k < disks.len()
            invariant
                k <= disks.len(),
                full == (total_available(disks@.take(k as int)) > u64::MAX),
                !full ==> total == total_available(disks@.take(k as int)),
            decreases disks.len() - k,
        {
            proof {
                lemma_total_available_step(disks@, k as int);
            }
            if !full {
                match total.checked_add(disks[k].available) {
                    Some(sum) => {
                        total = sum;
                    },
                    None => {
                        full = true;
                    },
                }
            }
            k += 1;
        }
        assert(disks@.take(disks.len() as int) =~= disks@);
        if full {
            u64::MAX / 1024 / 1024
        } else {
            total / 1024 / 1024
        }
    }

    /// The host profile for what the host reports and what was read off it. Of the
    /// processors that the host lists, the first is the one shown. A host that does not
    /// tell its operating system, its architecture or a processor cannot be described.
    pub fn assemble_system_info(facts: HostFacts, readings: &HostReadings) -> (profile: Result<
        SystemInfo,
        HostError,
    >)
        ensures
            match describable(facts) {
                Ok(_) => profile matches Ok(info) && shows_facts(info, facts) && shows_readings(
                    info,
                    *readings,
                ),
                Err(error) => profile matches Err(got) && got == error,
            },
    {
        let os_reading: Option<&str> = match &facts.os_name {
            Some(text) => Some(text.as_str()),
            None => None,
        };
        let arch_reading: Option<&str> = match &facts.arch {
            Some(text) => Some(text.as_str()),
            None => None,
        };
        let (os_name, arch) = match classify_device(os_reading, arch_reading) {
            Ok(labels) => labels,
            Err(error) => {
                return Err(error);
            },
        };
        let physical_cores: u32 = match facts.physical_cores {
            Some(count) => clamp_count(count),
            None => 0,
        };
        let logical_cores = clamp_count(facts.logical_cores);
        if facts.cpus.len() == 0 {
            return Err(HostError::NoCpu);
        }
        let first_cpu = &facts.cpus[0];
        let cpu = CpuInfo {
            model: first_cpu.brand.clone(),
            vendor: first_cpu.vendor_id.clone(),
            cores_physical: physical_cores,
            cores_logical: logical_cores,
            base_frequency_mhz: Some(first_cpu.frequency),
            features: Self::get_cpu_features(&readings.cpu_flags),
            architecture: Some(arch.clone()),
        };
        let gpus = Self::collect_gpu_info(readings.gpu.as_ref());
        let gpu_count = clamp_count(gpus.len());
        let max_threads: u32 = if logical_cores > 3 {
            logical_cores - 2
        } else {
            1
        };
        let cpuinfo: Option<&str> = match &readings.cpuinfo {
            Some(text) => Some(text.as_str()),
            None => None,
        };
        let sys_vendor: Option<&str> = match &readings.sys_vendor {
            Some(text) => Some(text.as_str()),
            None => None,
        };
        let container: Option<&str> = match &readings.container {
            Some(text) => Some(text.as_str()),
            None => None,
        };
        let mounts: Option<&str> = match &readings.mounts {
            Some(text) => Some(text.as_str()),
            None => None,
        };
        let governor: Option<&str> = match &readings.governor {
            Some(text) => Some(text.as_str()),
            None => None,
        };
        let is_virtualized = Self::detect_virtualization(cpuinfo, readings.dockerenv, sys_vendor);
        let virtualization_type = if is_virtualized {
            Self::get_virtualization_type(readings.dockerenv, sys_vendor)
        } else {
            None
        };
        let os_version = match &facts.os_version {
            Some(version) => version.clone(),
            None => "Unknown".to_owned(),
        };
        let info = SystemInfo {
            os_name,
            os_version,
            arch,
            kernel_version: facts.kernel_version.clone(),
            distribution: Some(facts.distribution.clone()),
            cpu,
            memory_total_mb: facts.total_memory / 1024 / 1024,
            memory_available_mb: facts.available_memory / 1024 / 1024,
            gpus,
            gpu_count,
            max_threads,
            is_virtualized,
            virtualization_type,
            container_runtime: Self::detect_container_runtime(readings.dockerenv, container),
            system_uptime_seconds: facts.uptime,
            cpu_governor: Self::get_cpu_governor(governor),
            available_disk_space_mb: Self::get_available_disk_space(&facts.disks),
            storage_type: Self::detect_storage_type(mounts),
            network_interfaces: Self::get_network_interfaces(&readings.interfaces),
            launcher_version: readings.launcher_version.clone(),
        };
        Ok(info)
    }

    /// The names of the processor features that were detected.
    pub fn get_cpu_features(flags: &CpuFlags) -> (features: Vec<String>)
        ensures
            texts_of(features@) == cpu_features_of(*flags),
    {
        let mut features: Vec<String> = Vec::new();
        match flags {
            CpuFlags::X86 { avx2, aes, sse4_2, fma, sha } => {
                if *avx2 {
                    features.push("avx2".to_owned());
                }
                if *aes {
                    features.push("aes".to_owned());
                }
                if *sse4_2 {
                    features.push("sse4_2".to_owned());
                }
                if *fma {
                    features.push("fma3".to_owned());
                }
                if *sha {
                    features.push("sha".to_owned());
                }
            },
            CpuFlags::Arm => {
                features.push("neon".to_owned());
            },
            CpuFlags::Other => {},
        }
        assert(texts_of(features@) =~= cpu_features_of(*flags));
        features
    }

    /// Whether the host is virtual. `cpuinfo` is the processor description and
    /// `sys_vendor` the system vendor, each if it could be read; `dockerenv` says whether
    /// the Docker marker file exists.
    pub fn detect_virtualization(cpuinfo: Option<&str>, dockerenv: bool, sys_vendor: Option<&str>) -> (virtual_host:
        bool)
        ensures
            virtual_host == virtualized(
                match cpuinfo {
                    Some(text) => Some(text@),
                    None => None,
                },
                dockerenv,
                match sys_vendor {
                    Some(text) => Some(text@),
                    None => None,
                },
            ),
    {
        if let Some(text) = cpuinfo {
            if contains(text, "hypervisor") {
                return true;
            }
        }
        if dockerenv {
            return true;
        }
        if let Some(vendor) = sys_vendor {
            let key = key_of_vendor(vendor);
            if is_virtual_vendor(key.as_str()) {
                return true;
            }
        }
        false
    }

    /// The kind of virtualisation of the host, if it can be told.
    pub fn get_virtualization_type(dockerenv: bool, sys_vendor: Option<&str>) -> (kind: Option<
        String,
    >)
        ensures
            match virtualization_kind(
                dockerenv,
                match sys_vendor {
                    Some(text) => Some(text@),
                    None => None,
                },
            ) {
                Some(want) => kind matches Some(got) && got@ == want,
                None => kind is None,
            },
    {
        match sys_vendor {
            Some(vendor) => {
                let key = key_of_vendor(vendor);
                kind_of_virtualization(dockerenv, Some(key.as_str()))
            },
            None => kind_of_virtualization(dockerenv, None),
        }
    }

    /// The container runtime the host runs under, if any. `container` is the value of the
    /// `container` environment variable, if it is set.
    pub fn detect_container_runtime(dockerenv: bool, container: Option<&str>) -> (runtime: Option<
        String,
    >)
        ensures
            match container_runtime_of(
                dockerenv,
                match container {
                    Some(text) => Some(text@),
                    None => None,
                },
            ) {
                Some(want) => runtime matches Some(got) && got@ == want,
                None => runtime is None,
            },
    {
        if dockerenv {
            return Some("docker".to_owned());
        }
        if let Some(value) = container {
            if same_text(value, "podman") {
                return Some("podman".to_owned());
            }
        }
        None
    }

    /// The storage kind that the mount table suggests. `mounts` is the mount table, if it
    /// could be read.
    pub fn detect_storage_type(mounts: Option<&str>) -> (kind: Option<String>)
        ensures
            kind matches Some(got) && got@ == storage_kind(
                match mounts {
                    Some(text) => Some(text@),
                    None => None,
                },
            ),
    {
        if let Some(text) = mounts {
            if contains(text, "nvme") {
                return Some("nvme".to_owned());
            } else if contains(text, "ssd") {
                return Some("ssd".to_owned());
            }
        }
        Some("unknown".to_owned())
    }

    /// The kinds of network interface the host has. `names` are the names of its
    /// interfaces; a host whose interfaces could not be listed has none.
    pub fn get_network_interfaces(names: &Vec<String>) -> (kinds: Vec<String>)
        ensures
            texts_of(kinds@) == interface_kinds(texts_of(names@)),
    {
        let eth = chars_of("eth");
        let en = chars_of("en");
        let wlan = chars_of("wlan");
        let wl = chars_of("wl");
        let mut wired = false;
        let mut wireless = false;
        let mut i: usize = 0;
        while i < names.len()
            invariant
                i <= names.len(),
                eth@ == "eth"@,
                en@ == "en"@,
                wlan@ == "wlan"@,
                wl@ == "wl"@,
                wired == exists|j: int| 0 <= j < i && is_wired(#[trigger] texts_of(names@)[j]),
                wireless == exists|j: int|
                    0 <= j < i && is_wireless(#[trigger] texts_of(names@)[j]),
            decreases names.len() - i,
        {
            let name = chars_of(names[i].as_str());
            assert(texts_of(names@)[i as int] == name@);
            if starts_with(&name, &eth) || starts_with(&name, &en) {
                wired = true;
            } else if starts_with(&name, &wlan) || starts_with(&name, &wl) {
                wireless = true;
            }
            i += 1;
        }
        assert(texts_of(names@).len() == names.len());
        let mut kinds: Vec<String> = Vec::new();
        if wired {
            kinds.push("ethernet".to_owned());
        }
        if wireless {
            kinds.push("wifi".to_owned());
        }
        if kinds.len() == 0 {
            kinds.push("unknown".to_owned());
        }
        assert(texts_of(kinds@) =~= interface_kinds(texts_of(names@)));
        kinds
    }

    /// The processor's frequency governor, if its setting could be read: the setting
    /// without surrounding white space.
    pub fn get_cpu_governor(setting: Option<&str>) -> (governor: Option<String>)
        ensures
            match setting {
                Some(text) => governor matches Some(got) && got@ == trimmed(text@),
                None => governor is None,
            },
    {
        match setting {
            Some(text) => Some(string_of(&trim(&chars_of(text)))),
            None => None,
        }
    }
}

} // verus!
