use miner_launcher::host::{
    clamp_count, classify_device, is_virtual_vendor, key_of_vendor, kind_of_virtualization,
    label_arch, label_os, project_names, CpuFacts, CpuFlags, DiskFacts, HostError, HostFacts,
    HostReadings,
};
use miner_launcher::package::PackageInfo;

fn disk(mount_point: &str, available: u64) -> DiskFacts {
    DiskFacts { mount_point: mount_point.to_string(), available }
}

fn names(list: &[&str]) -> Vec<String> {
    list.iter().map(|name| name.to_string()).collect()
}

fn readings() -> HostReadings {
    HostReadings {
        cpuinfo: Some("flags : fpu vme hypervisor\n".to_string()),
        dockerenv: false,
        sys_vendor: Some(" QEMU \n".to_string()),
        container: Some("podman".to_string()),
        mounts: Some("/dev/nvme0n1p2 / ext4 rw 0 0\n".to_string()),
        interfaces: names(&["lo", "wlp3s0", "enp4s0"]),
        governor: Some("performance\n".to_string()),
        gpu: None,
        cpu_flags: CpuFlags::X86 { avx2: true, aes: true, sse4_2: false, fma: true, sha: false },
        launcher_version: "0.1.0".to_string(),
    }
}

fn facts() -> HostFacts {
    HostFacts {
        os_name: Some("Darwin".to_string()),
        arch: Some("arm64".to_string()),
        os_version: None,
        kernel_version: Some("23.1.0".to_string()),
        distribution: "macos".to_string(),
        cpus: vec![
            CpuFacts { brand: "Apple M2".to_string(), vendor_id: "Apple".to_string(), frequency: 3504 },
            CpuFacts { brand: "Apple M2 E".to_string(), vendor_id: "Apple E".to_string(), frequency: 2420 },
        ],
        physical_cores: Some(8),
        logical_cores: 8,
        total_memory: 17_179_869_184,
        available_memory: 3_221_225_471,
        uptime: 86_400,
        disks: vec![disk("/boot", 1_048_576), disk("/", 10_485_760_000), disk("/", 5)],
    }
}

#[test]
fn labels() {
    assert_eq!(label_os("darwin"), "macos");
    assert_eq!(label_os("my darwin kernel"), "macos");
    assert_eq!(label_os("Darwin"), "linux");
    assert_eq!(label_os("ubuntu"), "linux");
    assert_eq!(label_os(""), "linux");
    assert_eq!(label_arch("aarch64"), "aarch64");
    assert_eq!(label_arch("arm64"), "aarch64");
    assert_eq!(label_arch("x86_64"), "x86_64");
    assert_eq!(label_arch("riscv64"), "x86_64");
    assert_eq!(label_arch("ARM64"), "x86_64");
}

#[test]
fn device_classification() {
    assert_eq!(classify_device(Some("Darwin"), Some("arm64")), Ok(("macos".to_string(), "aarch64".to_string())));
    assert_eq!(classify_device(Some("Ubuntu"), Some("x86_64")), Ok(("linux".to_string(), "x86_64".to_string())));
    assert_eq!(classify_device(None, Some("x86_64")), Err(HostError::NoOsName));
    assert_eq!(classify_device(None, None), Err(HostError::NoOsName));
    assert_eq!(classify_device(Some("Ubuntu"), None), Err(HostError::NoCpuArch));
}

#[test]
fn host_error_messages() {
    assert_eq!(HostError::NoOsName.message(), "Failed to get OS name");
    assert_eq!(HostError::NoCpuArch.message(), "Failed to get CPU architecture");
    assert_eq!(HostError::NoCpu.message(), "No CPU information available");
    assert_eq!(HostError::NoDataDir.message(), "Could not determine application data directory");
}

#[test]
fn cpu_features_in_order() {
    let all = CpuFlags::X86 { avx2: true, aes: true, sse4_2: true, fma: true, sha: true };
    assert_eq!(PackageInfo::get_cpu_features(&all), names(&["avx2", "aes", "sse4_2", "fma3", "sha"]));
    let some = CpuFlags::X86 { avx2: false, aes: true, sse4_2: false, fma: false, sha: true };
    assert_eq!(PackageInfo::get_cpu_features(&some), names(&["aes", "sha"]));
    let none = CpuFlags::X86 { avx2: false, aes: false, sse4_2: false, fma: false, sha: false };
    assert!(PackageInfo::get_cpu_features(&none).is_empty());
    assert_eq!(PackageInfo::get_cpu_features(&CpuFlags::Arm), names(&["neon"]));
    assert!(PackageInfo::get_cpu_features(&CpuFlags::Other).is_empty());
}

#[test]
fn virtualization() {
    assert!(PackageInfo::detect_virtualization(Some("flags: hypervisor"), false, None));
    assert!(PackageInfo::detect_virtualization(None, true, None));
    assert!(PackageInfo::detect_virtualization(None, false, Some("  VMware, Inc.\n")));
    assert!(PackageInfo::detect_virtualization(None, false, Some("innotek VirtualBox")));
    assert!(PackageInfo::detect_virtualization(Some("flags: fpu"), false, Some("QEMU")));
    assert!(!PackageInfo::detect_virtualization(Some("flags: fpu"), false, Some("Dell Inc.")));
    assert!(!PackageInfo::detect_virtualization(None, false, None));
    assert!(!PackageInfo::detect_virtualization(Some("HYPERVISOR"), false, None));
}

#[test]
fn virtualization_kinds() {
    assert_eq!(PackageInfo::get_virtualization_type(true, Some("VMware")), Some("docker".to_string()));
    assert_eq!(PackageInfo::get_virtualization_type(false, Some(" VMware, Inc. ")), Some("vmware".to_string()));
    assert_eq!(PackageInfo::get_virtualization_type(false, Some("VirtualBox")), Some("virtualbox".to_string()));
    assert_eq!(PackageInfo::get_virtualization_type(false, Some("QEMU")), Some("kvm".to_string()));
    assert_eq!(PackageInfo::get_virtualization_type(false, Some("vmware qemu")), Some("vmware".to_string()));
    assert_eq!(PackageInfo::get_virtualization_type(false, Some("Dell")), None);
    assert_eq!(PackageInfo::get_virtualization_type(false, None), None);
    assert_eq!(key_of_vendor("  VMware, Inc.\n"), "vmware, inc.");
    assert_eq!(kind_of_virtualization(false, Some("QEMU")), None);
    assert_eq!(kind_of_virtualization(false, Some("qemu")), Some("kvm".to_string()));
    assert!(is_virtual_vendor("vmware, inc."));
    assert!(is_virtual_vendor("innotek virtualbox"));
    assert!(is_virtual_vendor("qemu"));
    assert!(!is_virtual_vendor("QEMU"));
    assert!(!is_virtual_vendor("dell inc."));
    assert!(!is_virtual_vendor(""));
}

#[test]
fn container_runtimes() {
    assert_eq!(PackageInfo::detect_container_runtime(true, Some("podman")), Some("docker".to_string()));
    assert_eq!(PackageInfo::detect_container_runtime(false, Some("podman")), Some("podman".to_string()));
    assert_eq!(PackageInfo::detect_container_runtime(false, Some("Podman")), None);
    assert_eq!(PackageInfo::detect_container_runtime(false, Some("lxc")), None);
    assert_eq!(PackageInfo::detect_container_runtime(false, None), None);
}

#[test]
fn storage_kinds() {
    assert_eq!(PackageInfo::detect_storage_type(Some("/dev/nvme0n1 / ext4")), Some("nvme".to_string()));
    assert_eq!(PackageInfo::detect_storage_type(Some("/dev/ssd0 / ext4")), Some("ssd".to_string()));
    assert_eq!(PackageInfo::detect_storage_type(Some("ssd and nvme")), Some("nvme".to_string()));
    assert_eq!(PackageInfo::detect_storage_type(Some("/dev/sda1 / ext4")), Some("unknown".to_string()));
    assert_eq!(PackageInfo::detect_storage_type(None), Some("unknown".to_string()));
}

#[test]
fn network_interface_kinds() {
    assert_eq!(PackageInfo::get_network_interfaces(&names(&["wlan0", "eth0", "eth1", "lo"])), names(&["ethernet", "wifi"]));
    assert_eq!(PackageInfo::get_network_interfaces(&names(&["enp3s0"])), names(&["ethernet"]));
    assert_eq!(PackageInfo::get_network_interfaces(&names(&["wlp2s0", "wl"])), names(&["wifi"]));
    assert_eq!(PackageInfo::get_network_interfaces(&names(&["lo", "docker0", "e", "w"])), names(&["unknown"]));
    assert_eq!(PackageInfo::get_network_interfaces(&Vec::new()), names(&["unknown"]));
}

#[test]
fn governor_is_trimmed() {
    assert_eq!(PackageInfo::get_cpu_governor(Some("powersave\n")), Some("powersave".to_string()));
    assert_eq!(PackageInfo::get_cpu_governor(Some("")), Some(String::new()));
    assert_eq!(PackageInfo::get_cpu_governor(None), None);
}

#[test]
fn disk_space() {
    let with_root = vec![disk("/boot", 1 << 40), disk("/", 10_485_760_000), disk("/", 5)];
    assert_eq!(PackageInfo::get_available_disk_space(&with_root), 10_000);
    let without = vec![disk("/a", 1_048_576), disk("/b", 1_048_575), disk("/c", 1)];
    assert_eq!(PackageInfo::get_available_disk_space(&without), 2);
    assert_eq!(PackageInfo::get_available_disk_space(&Vec::new()), 0);
    let dotted = vec![disk("/a", 1 << 30), disk("//.", 3_145_728), disk("/", 0)];
    assert_eq!(PackageInfo::get_available_disk_space(&dotted), 3);
    let beyond = vec![disk("/a", u64::MAX), disk("/b", 1)];
    assert_eq!(PackageInfo::get_available_disk_space(&beyond), u64::MAX / 1024 / 1024);
    assert_eq!(PackageInfo::get_available_disk_space(&vec![disk("/a", u64::MAX)]), 17_592_186_044_415);
}

#[test]
fn counts() {
    assert_eq!(clamp_count(0), 0);
    assert_eq!(clamp_count(4_294_967_295), u32::MAX);
    assert_eq!(clamp_count(usize::MAX), u32::MAX);
}

#[test]
fn profile_from_facts_and_readings() {
    let info = PackageInfo::assemble_system_info(facts(), &readings()).ok().unwrap();
    assert_eq!(info.os_name, "macos");
    assert_eq!(info.arch, "aarch64");
    assert_eq!(info.os_version, "Unknown");
    assert_eq!(info.kernel_version, Some("23.1.0".to_string()));
    assert_eq!(info.distribution, Some("macos".to_string()));
    assert_eq!(info.cpu.model, "Apple M2");
    assert_eq!(info.cpu.vendor, "Apple");
    assert_eq!(info.cpu.cores_physical, 8);
    assert_eq!(info.cpu.cores_logical, 8);
    assert_eq!(info.cpu.base_frequency_mhz, Some(3504));
    assert_eq!(info.cpu.features, names(&["avx2", "aes", "fma3"]));
    assert_eq!(info.cpu.architecture, Some("aarch64".to_string()));
    assert_eq!(info.memory_total_mb, 16_384);
    assert_eq!(info.memory_available_mb, 3_071);
    assert!(info.gpus.is_empty());
    assert_eq!(info.gpu_count, 0);
    assert_eq!(info.max_threads, 6);
    assert!(info.is_virtualized);
    assert_eq!(info.virtualization_type, Some("kvm".to_string()));
    assert_eq!(info.container_runtime, Some("podman".to_string()));
    assert_eq!(info.system_uptime_seconds, 86_400);
    assert_eq!(info.cpu_governor, Some("performance".to_string()));
    assert_eq!(info.available_disk_space_mb, 10_000);
    assert_eq!(info.storage_type, Some("nvme".to_string()));
    assert_eq!(info.network_interfaces, names(&["ethernet", "wifi"]));
    assert_eq!(info.launcher_version, "0.1.0");
}

#[test]
fn worker_threads_leave_two_processors() {
    for (logical, threads) in [(0usize, 1u32), (1, 1), (2, 1), (3, 1), (4, 2), (16, 14)] {
        let mut host = facts();
        host.logical_cores = logical;
        let info = PackageInfo::assemble_system_info(host, &readings()).ok().unwrap();
        assert_eq!(info.max_threads, threads, "{} processors", logical);
    }
}

#[test]
fn physical_host_has_no_virtualization_kind() {
    let mut read = readings();
    read.cpuinfo = None;
    read.sys_vendor = Some("Dell Inc.".to_string());
    let info = PackageInfo::assemble_system_info(facts(), &read).ok().unwrap();
    assert!(!info.is_virtualized);
    assert_eq!(info.virtualization_type, None);
}

#[test]
fn hosts_that_cannot_be_described() {
    let mut no_os = facts();
    no_os.os_name = None;
    no_os.cpus = Vec::new();
    assert_eq!(PackageInfo::assemble_system_info(no_os, &readings()).err(), Some(HostError::NoOsName));
    let mut no_arch = facts();
    no_arch.arch = None;
    assert_eq!(PackageInfo::assemble_system_info(no_arch, &readings()).err(), Some(HostError::NoCpuArch));
    let mut no_cpu = facts();
    no_cpu.cpus = Vec::new();
    assert_eq!(PackageInfo::assemble_system_info(no_cpu, &readings()).err(), Some(HostError::NoCpu));
}

#[test]
fn records() {
    let pkg = PackageInfo::for_host("linux".to_string(), "x86_64".to_string(), "/home/u/.local/share/nockpool-miner");
    assert_eq!(pkg.os_name, "linux");
    assert_eq!(pkg.arch, "x86_64");
    assert_eq!(pkg.version, "");
    assert_eq!(pkg.download_url, "");
    assert_eq!(pkg.package_name, "");
    assert_eq!(pkg.bin_name, "nockpool-miner");
    assert_eq!(pkg.versions_dir, "/home/u/.local/share/nockpool-miner/versions");
    assert_eq!(pkg.current_symlink, "/home/u/.local/share/nockpool-miner/current");
    let made = PackageInfo::with_readings(Some("Darwin"), Some("arm64"), Some("/d/")).ok().unwrap();
    assert_eq!(made.os_name, "macos");
    assert_eq!(made.arch, "aarch64");
    assert_eq!(made.versions_dir, "/d/versions");
    assert_eq!(made.current_symlink, "/d/current");
    assert_eq!(PackageInfo::with_readings(None, None, None).err(), Some(HostError::NoOsName));
    assert_eq!(PackageInfo::with_readings(Some("x"), None, None).err(), Some(HostError::NoCpuArch));
    assert_eq!(PackageInfo::with_readings(Some("x"), Some("y"), None).err(), Some(HostError::NoDataDir));
}

#[test]
fn this_host_reports_itself() {
    match PackageInfo::get_device_info() {
        Ok((os, arch)) => {
            let name = sysinfo::System::name().unwrap();
            let reported = sysinfo::System::cpu_arch().unwrap();
            assert_eq!(os, if name.to_lowercase().contains("darwin") { "macos" } else { "linux" });
            assert_eq!(arch, if reported == "aarch64" || reported == "arm64" { "aarch64" } else { "x86_64" });
        }
        Err(error) => {
            assert!(error == HostError::NoOsName || error == HostError::NoCpuArch);
            assert!(sysinfo::System::name().is_none() || sysinfo::System::cpu_arch().is_none());
        }
    }
}

fn this_host() -> HostFacts {
    let mut system = sysinfo::System::new_all();
    system.refresh_all();
    let disks = sysinfo::Disks::new_with_refreshed_list();
    HostFacts {
        os_name: sysinfo::System::name(),
        arch: sysinfo::System::cpu_arch(),
        os_version: sysinfo::System::long_os_version(),
        kernel_version: sysinfo::System::kernel_version(),
        distribution: sysinfo::System::distribution_id(),
        cpus: system
            .cpus()
            .iter()
            .map(|cpu| CpuFacts {
                brand: cpu.brand().to_string(),
                vendor_id: cpu.vendor_id().to_string(),
                frequency: cpu.frequency(),
            })
            .collect(),
        physical_cores: system.physical_core_count(),
        logical_cores: num_cpus::get(),
        total_memory: system.total_memory(),
        available_memory: system.available_memory(),
        uptime: sysinfo::System::uptime(),
        disks: disks
            .list()
            .iter()
            .map(|disk| DiskFacts {
                mount_point: disk.mount_point().to_string_lossy().into_owned(),
                available: disk.available_space(),
            })
            .collect(),
    }
}

#[test]
fn this_host_has_a_profile_or_says_why_not() {
    let read = readings();
    let host = this_host();
    match PackageInfo::assemble_system_info(host.clone(), &read) {
        Ok(info) => {
            assert!(info.os_name == "macos" || info.os_name == "linux");
            assert!(info.max_threads >= 1);
            assert_eq!(info.cpu.cores_logical as usize, num_cpus::get());
            assert_eq!(info.cpu.model, host.cpus[0].brand);
            assert_eq!(info.memory_total_mb, host.total_memory / 1024 / 1024);
            assert!(info.memory_available_mb <= info.memory_total_mb);
            assert_eq!(info.cpu.features, names(&["avx2", "aes", "fma3"]));
            assert_eq!(info.network_interfaces, names(&["ethernet", "wifi"]));
            assert_eq!(info.launcher_version, "0.1.0");
            assert!(info.is_virtualized);
        }
        Err(error) => {
            assert_ne!(error, HostError::NoDataDir);
            assert!(host.os_name.is_none() || host.arch.is_none() || host.cpus.is_empty());
        }
    }
}

#[test]
fn the_first_processor_is_the_one_shown() {
    let info = PackageInfo::assemble_system_info(facts(), &readings()).ok().unwrap();
    assert_eq!(info.cpu.model, "Apple M2");
    assert_eq!(info.cpu.vendor, "Apple");
    assert_eq!(info.cpu.base_frequency_mhz, Some(3504));
    let mut turned = facts();
    turned.cpus.reverse();
    let other = PackageInfo::assemble_system_info(turned, &readings()).ok().unwrap();
    assert_eq!(other.cpu.model, "Apple M2 E");
    assert_eq!(other.cpu.vendor, "Apple E");
    assert_eq!(other.cpu.base_frequency_mhz, Some(2420));
}

#[test]
fn application_names() {
    assert_eq!(project_names(), ("com", "swps", "nockpool-miner"));
}

#[test]
fn this_host_has_a_record_or_says_why_not() {
    match PackageInfo::new() {
        Ok(pkg) => {
            assert_eq!(pkg.bin_name, "nockpool-miner");
            assert_eq!(pkg.version, "");
            assert!(pkg.versions_dir.ends_with("versions"));
            assert!(pkg.current_symlink.ends_with("current"));
            let base = directories::ProjectDirs::from("com", "swps", "nockpool-miner").unwrap();
            assert_eq!(pkg.versions_dir, base.data_dir().join("versions").to_str().unwrap());
        }
        Err(error) => {
            assert_ne!(error, HostError::NoCpu);
            let names = project_names();
            assert!(
                sysinfo::System::name().is_none()
                    || sysinfo::System::cpu_arch().is_none()
                    || directories::ProjectDirs::from(names.0, names.1, names.2).is_none()
            );
        }
    }
}
