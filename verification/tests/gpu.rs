use miner_launcher::gpu::{detect_pci_gpus, read_nvidia_row, read_pci_row, GpuInfo, GpuReadings, PciVendor};
use miner_launcher::package::PackageInfo;

fn cs(s: &str) -> Vec<char> {
    s.chars().collect()
}

fn facts(gpu: &GpuInfo) -> (String, String, u64, Option<String>) {
    (gpu.vendor.clone(), gpu.model.clone(), gpu.vram_mb, gpu.driver_version.clone())
}

fn gpu(vendor: &str, model: &str, vram_mb: u64, driver: Option<&str>) -> (String, String, u64, Option<String>) {
    (vendor.to_string(), model.to_string(), vram_mb, driver.map(|text| text.to_string()))
}

const LSPCI: &str = "00:02.0 VGA compatible controller [0300]: Intel Corporation UHD Graphics 630 [8086:3e92]\n\
01:00.0 VGA compatible controller [0300]: Advanced Micro Devices, Inc. [AMD/ATI] Navi 21 [1002:73bf]\n\
02:00.0 Ethernet controller [0200]: Intel Corporation I211 [8086:1539]\n\
03:00.0 Display controller: AMD thing: extra\n\
04:00.0 3D controller [0302] ATI no colon space\n";

#[test]
fn nvidia_rows() {
    let row = read_nvidia_row(&cs("NVIDIA GeForce RTX 3090, 24576, 535.104.05")).unwrap();
    assert_eq!(facts(&row), gpu("nvidia", "NVIDIA GeForce RTX 3090", 24576, Some("535.104.05")));
    let spaced = read_nvidia_row(&cs("  Tesla T4 ,  15360 , 470.57 , extra")).unwrap();
    assert_eq!(facts(&spaced), gpu("nvidia", "Tesla T4", 15360, Some("470.57")));
    let odd = read_nvidia_row(&cs("A100, [N/A], 1")).unwrap();
    assert_eq!(facts(&odd), gpu("nvidia", "A100", 0, Some("1")));
    let huge = read_nvidia_row(&cs("A100, 99999999999999999999999, 1")).unwrap();
    assert_eq!(huge.vram_mb, 0);
    assert!(read_nvidia_row(&cs("A100, 40960")).is_none());
    assert!(read_nvidia_row(&cs("A100,40960,1")).is_none());
    assert!(read_nvidia_row(&cs("")).is_none());
}

#[test]
fn nvidia_listing() {
    let listing = "NVIDIA A100, 40960, 535.1\r\nbroken line\n\nNVIDIA T4, 15360, 470.2\n";
    let gpus = PackageInfo::detect_nvidia_gpus(Some(listing), Some("NVIDIA driver"));
    let found: Vec<_> = gpus.iter().map(facts).collect();
    assert_eq!(
        found,
        vec![gpu("nvidia", "NVIDIA A100", 40960, Some("535.1")), gpu("nvidia", "NVIDIA T4", 15360, Some("470.2"))]
    );
}

#[test]
fn nvidia_driver_file_stands_in_for_an_empty_listing() {
    let unnamed = gpu("nvidia", "NVIDIA GPU (details unavailable)", 0, None);
    let by_file = PackageInfo::detect_nvidia_gpus(None, Some("NVRM version: NVIDIA UNIX x86_64"));
    assert_eq!(by_file.iter().map(facts).collect::<Vec<_>>(), vec![unnamed.clone()]);
    let empty_listing = PackageInfo::detect_nvidia_gpus(Some("no rows here\n"), Some("NVIDIA"));
    assert_eq!(empty_listing.iter().map(facts).collect::<Vec<_>>(), vec![unnamed]);
    assert!(PackageInfo::detect_nvidia_gpus(None, Some("nvidia in lower case")).is_empty());
    assert!(PackageInfo::detect_nvidia_gpus(None, None).is_empty());
    assert!(PackageInfo::detect_nvidia_gpus(Some(""), None).is_empty());
}

#[test]
fn pci_rows() {
    let line = "01:00.0 VGA compatible controller [0300]: Advanced Micro Devices [AMD/ATI] Navi 21";
    let lowered = line.to_lowercase();
    let amd = read_pci_row(&cs(line), &lowered, PciVendor::Amd).unwrap();
    assert_eq!(facts(&amd), gpu("amd", "Advanced Micro Devices [AMD/ATI] Navi 21", 0, None));
    assert!(read_pci_row(&cs(line), &lowered, PciVendor::Intel).is_none());
    assert!(read_pci_row(&cs(line), line, PciVendor::Amd).is_none());
    let bare = read_pci_row(&cs("x"), "intel graphics", PciVendor::Intel).unwrap();
    assert_eq!(facts(&bare), gpu("intel", "Intel GPU", 0, None));
    let unnamed = read_pci_row(&cs("x"), "ati 3d", PciVendor::Amd).unwrap();
    assert_eq!(facts(&unnamed), gpu("amd", "AMD GPU", 0, None));
    assert!(read_pci_row(&cs("x"), "amd ethernet", PciVendor::Amd).is_none());
    assert!(read_pci_row(&cs("x"), "intel 3d", PciVendor::Intel).is_none());
}

#[test]
fn pci_listing_by_vendor() {
    // "compatible" holds "ati": a VGA compatible controller of any vendor counts as AMD's too.
    let amd = PackageInfo::detect_amd_gpus(Some(LSPCI));
    assert_eq!(
        amd.iter().map(facts).collect::<Vec<_>>(),
        vec![
            gpu("amd", "Intel Corporation UHD Graphics 630 [8086:3e92]", 0, None),
            gpu("amd", "Advanced Micro Devices, Inc. [AMD/ATI] Navi 21 [1002:73bf]", 0, None),
            gpu("amd", "AMD thing", 0, None),
            gpu("amd", "AMD GPU", 0, None),
        ]
    );
    let intel = PackageInfo::detect_intel_gpus(Some(LSPCI));
    assert_eq!(
        intel.iter().map(facts).collect::<Vec<_>>(),
        vec![gpu("intel", "Intel Corporation UHD Graphics 630 [8086:3e92]", 0, None)]
    );
    assert!(PackageInfo::detect_amd_gpus(None).is_empty());
    assert!(detect_pci_gpus(Some(""), PciVendor::Intel).is_empty());
}

#[test]
fn all_devices_in_vendor_order() {
    let readings = GpuReadings {
        nvidia_smi: Some("NVIDIA T4, 15360, 470.2\n".to_string()),
        nvidia_driver: None,
        lspci: Some(LSPCI.to_string()),
    };
    let gpus = PackageInfo::collect_gpu_info(Some(&readings));
    let vendors: Vec<&str> = gpus.iter().map(|gpu| gpu.vendor.as_str()).collect();
    assert_eq!(vendors, vec!["nvidia", "amd", "amd", "amd", "amd", "intel"]);
    assert!(PackageInfo::collect_gpu_info(None).is_empty());
    let nothing = GpuReadings { nvidia_smi: None, nvidia_driver: None, lspci: None };
    assert!(PackageInfo::collect_gpu_info(Some(&nothing)).is_empty());
}
