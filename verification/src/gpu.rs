//! Graphics devices, read out of what `nvidia-smi` and `lspci` print.

use vstd::prelude::*;
use crate::package::PackageInfo;
use crate::text::{
    chars_of, contains, contains_seq, lines, lines_seq, lowercase_of, parse_u64, parsed_u64,
    pieces_of, split, split_seq, string_of, to_lowercase, trim, trimmed,
};

verus! {

/// One graphics device: what detection can tell of it.
#[derive(Debug, Clone, PartialEq, Eq)]
pub struct GpuInfo {
    pub vendor: String,
    pub model: String,
    pub vram_mb: u64,
    pub driver_version: Option<String>,
}

/// A graphics device, as text.
pub struct GpuView {
    pub vendor: Seq<char>,
    pub model: Seq<char>,
    pub vram_mb: u64,
    pub driver_version: Option<Seq<char>>,
}

/// Whether `gpu` is the device that `view` describes.
pub open spec fn gpu_is(gpu: GpuInfo, view: GpuView) -> bool {
    &&& gpu.vendor@ == view.vendor
    &&& gpu.model@ == view.model
    &&& gpu.vram_mb == view.vram_mb
    &&& match view.driver_version {
        Some(version) => gpu.driver_version matches Some(got) && got@ == version,
        None => gpu.driver_version is None,
    }
}

/// Whether `gpus` are, one by one and in order, the devices that `views` describe.
pub open spec fn gpus_are(gpus: Seq<GpuInfo>, views: Seq<GpuView>) -> bool {
    &&& gpus.len() == views.len()
    &&& forall|i: int| 0 <= i < gpus.len() ==> gpu_is(#[trigger] gpus[i], views[i])
}

/// The devices that the rows of a listing describe: each line is read by `row`, and the
/// lines that describe no device are passed over.
pub open spec fn devices_in(lines: Seq<Seq<char>>, row: spec_fn(Seq<char>) -> Option<GpuView>) -> Seq<
    GpuView,
>
    decreases lines.len(),
{
    if lines.len() == 0 {
        Seq::empty()
    } else {
        let before = devices_in(lines.drop_last(), row);
        match row(lines.last()) {
            Some(device) => before.push(device),
            None => before,
        }
    }
}

/// The device that one line of `nvidia-smi`'s listing describes. The line holds the name,
/// the memory in megabytes and the driver version, separated by a comma and a space; a
/// line with fewer than three fields describes none. Memory that is not a number counts
/// as 0.
pub open spec fn nvidia_row(line: Seq<char>) -> Option<GpuView> {
    let fields = split_seq(line, ", "@);
    if fields.len() >= 3 {
        Some(
            GpuView {
                vendor: "nvidia"@,
                model: trimmed(fields[0]),
                vram_mb: match parsed_u64(trimmed(fields[1])) {
                    Some(megabytes) => megabytes,
                    None => 0,
                },
                driver_version: Some(trimmed(fields[2])),
            },
        )
    } else {
        None
    }
}

/// The device reported when only the driver's presence is known.
pub open spec fn nvidia_unnamed() -> GpuView {
    GpuView {
        vendor: "nvidia"@,
        model: "NVIDIA GPU (details unavailable)"@,
        vram_mb: 0,
        driver_version: None,
    }
}

/// The NVIDIA devices: those that the listing describes or, when it describes none and
/// the driver's version file mentions `NVIDIA`, one unnamed device.
pub open spec fn nvidia_devices(listing: Option<Seq<char>>, driver: Option<Seq<char>>) -> Seq<
    GpuView,
> {
    let listed = match listing {
        Some(text) => devices_in(lines_seq(text), |line: Seq<char>| nvidia_row(line)),
        None => Seq::empty(),
    };
    if listed.len() == 0 && driver is Some && contains_seq(driver->0, "NVIDIA"@) {
        seq![nvidia_unnamed()]
    } else {
        listed
    }
}

/// The vendors whose devices are found in `lspci`'s listing.
#[derive(Clone, Copy, Debug, PartialEq, Eq, Structural)]
pub enum PciVendor {
    Amd,
    Intel,
}

/// Whether a lower-cased line of `lspci`'s listing names a graphics device of `vendor`:
/// it mentions the vendor and a kind of graphics device.
pub open spec fn names_device(lowered: Seq<char>, vendor: PciVendor) -> bool {
    match vendor {
        PciVendor::Amd => (contains_seq(lowered, "amd"@) || contains_seq(lowered, "ati"@)) && (
        contains_seq(lowered, "vga"@) || contains_seq(lowered, "display"@) || contains_seq(
            lowered,
            "3d"@,
        )),
        PciVendor::Intel => contains_seq(lowered, "intel"@) && (contains_seq(lowered, "vga"@)
            || contains_seq(lowered, "display"@) || contains_seq(lowered, "graphics"@)),
    }
}

/// The vendor's name in a device record.
pub open spec fn vendor_tag(vendor: PciVendor) -> Seq<char> {
    match vendor {
        PciVendor::Amd => "amd"@,
        PciVendor::Intel => "intel"@,
    }
}

/// The model given to a device whose line does not say more.
pub open spec fn unnamed_model(vendor: PciVendor) -> Seq<char> {
    match vendor {
        PciVendor::Amd => "AMD GPU"@,
        PciVendor::Intel => "Intel GPU"@,
    }
}

/// The model that a line of `lspci`'s listing gives: what stands between the first colon
/// followed by a space and the next, or to the line's end.
pub open spec fn model_in(line: Seq<char>, vendor: PciVendor) -> Seq<char> {
    let fields = split_seq(line, ": "@);
    if fields.len() > 1 {
        fields[1]
    } else {
        unnamed_model(vendor)
    }
}

/// The device that a line of `lspci`'s listing describes, given the line lower-cased.
pub open spec fn pci_row_of(line: Seq<char>, lowered: Seq<char>, vendor: PciVendor) -> Option<
    GpuView,
> {
    if names_device(lowered, vendor) {
        Some(
            GpuView {
                vendor: vendor_tag(vendor),
                model: model_in(line, vendor),
                vram_mb: 0,
                driver_version: None,
            },
        )
    } else {
        None
    }
}

/// The device of `vendor` that a line of `lspci`'s listing describes.
pub open spec fn pci_row(line: Seq<char>, vendor: PciVendor) -> Option<GpuView> {
    pci_row_of(line, lowercase_of(line), vendor)
}

/// The devices of `vendor` that `lspci`'s listing describes.
pub open spec fn pci_devices(listing: Option<Seq<char>>, vendor: PciVendor) -> Seq<GpuView> {
    match listing {
        Some(text) => devices_in(lines_seq(text), |line: Seq<char>| pci_row(line, vendor)),
        None => Seq::empty(),
    }
}

/// All devices: NVIDIA's, then AMD's, then Intel's.
pub open spec fn all_devices(
    nvidia_listing: Option<Seq<char>>,
    nvidia_driver: Option<Seq<char>>,
    pci_listing: Option<Seq<char>>,
) -> Seq<GpuView> {
    nvidia_devices(nvidia_listing, nvidia_driver) + pci_devices(pci_listing, PciVendor::Amd)
        + pci_devices(pci_listing, PciVendor::Intel)
}

/// What was read about graphics devices on a host that can be asked.
#[derive(Debug, Clone, PartialEq, Eq)]
pub struct GpuReadings {
    /// What `nvidia-smi` printed, if it ran and succeeded.
    pub nvidia_smi: Option<String>,
    /// The text of the NVIDIA driver's version file, if it could be read.
    pub nvidia_driver: Option<String>,
    /// What `lspci -nn` printed, if it ran and succeeded.
    pub lspci: Option<String>,
}

/// The text of an optional string.
pub open spec fn text_of(reading: Option<String>) -> Option<Seq<char>> {
    match reading {
        Some(text) => Some(text@),
        None => None,
    }
}

/// The device with these facts.
fn device(vendor: &str, model: String, vram_mb: u64, driver_version: Option<String>) -> (gpu:
    GpuInfo)
    ensures
        gpu_is(
            gpu,
            GpuView {
                vendor: vendor@,
                model: model@,
                vram_mb,
                driver_version: match driver_version {
                    Some(version) => Some(version@),
                    None => None,
                },
            },
        ),
{
    GpuInfo { vendor: vendor.to_owned(), model, vram_mb, driver_version }
}

/// Reads one line of `nvidia-smi`'s listing.
pub fn read_nvidia_row(line: &Vec<char>) -> (row: Option<GpuInfo>)
    ensures
        match nvidia_row(line@) {
            Some(view) => row matches Some(gpu) && gpu_is(gpu, view),
            None => row is None,
        },
{
    let sep = chars_of(", ");
    let fields = split(line, &sep);
    assert(pieces_of(fields@).len() == fields@.len());
    if fields.len() >= 3 {
        assert(pieces_of(fields@)[0] == fields@[0]@);
        assert(pieces_of(fields@)[1] == fields@[1]@);
        assert(pieces_of(fields@)[2] == fields@[2]@);
        let name = string_of(&trim(&fields[0]));
        let vram_mb = match parse_u64(&trim(&fields[1])) {
            Some(megabytes) => megabytes,
            None => 0,
        };
        let driver = string_of(&trim(&fields[2]));
        Some(device("nvidia", name, vram_mb, Some(driver)))
    } else {
        None
    }
}

/// Reads one line of `lspci`'s listing, given the line lower-cased.
pub fn read_pci_row(line: &Vec<char>, lowered: &str, vendor: PciVendor) -> (row: Option<GpuInfo>)
    ensures
        match pci_row_of(line@, lowered@, vendor) {
            Some(view) => row matches Some(gpu) && gpu_is(gpu, view),
            None => row is None,
        },
{
    let named = match vendor {
        PciVendor::Amd => (contains(lowered, "amd") || contains(lowered, "ati")) && (contains(
            lowered,
            "vga",
        ) || contains(lowered, "display") || contains(lowered, "3d")),
        PciVendor::Intel => contains(lowered, "intel") && (contains(lowered, "vga") || contains(
            lowered,
            "display",
        ) || contains(lowered, "graphics")),
    };
    if !named {
        return None;
    }
    let sep = chars_of(": ");
    let fields = split(line, &sep);
    assert(pieces_of(fields@).len() == fields@.len());
    let model = if fields.len() > 1 {
        assert(pieces_of(fields@)[1] == fields@[1]@);
        string_of(&fields[1])
    } else {
        match vendor {
            PciVendor::Amd => "AMD GPU".to_owned(),
            PciVendor::Intel => "Intel GPU".to_owned(),
        }
    };
    match vendor {
        PciVendor::Amd => Some(device("amd", model, 0, None)),
        PciVendor::Intel => Some(device("intel", model, 0, None)),
    }
}

/// The devices of `vendor` in what `lspci -nn` printed, if it ran and succeeded.
pub fn detect_pci_gpus(listing: Option<&str>, vendor: PciVendor) -> (gpus: Vec<GpuInfo>)
    ensures
        gpus_are(
            gpus@,
            pci_devices(
                match listing {
                    Some(text) => Some(text@),
                    None => None,
                },
                vendor,
            ),
        ),
{
    let mut gpus: Vec<GpuInfo> = Vec::new();
    if let Some(text) = listing {
        let rows = lines(&chars_of(text));
        let ghost read = |line: Seq<char>| pci_row(line, vendor);
        let mut i: usize = 0;
        assert(pieces_of(rows@).take(0) =~= Seq::<Seq<char>>::empty());
        while i < rows.len()
            invariant
                i <= rows.len(),
                read == |line: Seq<char>| pci_row(line, vendor),
                gpus_are(gpus@, devices_in(pieces_of(rows@).take(i as int), read)),
            decreases rows.len() - i,
        {
            proof {
                let longer = pieces_of(rows@).take(i as int + 1);
                assert(longer.drop_last() =~= pieces_of(rows@).take(i as int));
                assert(longer.last() == rows@[i as int]@);
            }
            let line = string_of(&rows[i]);
            let lowered = to_lowercase(line.as_str());
            if let Some(gpu) = read_pci_row(&rows[i], lowered.as_str(), vendor) {
                gpus.push(gpu);
            }
            i += 1;
        }
        assert(pieces_of(rows@).take(rows.len() as int) =~= pieces_of(rows@));
    }
    gpus
}

/// Moves the devices of `more` to the end of `gpus`.
fn add_devices(gpus: &mut Vec<GpuInfo>, more: Vec<GpuInfo>, Ghost(had): Ghost<Seq<GpuView>>, Ghost(
    adds,
): Ghost<Seq<GpuView>>)
    requires
        gpus_are(old(gpus)@, had),
        gpus_are(more@, adds),
    ensures
        gpus_are(final(gpus)@, had + adds),
{
    let mut more = more;
    gpus.append(&mut more);
}

impl PackageInfo {
    /// The AMD devices in what `lspci -nn` printed, if it ran and succeeded.
    pub fn detect_amd_gpus(listing: Option<&str>) -> (gpus: Vec<GpuInfo>)
        ensures
            gpus_are(
                gpus@,
                pci_devices(
                    match listing {
                        Some(text) => Some(text@),
                        None => None,
                    },
                    PciVendor::Amd,
                ),
            ),
    {
        detect_pci_gpus(listing, PciVendor::Amd)
    }

    /// The Intel devices in what `lspci -nn` printed, if it ran and succeeded.
    pub fn detect_intel_gpus(listing: Option<&str>) -> (gpus: Vec<GpuInfo>)
        ensures
            gpus_are(
                gpus@,
                pci_devices(
                    match listing {
                        Some(text) => Some(text@),
                        None => None,
                    },
                    PciVendor::Intel,
                ),
            ),
    {
        detect_pci_gpus(listing, PciVendor::Intel)
    }

    /// The graphics devices of this host: NVIDIA's, then AMD's, then Intel's. A host that
    /// cannot be asked (`readings` is `None`) has none.
    pub fn collect_gpu_info(readings: Option<&GpuReadings>) -> (gpus: Vec<GpuInfo>)
        ensures
            match readings {
                Some(read) => gpus_are(
                    gpus@,
                    all_devices(
                        text_of(read.nvidia_smi),
                        text_of(read.nvidia_driver),
                        text_of(read.lspci),
                    ),
                ),
                None => gpus@.len() == 0,
            },
    {
        let read = match readings {
            Some(read) => read,
            None => {
                return Vec::new();
            },
        };
        let smi: Option<&str> = match &read.nvidia_smi {
            Some(text) => Some(text.as_str()),
            None => None,
        };
        let driver: Option<&str> = match &read.nvidia_driver {
            Some(text) => Some(text.as_str()),
            None => None,
        };
        let pci: Option<&str> = match &read.lspci {
            Some(text) => Some(text.as_str()),
            None => None,
        };
        let mut gpus = Self::detect_nvidia_gpus(smi, driver);
        let ghost nvidia = nvidia_devices(text_of(read.nvidia_smi), text_of(read.nvidia_driver));
        let ghost amd = pci_devices(text_of(read.lspci), PciVendor::Amd);
        let ghost intel = pci_devices(text_of(read.lspci), PciVendor::Intel);
        add_devices(&mut gpus, Self::detect_amd_gpus(pci), Ghost(nvidia), Ghost(amd));
        add_devices(&mut gpus, Self::detect_intel_gpus(pci), Ghost(nvidia + amd), Ghost(intel));
        gpus
    }

    /// The NVIDIA devices of this host. `listing` is what `nvidia-smi` printed when asked
    /// for name, total memory and driver version without header or units, if it ran and
    /// succeeded; `driver` is the text of the driver's version file, if it could be read.
    pub fn detect_nvidia_gpus(listing: Option<&str>, driver: Option<&str>) -> (gpus: Vec<GpuInfo>)
        ensures
            gpus_are(
                gpus@,
                nvidia_devices(
                    match listing {
                        Some(text) => Some(text@),
                        None => None,
                    },
                    match driver {
                        Some(text) => Some(text@),
                        None => None,
                    },
                ),
            ),
    {
        let mut gpus: Vec<GpuInfo> = Vec::new();
        if let Some(text) = listing {
            let rows = lines(&chars_of(text));
            let ghost read = |line: Seq<char>| nvidia_row(line);
            let mut i: usize = 0;
            assert(pieces_of(rows@).take(0) =~= Seq::<Seq<char>>::empty());
            while i < rows.len()
                invariant
                    i <= rows.len(),
                    read == |line: Seq<char>| nvidia_row(line),
                    gpus_are(gpus@, devices_in(pieces_of(rows@).take(i as int), read)),
                decreases rows.len() - i,
            {
                proof {
                    let longer = pieces_of(rows@).take(i as int + 1);
                    assert(longer.drop_last() =~= pieces_of(rows@).take(i as int));
                    assert(longer.last() == rows@[i as int]@);
                }
                if let Some(gpu) = read_nvidia_row(&rows[i]) {
                    gpus.push(gpu);
                }
                i += 1;
            }
            assert(pieces_of(rows@).take(rows.len() as int) =~= pieces_of(rows@));
        }
        if gpus.len() == 0 {
            if let Some(text) = driver {
                if contains(text, "NVIDIA") {
                    gpus.push(
                        device(
                            "nvidia",
                            "NVIDIA GPU (details unavailable)".to_owned(),
                            0,
                            None,
                        ),
                    );
                }
            }
        }
        gpus
    }
}

} // verus!
