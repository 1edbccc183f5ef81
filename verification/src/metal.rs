//! The Metal backend: classification heuristics and the VRAM computation for
//! devices reported by the platform's graphics-device registry.
//!
//! The native queries themselves (the Metal device list and the IOKit
//! property lookup) cannot run inside verified code; whoever performs them
//! hands this module one [`RawMetalDevice`] per native device, carrying the
//! plain values those queries produced. Everything from there on — kind
//! classification, vendor detection, the registry key scan, and the VRAM
//! fallback — is verified.

use crate::text::{contains_seq, str_contains, str_eq};
use crate::{GPUKind, GPULocation};
use vstd::prelude::*;

verus! {

/// Failure of the Metal backend.
#[derive(Debug)]
pub enum MetalError {
    /// The platform enumerated zero graphics devices: no native graphics
    /// subsystem is present (for example a virtualized host without GPU
    /// passthrough).
    NotSupported,
}

impl MetalError {
    pub fn is_not_supported(&self) -> (r: bool)
        ensures
            r == (self is NotSupported),
    {
        matches!(self, MetalError::NotSupported)
    }
}

/// One entry of the hardware property registry for a device, as fetched by
/// the native IOKit lookup: the property key, and its value when the value
/// was numeric (`None` when the key held a non-numeric value).
#[derive(Debug, Clone)]
pub struct RegistryEntry {
    pub key: String,
    pub numeric: Option<u64>,
}

/// Per-threadgroup compute-dispatch limits of a device.
#[derive(Debug, Clone, Copy, PartialEq, Eq, Structural)]
pub struct MaxThreadsPerThreadgroup {
    pub width: usize,
    pub height: usize,
    pub depth: usize,
}

/// The plain values that the native device queries report for one Metal
/// device. `registry_properties` holds the hardware-registry entries fetched
/// for `registry_id`, or `None` when that best-effort lookup failed at any
/// step (missing service, failed property retrieval).
#[derive(Debug, Clone)]
pub struct RawMetalDevice {
    pub name: String,
    pub is_removable: bool,
    pub is_headless: bool,
    pub is_low_power: bool,
    pub registry_id: u64,
    pub location: GPULocation,
    pub has_unified_memory: bool,
    pub max_threads_per_threadgroup: MaxThreadsPerThreadgroup,
    /// OS-recommended working-set ceiling, in bytes.
    pub recommended_max_working_set: u64,
    pub registry_properties: Option<Vec<RegistryEntry>>,
}

/// The Metal backend's device record: a superset of the unified descriptor.
/// Discarded after conversion to [`crate::GPU`].
#[derive(Debug, Clone)]
pub struct MetalGpu {
    pub kind: GPUKind,
    pub name: String,
    pub vendor: String,
    /// In megabytes.
    pub vram: u64,
    pub is_removable: bool,
    pub is_headless: bool,
    pub registry_id: u64,
    pub location: GPULocation,
    pub has_unified_memory: bool,
    pub max_threads_per_threadgroup: MaxThreadsPerThreadgroup,
    /// In bytes.
    pub recommended_max_working_set: u64,
}

/// Kind classification, first match wins: low-power wins over removable,
/// which wins over built-in placement.
pub open spec fn spec_metal_kind(
    is_low_power: bool,
    is_removable: bool,
    location: GPULocation,
) -> GPUKind {
    if is_low_power {
        GPUKind::Integrated
    } else if is_removable {
        GPUKind::Discrete
    } else if location == GPULocation::BuiltIn {
        GPUKind::Integrated
    } else {
        GPUKind::Discrete
    }
}

/// Vendor heuristic: a case-sensitive substring match against the device
/// name, first matching rule wins.
pub open spec fn spec_vendor(name: Seq<char>) -> Seq<char> {
    if contains_seq(name, "Apple"@) || contains_seq(name, "M1"@) || contains_seq(name, "M2"@)
        || contains_seq(name, "M3"@) || contains_seq(name, "M4"@) || contains_seq(name, "M5"@) {
        "Apple"@
    } else if contains_seq(name, "Intel"@) {
        "Intel"@
    } else if contains_seq(name, "AMD"@) || contains_seq(name, "Radeon"@) {
        "AMD"@
    } else if contains_seq(name, "NVIDIA"@) {
        "NVIDIA"@
    } else {
        "Unknown"@
    }
}

/// The name shown to callers: the native name, or `"Unknown"` when the
/// native data was absent.
pub open spec fn spec_display_name(raw: Seq<char>) -> Seq<char> {
    if raw.len() == 0 {
        "Unknown"@
    } else {
        raw
    }
}

/// What the registry holds under `key`: `None` when the key is absent,
/// `Some(numeric)` for the first entry with that key.
pub open spec fn spec_registry_lookup(entries: Seq<RegistryEntry>, key: Seq<char>) -> Option<
    Option<u64>,
>
    decreases entries.len(),
{
    if entries.len() == 0 {
        None
    } else if entries[0].key@ == key {
        Some(entries[0].numeric)
    } else {
        spec_registry_lookup(entries.drop_first(), key)
    }
}

/// A numeric hit for `key`: the key is present and holds a number.
pub open spec fn spec_registry_hit(entries: Seq<RegistryEntry>, key: Seq<char>) -> Option<u64> {
    match spec_registry_lookup(entries, key) {
        Some(Some(n)) => Some(n),
        _ => None,
    }
}

/// The best-effort registry VRAM lookup: the property keys `"VRAM,totalMB"`,
/// `"VRAM"`, `"VRAM,total"` checked in that order, first numeric hit wins;
/// `None` when the lookup failed or no key held a number.
pub open spec fn spec_registry_vram(properties: Option<Vec<RegistryEntry>>) -> Option<u64> {
    match properties {
        None => None,
        Some(entries) => if spec_registry_hit(entries@, "VRAM,totalMB"@) is Some {
            spec_registry_hit(entries@, "VRAM,totalMB"@)
        } else if spec_registry_hit(entries@, "VRAM"@) is Some {
            spec_registry_hit(entries@, "VRAM"@)
        } else {
            spec_registry_hit(entries@, "VRAM,total"@)
        },
    }
}

/// The VRAM heuristic, in megabytes: unified-memory devices report the
/// working-set ceiling converted to megabytes; other devices report the
/// registry value when one exists, else the same working-set fallback.
pub open spec fn spec_vram(
    has_unified_memory: bool,
    recommended_max_working_set: u64,
    properties: Option<Vec<RegistryEntry>>,
) -> int {
    if has_unified_memory {
        recommended_max_working_set as int / ((1024 * 1024) as int)
    } else {
        match spec_registry_vram(properties) {
            Some(v) => v as int,
            None => recommended_max_working_set as int / ((1024 * 1024) as int),
        }
    }
}

/// The whole per-device mapping: `gpu` is what the backend reports for the
/// native values `device`.
pub open spec fn metal_gpu_matches(device: RawMetalDevice, gpu: MetalGpu) -> bool {
    &&& gpu.kind == spec_metal_kind(device.is_low_power, device.is_removable, device.location)
    &&& gpu.name@ == spec_display_name(device.name@)
    &&& gpu.vendor@ == spec_vendor(device.name@)
    &&& gpu.vram == spec_vram(
        device.has_unified_memory,
        device.recommended_max_working_set,
        device.registry_properties,
    )
    &&& gpu.is_removable == device.is_removable
    &&& gpu.is_headless == device.is_headless
    &&& gpu.registry_id == device.registry_id
    &&& gpu.location == device.location
    &&& gpu.has_unified_memory == device.has_unified_memory
    &&& gpu.max_threads_per_threadgroup == device.max_threads_per_threadgroup
    &&& gpu.recommended_max_working_set == device.recommended_max_working_set
}

/// First numeric hit for `key` among the registry entries.
fn find_numeric(entries: &Vec<RegistryEntry>, key: &str) -> (r: Option<u64>)
    ensures
        r == spec_registry_hit(entries@, key@),
{
    let mut idx: usize = 0;
    proof {
        assert(entries@.skip(0) =~= entries@);
    }
    while idx < entries.len()
        invariant
            idx <= entries@.len(),
            spec_registry_lookup(entries@, key@) == spec_registry_lookup(
                entries@.skip(idx as int),
                key@,
            ),
        decreases entries@.len() - idx,
    {
        proof {
            assert(entries@.skip(idx as int)[0] == entries@[idx as int]);
        }
        if str_eq(entries[idx].key.as_str(), key) {
            return match entries[idx].numeric {
                Some(n) => Some(n),
                None => None,
            };
        }
        proof {
            assert(entries@.skip(idx as int).drop_first() =~= entries@.skip(idx as int + 1));
        }
        idx += 1;
    }
    None
}

/// The best-effort registry VRAM lookup over the fetched properties. Never
/// fails: any miss is `None`, and the caller supplies the fallback.
pub fn lookup_registry_vram(properties: &Option<Vec<RegistryEntry>>) -> (r: Option<u64>)
    ensures
        r == spec_registry_vram(*properties),
{
    match properties {
        None => None,
        Some(entries) => {
            if let Some(v) = find_numeric(entries, "VRAM,totalMB") {
                return Some(v);
            }
            if let Some(v) = find_numeric(entries, "VRAM") {
                return Some(v);
            }
            find_numeric(entries, "VRAM,total")
        },
    }
}

/// VRAM in megabytes for one device, from the unified-memory flag, the
/// working-set ceiling in bytes, and the registry properties fetched for the
/// device's registry identity.
pub fn calculate_vram(
    has_unified_memory: bool,
    recommended_max_working_set: u64,
    registry_properties: &Option<Vec<RegistryEntry>>,
) -> (vram: u64)
    ensures
        vram == spec_vram(has_unified_memory, recommended_max_working_set, *registry_properties),
{
    if has_unified_memory {
        recommended_max_working_set / (1024 * 1024)
    } else {
        match lookup_registry_vram(registry_properties) {
            Some(v) => v,
            None => recommended_max_working_set / (1024 * 1024),
        }
    }
}

/// Vendor heuristic over the device name; `"Unknown"` when no pattern
/// matches.
pub fn detect_vendor(name: &str) -> (r: String)
    ensures
        r@ == spec_vendor(name@),
{
    if str_contains(name, "Apple") || str_contains(name, "M1") || str_contains(name, "M2")
        || str_contains(name, "M3") || str_contains(name, "M4") || str_contains(name, "M5") {
        String::from_str("Apple")
    } else if str_contains(name, "Intel") {
        String::from_str("Intel")
    } else if str_contains(name, "AMD") || str_contains(name, "Radeon") {
        String::from_str("AMD")
    } else if str_contains(name, "NVIDIA") {
        String::from_str("NVIDIA")
    } else {
        String::from_str("Unknown")
    }
}

/// Maps one native device record to the backend's device record.
pub fn extract_gpu_info(device: &RawMetalDevice) -> (r: Result<MetalGpu, MetalError>)
    ensures
        r matches Ok(gpu) && metal_gpu_matches(*device, gpu),
{
    let name = if device.name.as_str().is_empty() {
        String::from_str("Unknown")
    } else {
        device.name.clone()
    };
    let vendor = detect_vendor(device.name.as_str());
    let kind = if device.is_low_power {
        GPUKind::Integrated
    } else if device.is_removable {
        GPUKind::Discrete
    } else if device.location == GPULocation::BuiltIn {
        GPUKind::Integrated
    } else {
        GPUKind::Discrete
    };
    let vram = calculate_vram(
        device.has_unified_memory,
        device.recommended_max_working_set,
        &device.registry_properties,
    );
    Ok(
        MetalGpu {
            kind,
            name,
            vendor,
            vram,
            is_removable: device.is_removable,
            is_headless: device.is_headless,
            registry_id: device.registry_id,
            location: device.location,
            has_unified_memory: device.has_unified_memory,
            max_threads_per_threadgroup: device.max_threads_per_threadgroup,
            recommended_max_working_set: device.recommended_max_working_set,
        },
    )
}

/// The Metal enumeration over the native device records: zero devices is the
/// hard `NotSupported` failure, otherwise every device maps to a record.
pub fn retrieve_gpu_info_via_metal(devices: Vec<RawMetalDevice>) -> (r: Result<
    Vec<MetalGpu>,
    MetalError,
>)
    ensures
        devices@.len() == 0 ==> (r matches Err(e) && e is NotSupported),
        devices@.len() > 0 ==> (r matches Ok(gpus) && gpus@.len() == devices@.len() && (forall|
            i: int,
        |
            0 <= i < devices@.len() ==> metal_gpu_matches(devices@[i], #[trigger] gpus@[i]))),
{
    if devices.len() == 0 {
        return Err(MetalError::NotSupported);
    }
    let mut gpus: Vec<MetalGpu> = Vec::new();
    let mut idx: usize = 0;
    while idx < devices.len()
        invariant
            idx <= devices@.len(),
            gpus@.len() == idx,
            forall|i: int| 0 <= i < idx ==> metal_gpu_matches(devices@[i], #[trigger] gpus@[i]),
        decreases devices@.len() - idx,
    {
        match extract_gpu_info(&devices[idx]) {
            Ok(gpu) => gpus.push(gpu),
            Err(e) => {
                return Err(e);
            },
        }
        idx += 1;
    }
    Ok(gpus)
}

/// Low-power precedence: a device flagged low-power classifies as
/// `Integrated` whatever its other signals say — in particular a device both
/// low-power and removable is `Integrated`, not `Discrete`.
pub proof fn lemma_low_power_precedence(device: RawMetalDevice, gpu: MetalGpu)
    requires
        metal_gpu_matches(device, gpu),
        device.is_low_power,
    ensures
        gpu.kind == GPUKind::Integrated,
{
}

/// A backend record never carries an empty name or vendor: the vendor
/// heuristic only yields one of its five non-empty answers, and an absent
/// native name falls back to `"Unknown"`.
pub proof fn lemma_metal_strings_nonempty(device: RawMetalDevice, gpu: MetalGpu)
    requires
        metal_gpu_matches(device, gpu),
    ensures
        gpu.name@.len() > 0,
        gpu.vendor@.len() > 0,
{
    reveal_strlit("Apple");
    reveal_strlit("Intel");
    reveal_strlit("AMD");
    reveal_strlit("NVIDIA");
    reveal_strlit("Unknown");
}

/// A VRAM of zero stands for "unknown", never for a measured size: the
/// computation yields zero exactly when the native signals carried no usable
/// memory figure — a working-set ceiling under one megabyte for the
/// unified-memory path, and for the registry path either a literal zero
/// registry entry or a failed lookup over the same degenerate ceiling.
pub proof fn lemma_vram_zero_is_unknown(
    has_unified_memory: bool,
    recommended_max_working_set: u64,
    properties: Option<Vec<RegistryEntry>>,
)
    ensures
        spec_vram(has_unified_memory, recommended_max_working_set, properties) == 0
            <==> if has_unified_memory {
            recommended_max_working_set < 1024 * 1024
        } else {
            match spec_registry_vram(properties) {
                Some(v) => v == 0,
                None => recommended_max_working_set < 1024 * 1024,
            }
        },
{
}

} // verus!
