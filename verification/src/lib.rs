//! Enumeration of the GPUs visible to the operating system, reported as a
//! normalized descriptor: kind, name, vendor, driver version, and approximate
//! VRAM. The platform backends (`metal`, `vulkan`) hold the classification
//! heuristics; the native device queries themselves live outside this crate
//! and hand the backends plain device records.

pub mod metal;
pub mod text;
pub mod vulkan;

pub use metal::{
    calculate_vram, detect_vendor, extract_gpu_info, lookup_registry_vram,
    retrieve_gpu_info_via_metal, MaxThreadsPerThreadgroup, MetalError, MetalGpu, RawMetalDevice,
    RegistryEntry,
};

pub use vulkan::{
    decode_driver_version, map_physical_device, retrieve_gpu_info_via_vk, vendor_from_id,
    MemoryHeap, RawVulkanDevice, VulkanEnumeration,
};

use metal::{metal_gpu_matches, spec_display_name, spec_metal_kind, spec_vendor, spec_vram};
use vstd::prelude::*;

verus! {

/// Failures of the unified enumeration entry point.
///
/// Hard failures (missing loader, zero devices, a native error) surface here;
/// best-effort sub-steps (vendor heuristic, registry VRAM lookup) never fail
/// the overall call.
#[derive(Debug)]
pub enum Error {
    /// The Vulkan API loaded but an operation failed; carries the native
    /// error message, or a message saying that no devices were found.
    VulkanOperationFailed(String),
    /// The Vulkan loader is absent on this system: "feature absent", not a bug.
    VulkanNotSupported,
    /// Reserved for an OpenGL path that is out of scope; never produced here.
    OpenGLContextCreationFailed,
    /// Reserved for an OpenGL path that is out of scope; never produced here.
    OpenGLQueryFailed,
    /// A failure of the Metal backend.
    Metal(MetalError),
}

impl Error {
    /// True exactly on the `VulkanNotSupported` variant, which callers are
    /// expected to treat as recoverable.
    pub fn is_vulkan_not_supported(&self) -> (r: bool)
        ensures
            r == (self is VulkanNotSupported),
    {
        matches!(self, Error::VulkanNotSupported)
    }
}

/// Coarse hardware classification of a device. Heuristic: derived from
/// backend-specific signals, never from a canonical hardware registry.
#[derive(Debug, Clone, Copy, PartialEq, Eq, Structural)]
pub enum GPUKind {
    Integrated,
    Discrete,
    Virtual,
    CPU,
    Unknown,
}

/// Physical placement of a device. Only backends that expose placement
/// (Metal) ever set a value other than `Unspecified`.
#[derive(Debug, Default, Clone, Copy, PartialEq, Eq, Structural)]
pub enum GPULocation {
    BuiltIn,
    Slot,
    External,
    #[default]
    Unspecified,
}

/// The unified, platform-independent GPU descriptor. Immutable once built.
#[derive(Debug, Clone)]
pub struct GPU {
    pub kind: GPUKind,
    pub name: String,
    pub vendor: String,
    pub driver_version: String,
    /// Approximate VRAM in megabytes; 0 means unknown or not available.
    pub vram: u64,
    /// Absent on both current backends.
    pub clock_speed: Option<u32>,
    /// Absent on both current backends.
    pub temperature: Option<u32>,
}

/// The unified descriptor `gpu` is the conversion of the Metal backend
/// record `m`: the shared fields carry over, the driver version is
/// `"Unknown"`, and the telemetry fields are absent.
pub open spec fn gpu_from_metal_matches(m: MetalGpu, gpu: GPU) -> bool {
    &&& gpu.kind == m.kind
    &&& gpu.name@ == m.name@
    &&& gpu.vendor@ == m.vendor@
    &&& gpu.driver_version@ == "Unknown"@
    &&& gpu.vram == m.vram
    &&& gpu.clock_speed is None
    &&& gpu.temperature is None
}

/// The whole Metal path for one device: native values in, unified
/// descriptor out.
pub open spec fn gpu_of_metal_device(device: RawMetalDevice, gpu: GPU) -> bool {
    &&& gpu.kind == spec_metal_kind(device.is_low_power, device.is_removable, device.location)
    &&& gpu.name@ == spec_display_name(device.name@)
    &&& gpu.vendor@ == spec_vendor(device.name@)
    &&& gpu.driver_version@ == "Unknown"@
    &&& gpu.vram == spec_vram(
        device.has_unified_memory,
        device.recommended_max_working_set,
        device.registry_properties,
    )
    &&& gpu.clock_speed is None
    &&& gpu.temperature is None
}

impl GPU {
    /// Converts a Metal backend record into the unified descriptor,
    /// discarding the backend-only fields. Metal exposes no queryable driver
    /// version, so that field is always `"Unknown"`.
    pub fn from_metal(gpu: MetalGpu) -> (r: GPU)
        ensures
            gpu_from_metal_matches(gpu, r),
    {
        GPU {
            kind: gpu.kind,
            name: gpu.name,
            vendor: gpu.vendor,
            driver_version: String::from_str("Unknown"),
            vram: gpu.vram,
            clock_speed: None,
            temperature: None,
        }
    }
}

/// The unified enumeration entry point, over the device records that the
/// compiled-in backend's native query produced. Zero devices is the hard
/// `NotSupported` failure; otherwise every device yields one descriptor.
pub fn retrieve_gpu_info(devices: Vec<RawMetalDevice>) -> (r: Result<Vec<GPU>, Error>)
    ensures
        devices@.len() == 0 ==> (r matches Err(e) && e matches Error::Metal(me) && me
            is NotSupported),
        devices@.len() > 0 ==> (r matches Ok(gpus) && gpus@.len() == devices@.len() && (forall|
            i: int,
        |
            0 <= i < devices@.len() ==> gpu_of_metal_device(devices@[i], #[trigger] gpus@[i]))),
{
    let ghost devs = devices@;
    match retrieve_gpu_info_via_metal(devices) {
        Err(e) => Err(Error::Metal(e)),
        Ok(metal_gpus) => {
            let mut rest = metal_gpus;
            let mut gpus: Vec<GPU> = Vec::new();
            while rest.len() > 0
                invariant
                    gpus@.len() + rest@.len() == devs.len(),
                    forall|i: int|
                        0 <= i < gpus@.len() ==> gpu_of_metal_device(
                            devs[i],
                            #[trigger] gpus@[i],
                        ),
                    forall|j: int|
                        0 <= j < rest@.len() ==> metal_gpu_matches(
                            devs[gpus@.len() + j],
                            #[trigger] rest@[j],
                        ),
                decreases rest@.len(),
            {
                let m = rest.remove(0);
                gpus.push(GPU::from_metal(m));
            }
            Ok(gpus)
        },
    }
}

/// Enumeration is idempotent: two enumerations of an unchanged environment
/// agree in length and, descriptor by descriptor, in kind, vendor and name.
pub proof fn lemma_enumeration_idempotent(
    devices: Seq<RawMetalDevice>,
    first: Seq<GPU>,
    second: Seq<GPU>,
)
    requires
        first.len() == devices.len(),
        second.len() == devices.len(),
        forall|i: int| 0 <= i < devices.len() ==> gpu_of_metal_device(devices[i], #[trigger] first[i]),
        forall|i: int|
            0 <= i < devices.len() ==> gpu_of_metal_device(devices[i], #[trigger] second[i]),
    ensures
        first.len() == second.len(),
        forall|i: int|
            0 <= i < first.len() ==> #[trigger] first[i].kind == second[i].kind && first[i].vendor@
                == second[i].vendor@ && first[i].name@ == second[i].name@,
{
}

/// Every descriptor of the Metal path carries a non-empty name and a
/// non-empty vendor: absent native data falls back to `"Unknown"`.
pub proof fn lemma_descriptor_strings_nonempty(device: RawMetalDevice, gpu: GPU)
    requires
        gpu_of_metal_device(device, gpu),
    ensures
        gpu.name@.len() > 0,
        gpu.vendor@.len() > 0,
{
    reveal_strlit("Apple");
    reveal_strlit("Intel");
    reveal_strlit("AMD");
    reveal_strlit("NVIDIA");
    reveal_strlit("Unknown");
}

} // verus!
