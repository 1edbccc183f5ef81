//! The Vulkan backend: maps physical-device properties and memory-heap
//! layouts to the unified descriptor.
//!
//! Loading the Vulkan entry point, creating the throwaway instance and
//! enumerating physical devices are native, unsafe steps that cannot run
//! inside verified code; whoever performs them reports the outcome as a
//! [`VulkanEnumeration`] holding plain values. Everything from there on —
//! vendor lookup by PCI id, driver-version decoding, kind mapping and the
//! device-local heap summation — is verified.

use crate::text::{decimal_seq, push_decimal};
use crate::{Error, GPUKind, GPU};
use vstd::prelude::*;

verus! {

/// One memory heap of a physical device: its size in bytes and whether the
/// API flags it as physically resident on the device.
#[derive(Debug, Clone, Copy, PartialEq, Eq, Structural)]
pub struct MemoryHeap {
    pub size: u64,
    pub device_local: bool,
}

/// Native device-type value for an integrated GPU.
pub const DEVICE_TYPE_INTEGRATED_GPU: i32 = 1;

/// Native device-type value for a discrete GPU.
pub const DEVICE_TYPE_DISCRETE_GPU: i32 = 2;

/// Native device-type value for a virtual GPU.
pub const DEVICE_TYPE_VIRTUAL_GPU: i32 = 3;

/// Native device-type value for a CPU renderer.
pub const DEVICE_TYPE_CPU: i32 = 4;

/// The plain values read from one physical device: the decoded name (`None`
/// when the native fixed-size buffer held no valid text), the PCI vendor id,
/// the packed driver version, the native device-type value, and the memory
/// heaps.
#[derive(Debug, Clone)]
pub struct RawVulkanDevice {
    pub name: Option<String>,
    pub vendor_id: u32,
    pub driver_version: u32,
    pub device_type: i32,
    pub memory_heaps: Vec<MemoryHeap>,
}

/// What the native Vulkan probe reported: the loader was absent, an API call
/// failed with a message, or enumeration succeeded with a device list.
#[derive(Debug)]
pub enum VulkanEnumeration {
    LoaderUnavailable,
    OperationFailed(String),
    Devices(Vec<RawVulkanDevice>),
}

/// Vendor lookup by PCI vendor id; authoritative where Metal's name
/// heuristic is not.
pub open spec fn spec_vk_vendor(vendor_id: u32) -> Seq<char> {
    if vendor_id == 0x8086 {
        "Intel"@
    } else if vendor_id == 0x10DE {
        "NVIDIA"@
    } else if vendor_id == 0x1002 {
        "AMD"@
    } else {
        "Unknown"@
    }
}

/// Direct mapping from the native device-type value; anything unrecognized
/// maps to `Unknown`.
pub open spec fn spec_vk_kind(device_type: i32) -> GPUKind {
    if device_type == DEVICE_TYPE_INTEGRATED_GPU {
        GPUKind::Integrated
    } else if device_type == DEVICE_TYPE_DISCRETE_GPU {
        GPUKind::Discrete
    } else if device_type == DEVICE_TYPE_VIRTUAL_GPU {
        GPUKind::Virtual
    } else if device_type == DEVICE_TYPE_CPU {
        GPUKind::CPU
    } else {
        GPUKind::Unknown
    }
}

/// The packed driver version decoded as dotted `major.minor.patch`: a
/// 10/10/12-bit split, applied uniformly although the real bit layout is
/// vendor-convention-dependent.
pub open spec fn spec_driver_version(version: u32) -> Seq<char> {
    decimal_seq(((version >> 22) & 0x3FF) as nat) + "."@ + decimal_seq(
        ((version >> 12) & 0x3FF) as nat,
    ) + "."@ + decimal_seq((version & 0xFFF) as nat)
}

/// The name shown to callers: the decoded name, or `"Unknown"` when
/// decoding failed or yielded nothing.
pub open spec fn spec_vk_name(name: Option<String>) -> Seq<char> {
    match name {
        None => "Unknown"@,
        Some(s) => if s@.len() == 0 {
            "Unknown"@
        } else {
            s@
        },
    }
}

/// Total size in bytes of the heaps flagged device-local.
pub open spec fn spec_device_local_sum(heaps: Seq<MemoryHeap>) -> int
    decreases heaps.len(),
{
    if heaps.len() == 0 {
        0
    } else {
        spec_device_local_sum(heaps.drop_last()) + if heaps.last().device_local {
            heaps.last().size as int
        } else {
            0
        }
    }
}

/// The whole per-device mapping: `gpu` is the descriptor reported for the
/// native values `device`. VRAM is the device-local heap total converted to
/// megabytes; clock speed and temperature are absent, the API offering no
/// standardized query for either.
pub open spec fn vk_gpu_matches(device: RawVulkanDevice, gpu: GPU) -> bool {
    &&& gpu.kind == spec_vk_kind(device.device_type)
    &&& gpu.name@ == spec_vk_name(device.name)
    &&& gpu.vendor@ == spec_vk_vendor(device.vendor_id)
    &&& gpu.driver_version@ == spec_driver_version(device.driver_version)
    &&& gpu.vram == spec_device_local_sum(device.memory_heaps@) / ((1024 * 1024) as int)
    &&& gpu.clock_speed is None
    &&& gpu.temperature is None
}

proof fn lemma_device_local_sum_nonneg(heaps: Seq<MemoryHeap>)
    ensures
        spec_device_local_sum(heaps) >= 0,
    decreases heaps.len(),
{
    if heaps.len() > 0 {
        lemma_device_local_sum_nonneg(heaps.drop_last());
    }
}

proof fn lemma_device_local_sum_prefix(heaps: Seq<MemoryHeap>, i: int)
    requires
        0 <= i <= heaps.len(),
    ensures
        spec_device_local_sum(heaps.take(i)) <= spec_device_local_sum(heaps),
    decreases heaps.len() - i,
{
    if i == heaps.len() {
        assert(heaps.take(i) =~= heaps);
    } else {
        lemma_device_local_sum_prefix(heaps, i + 1);
        assert(heaps.take(i + 1).drop_last() =~= heaps.take(i));
    }
}

/// Sums the device-local heap sizes. The total must fit the machine word;
/// physical heaps cannot exceed it.
pub fn sum_device_local(heaps: &Vec<MemoryHeap>) -> (total: u64)
    requires
        spec_device_local_sum(heaps@) <= u64::MAX,
    ensures
        total == spec_device_local_sum(heaps@),
{
    let mut total: u64 = 0;
    let mut idx: usize = 0;
    proof {
        assert(heaps@.take(0) =~= Seq::<MemoryHeap>::empty());
    }
    while idx < heaps.len()
        invariant
            idx <= heaps@.len(),
            total == spec_device_local_sum(heaps@.take(idx as int)),
            spec_device_local_sum(heaps@) <= u64::MAX,
        decreases heaps@.len() - idx,
    {
        proof {
            assert(heaps@.take(idx as int + 1).drop_last() =~= heaps@.take(idx as int));
            assert(heaps@.take(idx as int + 1).last() == heaps@[idx as int]);
            lemma_device_local_sum_prefix(heaps@, idx as int + 1);
            lemma_device_local_sum_nonneg(heaps@.take(idx as int));
        }
        if heaps[idx].device_local {
            total = total + heaps[idx].size;
        }
        idx += 1;
    }
    proof {
        assert(heaps@.take(heaps@.len() as int) =~= heaps@);
    }
    total
}

/// Vendor name for a PCI vendor id; `"Unknown"` for an id outside the
/// recognized set.
pub fn vendor_from_id(vendor_id: u32) -> (r: String)
    ensures
        r@ == spec_vk_vendor(vendor_id),
{
    if vendor_id == 0x8086 {
        String::from_str("Intel")
    } else if vendor_id == 0x10DE {
        String::from_str("NVIDIA")
    } else if vendor_id == 0x1002 {
        String::from_str("AMD")
    } else {
        String::from_str("Unknown")
    }
}

/// Formats the packed driver version as dotted decimal `major.minor.patch`.
pub fn decode_driver_version(version: u32) -> (r: String)
    ensures
        r@ == spec_driver_version(version),
{
    let mut s = String::new();
    push_decimal(&mut s, (version >> 22) & 0x3FF);
    s.append(".");
    push_decimal(&mut s, (version >> 12) & 0x3FF);
    s.append(".");
    push_decimal(&mut s, version & 0xFFF);
    proof {
        assert(s@ =~= spec_driver_version(version));
    }
    s
}

/// Maps one physical device's plain values to the unified descriptor.
pub fn map_physical_device(device: &RawVulkanDevice) -> (gpu: GPU)
    requires
        spec_device_local_sum(device.memory_heaps@) <= u64::MAX,
    ensures
        vk_gpu_matches(*device, gpu),
{
    let name = match &device.name {
        None => String::from_str("Unknown"),
        Some(s) => if s.as_str().is_empty() {
            String::from_str("Unknown")
        } else {
            s.clone()
        },
    };
    let kind = if device.device_type == DEVICE_TYPE_INTEGRATED_GPU {
        GPUKind::Integrated
    } else if device.device_type == DEVICE_TYPE_DISCRETE_GPU {
        GPUKind::Discrete
    } else if device.device_type == DEVICE_TYPE_VIRTUAL_GPU {
        GPUKind::Virtual
    } else if device.device_type == DEVICE_TYPE_CPU {
        GPUKind::CPU
    } else {
        GPUKind::Unknown
    };
    let vram_bytes = sum_device_local(&device.memory_heaps);
    GPU {
        kind,
        name,
        vendor: vendor_from_id(device.vendor_id),
        driver_version: decode_driver_version(device.driver_version),
        vram: vram_bytes / (1024 * 1024),
        clock_speed: None,
        temperature: None,
    }
}

/// The Vulkan enumeration over the probe's outcome. A missing loader is the
/// recoverable `VulkanNotSupported`; a native failure and an empty device
/// list are both the hard `VulkanOperationFailed`; otherwise every physical
/// device yields one descriptor.
pub fn retrieve_gpu_info_via_vk(enumeration: VulkanEnumeration) -> (r: Result<Vec<GPU>, Error>)
    requires
        enumeration matches VulkanEnumeration::Devices(devices) ==> (forall|i: int|
            0 <= i < devices@.len() ==> spec_device_local_sum(#[trigger] devices@[i].memory_heaps@)
                <= u64::MAX),
    ensures
        enumeration is LoaderUnavailable ==> (r matches Err(e) && e is VulkanNotSupported),
        enumeration matches VulkanEnumeration::OperationFailed(message) ==> (r matches Err(e) && e
            matches Error::VulkanOperationFailed(detail) && detail@ == message@),
        enumeration matches VulkanEnumeration::Devices(devices) ==> ((devices@.len() == 0 ==> (r
            matches Err(e) && e matches Error::VulkanOperationFailed(detail) && detail@
            == "No Vulkan-compatible GPUs found."@)) && (devices@.len() > 0 ==> (r matches Ok(gpus)
            && gpus@.len() == devices@.len() && (forall|i: int|
            0 <= i < devices@.len() ==> vk_gpu_matches(devices@[i], #[trigger] gpus@[i]))))),
{
    match enumeration {
        VulkanEnumeration::LoaderUnavailable => Err(Error::VulkanNotSupported),
        VulkanEnumeration::OperationFailed(message) => Err(Error::VulkanOperationFailed(message)),
        VulkanEnumeration::Devices(devices) => {
            if devices.len() == 0 {
                return Err(
                    Error::VulkanOperationFailed(
                        String::from_str("No Vulkan-compatible GPUs found."),
                    ),
                );
            }
            let mut gpus: Vec<GPU> = Vec::new();
            let mut idx: usize = 0;
            while idx < devices.len()
                invariant
                    idx <= devices@.len(),
                    gpus@.len() == idx,
                    forall|i: int|
                        0 <= i < devices@.len() ==> spec_device_local_sum(
                            #[trigger] devices@[i].memory_heaps@,
                        ) <= u64::MAX,
                    forall|i: int|
                        0 <= i < idx ==> vk_gpu_matches(devices@[i], #[trigger] gpus@[i]),
                decreases devices@.len() - idx,
            {
                gpus.push(map_physical_device(&devices[idx]));
                idx += 1;
            }
            Ok(gpus)
        },
    }
}

/// Every descriptor of the Vulkan path carries a non-empty name and a
/// non-empty vendor: a name that could not be decoded and a vendor id
/// outside the recognized set both fall back to `"Unknown"`.
pub proof fn lemma_vk_strings_nonempty(device: RawVulkanDevice, gpu: GPU)
    requires
        vk_gpu_matches(device, gpu),
    ensures
        gpu.name@.len() > 0,
        gpu.vendor@.len() > 0,
{
    reveal_strlit("Intel");
    reveal_strlit("NVIDIA");
    reveal_strlit("AMD");
    reveal_strlit("Unknown");
}

/// Enumeration is idempotent on the Vulkan path as well: two mappings of an
/// unchanged device list agree in length and, descriptor by descriptor, in
/// kind, vendor and name.
pub proof fn lemma_vk_enumeration_idempotent(
    devices: Seq<RawVulkanDevice>,
    first: Seq<GPU>,
    second: Seq<GPU>,
)
    requires
        first.len() == devices.len(),
        second.len() == devices.len(),
        forall|i: int| 0 <= i < devices.len() ==> vk_gpu_matches(devices[i], #[trigger] first[i]),
        forall|i: int| 0 <= i < devices.len() ==> vk_gpu_matches(devices[i], #[trigger] second[i]),
    ensures
        first.len() == second.len(),
        forall|i: int|
            0 <= i < first.len() ==> #[trigger] first[i].kind == second[i].kind && first[i].vendor@
                == second[i].vendor@ && first[i].name@ == second[i].name@,
{
}

} // verus!
