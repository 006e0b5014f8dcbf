//! The model catalog and the choice of model for a machine's memory.
use vstd::prelude::*;
use vstd::string::*;
use crate::text::equals;

verus! {

/// Bytes in a gibibyte, the unit in which memory thresholds are given.
pub const GIB: u64 = 1073741824;

/// A model that can be pulled into the service.
#[derive(Clone, Debug)]
pub struct ModelInfo {
    pub name: String,
    /// Download size, in megabytes.
    pub size_mb: u32,
    pub description: String,
    /// Memory the model wants, in gibibytes.
    pub recommended_ram_gb: u32,
    pub is_medical: bool,
}

/// What the machine offers, and what it can run.
#[derive(Clone, Debug)]
pub struct HardwareInfo {
    pub total_memory_bytes: u64,
    pub available_memory_bytes: u64,
    pub cpu_count: usize,
    pub recommended_model: String,
    pub can_run_7b: bool,
    pub can_run_mini: bool,
    pub os: String,
}

/// Number of catalog entries.
pub const CATALOG_SIZE: usize = 3;

pub open spec fn catalog_name(i: int) -> Seq<char> {
    if i <= 0 {
        "tinyllama"@
    } else if i == 1 {
        "phi3:mini"@
    } else {
        "biomistral:7b"@
    }
}

pub open spec fn catalog_size_mb(i: int) -> u32 {
    if i <= 0 {
        1100
    } else if i == 1 {
        2200
    } else {
        4100
    }
}

pub open spec fn catalog_ram_gb(i: int) -> u32 {
    if i <= 0 {
        4
    } else if i == 1 {
        6
    } else {
        8
    }
}

pub open spec fn catalog_description(i: int) -> Seq<char> {
    if i <= 0 {
        "TinyLlama 1.1B - Fast and lightweight model for basic analysis"@
    } else if i == 1 {
        "Phi-3 Mini - Balanced performance for general analysis"@
    } else {
        "BioMistral 7B - Specialized medical research model"@
    }
}

/// Entry `i` of the catalog, as `get_available_models` gives it.
pub open spec fn catalog_entry_is(m: ModelInfo, i: int) -> bool {
    &&& m.name@ == catalog_name(i)
    &&& m.size_mb == catalog_size_mb(i)
    &&& m.description@ == catalog_description(i)
    &&& m.recommended_ram_gb == catalog_ram_gb(i)
    &&& m.is_medical == (i == 2)
}

/// The catalog, smallest model first.
pub fn get_available_models() -> (r: Vec<ModelInfo>)
    ensures
        r@.len() == CATALOG_SIZE,
        forall|i: int| 0 <= i < CATALOG_SIZE ==> catalog_entry_is(#[trigger] r@[i], i),
{
    let mut v: Vec<ModelInfo> = Vec::new();
    v.push(
        ModelInfo {
            name: String::from_str("tinyllama"),
            size_mb: 1100,
            description: String::from_str(
                "TinyLlama 1.1B - Fast and lightweight model for basic analysis",
            ),
            recommended_ram_gb: 4,
            is_medical: false,
        },
    );
    v.push(
        ModelInfo {
            name: String::from_str("phi3:mini"),
            size_mb: 2200,
            description: String::from_str("Phi-3 Mini - Balanced performance for general analysis"),
            recommended_ram_gb: 6,
            is_medical: false,
        },
    );
    v.push(
        ModelInfo {
            name: String::from_str("biomistral:7b"),
            size_mb: 4100,
            description: String::from_str("BioMistral 7B - Specialized medical research model"),
            recommended_ram_gb: 8,
            is_medical: true,
        },
    );
    v
}

/// The models to offer: the whole catalog.
pub fn get_model_recommendations() -> (r: Vec<ModelInfo>)
    ensures
        r@.len() == CATALOG_SIZE,
        forall|i: int| 0 <= i < CATALOG_SIZE ==> catalog_entry_is(#[trigger] r@[i], i),
{
    get_available_models()
}

/// The catalog entry recommended for a machine with `total` bytes of memory:
/// the largest model from 8 GiB, the middle one from 6 GiB, else the smallest.
pub open spec fn recommended_index(total: int) -> int {
    if total >= 8 * GIB {
        2
    } else if total >= 6 * GIB {
        1
    } else {
        0
    }
}

/// The name of the model recommended for `total_memory_bytes` of memory.
pub fn recommended_model(total_memory_bytes: u64) -> (r: String)
    ensures
        r@ == catalog_name(recommended_index(total_memory_bytes as int)),
{
    if total_memory_bytes >= 8 * GIB {
        String::from_str("biomistral:7b")
    } else if total_memory_bytes >= 6 * GIB {
        String::from_str("phi3:mini")
    } else {
        String::from_str("tinyllama")
    }
}

/// More memory never gets a smaller recommendation: the recommended entry,
/// its size and the memory it wants do not decrease as memory grows.
pub proof fn lemma_recommendation_monotonic(low: u64, high: u64)
    requires
        low <= high,
    ensures
        recommended_index(low as int) <= recommended_index(high as int),
        catalog_size_mb(recommended_index(low as int)) <= catalog_size_mb(
            recommended_index(high as int),
        ),
        catalog_ram_gb(recommended_index(low as int)) <= catalog_ram_gb(
            recommended_index(high as int),
        ),
{
}

pub open spec fn os_display_name(target: Seq<char>) -> Seq<char> {
    if target == "windows"@ {
        "Windows"@
    } else if target == "macos"@ {
        "macOS"@
    } else if target == "linux"@ {
        "Linux"@
    } else {
        "Unknown"@
    }
}

/// The operating system's display name, from the target's name (`linux`).
pub fn os_name(target: &str) -> (r: String)
    ensures
        r@ == os_display_name(target@),
{
    if equals(target, "windows") {
        String::from_str("Windows")
    } else if equals(target, "macos") {
        String::from_str("macOS")
    } else if equals(target, "linux") {
        String::from_str("Linux")
    } else {
        String::from_str("Unknown")
    }
}

/// What a machine with these resources can run, with the recommended model;
/// `target_os` is the name of the operating system as Rust's targets name it.
pub fn get_hardware_info(
    total_memory_bytes: u64,
    available_memory_bytes: u64,
    cpu_count: usize,
    target_os: &str,
) -> (r: HardwareInfo)
    ensures
        r.total_memory_bytes == total_memory_bytes,
        r.available_memory_bytes == available_memory_bytes,
        r.cpu_count == cpu_count,
        r.recommended_model@ == catalog_name(recommended_index(total_memory_bytes as int)),
        r.can_run_7b == (total_memory_bytes >= 8 * GIB),
        r.can_run_mini == (total_memory_bytes >= 6 * GIB),
        r.os@ == os_display_name(target_os@),
{
    HardwareInfo {
        total_memory_bytes,
        available_memory_bytes,
        cpu_count,
        recommended_model: recommended_model(total_memory_bytes),
        can_run_7b: total_memory_bytes >= 8 * GIB,
        can_run_mini: total_memory_bytes >= 6 * GIB,
        os: os_name(target_os),
    }
}

} // verus!
