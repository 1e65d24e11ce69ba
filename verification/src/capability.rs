//! What the host machine can do for ray tracing.
use vstd::prelude::*;

use crate::text::same_text;

verus! {

/// The ray-tracing capabilities of a host.
#[derive(Debug, PartialEq, Eq)]
pub struct Capabilities {
    /// Whether the Vulkan ray-tracing pipeline extensions are present.
    pub vulkan_rt: bool,
    /// Whether Metal is present, with or without hardware ray tracing.
    pub metal_present: bool,
    /// Whether Metal traces rays in hardware. Without it, Metal traverses in
    /// software, for previews only.
    pub metal_rt_hardware: bool,
    /// Whether a compute-shader path tracer is usable.
    pub compute_fallback: bool,
    /// The GPU's vendor, for display.
    pub gpu_vendor: String,
    /// The GPU's name, for display.
    pub gpu_name: String,
    /// The operating system family.
    pub os: String,
}

impl Clone for Capabilities {
    fn clone(&self) -> (copy: Self)
        ensures
            copy == *self,
    {
        Capabilities {
            vulkan_rt: self.vulkan_rt,
            metal_present: self.metal_present,
            metal_rt_hardware: self.metal_rt_hardware,
            compute_fallback: self.compute_fallback,
            gpu_vendor: self.gpu_vendor.clone(),
            gpu_name: self.gpu_name.clone(),
            os: self.os.clone(),
        }
    }
}

impl Capabilities {
    /// Whether some path traces rays in hardware.
    pub open spec fn spec_has_any_rt(&self) -> bool {
        self.vulkan_rt || self.metal_rt_hardware
    }

    /// True if any hardware ray-tracing path is available.
    #[verifier::when_used_as_spec(spec_has_any_rt)]
    pub fn has_any_rt(&self) -> (any: bool)
        ensures
            any == self.spec_has_any_rt(),
            any == (self.vulkan_rt || self.metal_rt_hardware),
    {
        self.vulkan_rt || self.metal_rt_hardware
    }

    /// The name of the recommended backend.
    pub open spec fn recommended(&self) -> Seq<char> {
        if self.vulkan_rt {
            "vulkan"@
        } else if self.metal_present && self.metal_rt_hardware {
            "metal"@
        } else {
            "compute-fallback"@
        }
    }

    /// The recommended backend, by its command-line name: "compute-fallback"
    /// if no hardware ray tracing is available.
    pub fn recommended_backend(&self) -> (name: &'static str)
        ensures
            name@ == self.recommended(),
            !self.has_any_rt() ==> name@ == "compute-fallback"@,
            !self.vulkan_rt && !self.metal_rt_hardware ==> name@ == "compute-fallback"@,
            self.vulkan_rt ==> name@ == "vulkan"@,
            !self.vulkan_rt && self.metal_rt_hardware && self.metal_present ==> name@ == "metal"@,
            !self.vulkan_rt && !self.metal_present ==> name@ == "compute-fallback"@,
    {
        if self.vulkan_rt {
            "vulkan"
        } else if self.metal_present && self.metal_rt_hardware {
            "metal"
        } else {
            "compute-fallback"
        }
    }
}

/// Whether an operating system is one that Vulkan ray tracing runs on.
pub open spec fn is_vulkan_os(os: Seq<char>) -> bool {
    os == "windows"@ || os == "linux"@
}

/// Whether an operating system is the one that Metal runs on.
pub open spec fn is_metal_os(os: Seq<char>) -> bool {
    os == "macos"@
}

/// Vulkan ray tracing is taken to be available on Windows and Linux.
pub fn probe_vulkan_rt(os: &str) -> (available: bool)
    ensures
        available == is_vulkan_os(os@),
        available == (os@ == "windows"@ || os@ == "linux"@),
{
    same_text(os, "windows") || same_text(os, "linux")
}

/// Whether Metal is present, and whether it traces in hardware: both are
/// taken to hold on macOS.
pub fn probe_metal(os: &str) -> (found: (bool, bool))
    ensures
        found == (is_metal_os(os@), is_metal_os(os@)),
        found.0 == (os@ == "macos"@),
        found.1 == found.0,
{
    let mac = same_text(os, "macos");
    (mac, mac)
}

/// The capabilities of a host that runs the given operating system (as
/// `std::env::consts::OS` names it).
pub fn probe(os: &str) -> (caps: Capabilities)
    ensures
        caps.vulkan_rt == is_vulkan_os(os@),
        caps.metal_present == is_metal_os(os@),
        caps.metal_rt_hardware == is_metal_os(os@),
        caps.vulkan_rt == (os@ == "windows"@ || os@ == "linux"@),
        caps.metal_present == (os@ == "macos"@),
        caps.metal_rt_hardware == caps.metal_present,
        caps.compute_fallback,
        caps.gpu_vendor@ == "unknown"@,
        caps.gpu_name@ == "unknown (full detection lands in §5.6.a part 2)"@,
        caps.os@ == os@,
{
    proof {
        lemma_os_names_differ();
    }
    let (vulkan_rt, metal_present, metal_rt_hardware): (bool, bool, bool) = if same_text(os, "windows") || same_text(os, "linux") {
        (probe_vulkan_rt(os), false, false)
    } else if same_text(os, "macos") {
        let (present, hardware) = probe_metal(os);
        (false, present, hardware)
    } else {
        (false, false, false)
    };
    Capabilities {
        vulkan_rt,
        metal_present,
        metal_rt_hardware,
        compute_fallback: true,
        gpu_vendor: "unknown".to_owned(),
        gpu_name: "unknown (full detection lands in §5.6.a part 2)".to_owned(),
        os: os.to_owned(),
    }
}

/// No operating system is both a Vulkan and a Metal one.
pub proof fn lemma_os_names_differ()
    ensures
        forall|os: Seq<char>| !(is_vulkan_os(os) && is_metal_os(os)),
{
    reveal_strlit("windows");
    reveal_strlit("linux");
    reveal_strlit("macos");
    assert("linux"@[0] == 'l');
    assert("macos"@[0] == 'm');
    assert("windows"@.len() == 7);
    assert("macos"@.len() == 5);
}

/// Hardware ray tracing is there if and only if one of the two ways to it is.
pub proof fn lemma_any_way_counts(caps: Capabilities)
    ensures
        caps.vulkan_rt ==> caps.has_any_rt(),
        caps.metal_rt_hardware ==> caps.has_any_rt(),
        caps.has_any_rt() ==> caps.vulkan_rt || caps.metal_rt_hardware,
{
}

} // verus!
