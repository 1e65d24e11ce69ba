//! Backend selection: Vulkan on PCs, Metal on Macs, a compute-shader path
//! tracer where neither is available.
use vstd::prelude::*;

use crate::capability::Capabilities;
use crate::text::same_text;

pub mod compute_fallback;
pub mod metal;
pub mod vulkan;

verus! {

/// A rendering backend.
#[derive(Debug, Clone, Copy, PartialEq, Eq, Structural)]
pub enum BackendKind {
    Vulkan,
    Metal,
    ComputeFallback,
    /// No backend is usable on this host; the handshake says so.
    Unavailable,
}

/// The best backend that the host offers.
pub open spec fn best(caps: Capabilities) -> BackendKind {
    if caps.vulkan_rt {
        BackendKind::Vulkan
    } else if caps.metal_present {
        BackendKind::Metal
    } else if caps.compute_fallback {
        BackendKind::ComputeFallback
    } else {
        BackendKind::Unavailable
    }
}

/// The backend for a preference: the preferred one where the host has it, the
/// best one otherwise. The compute fallback is granted unconditionally.
pub open spec fn selected(preferred: Seq<char>, caps: Capabilities) -> BackendKind {
    if preferred == "vulkan"@ && caps.vulkan_rt {
        BackendKind::Vulkan
    } else if preferred == "metal"@ && caps.metal_present {
        BackendKind::Metal
    } else if preferred == "compute-fallback"@ {
        BackendKind::ComputeFallback
    } else {
        best(caps)
    }
}

/// Whether a backend may be used on a host without being forced.
pub open spec fn usable(kind: BackendKind, caps: Capabilities) -> bool {
    match kind {
        BackendKind::Vulkan => caps.vulkan_rt,
        BackendKind::Metal => caps.metal_present,
        BackendKind::ComputeFallback => caps.compute_fallback,
        BackendKind::Unavailable => false,
    }
}

/// Selects the backend for a preference (auto, vulkan, metal or
/// compute-fallback; any other word counts as auto).
pub fn select(preferred: &str, caps: &Capabilities) -> (kind: BackendKind)
    ensures
        kind == selected(preferred@, *caps),
{
    proof {
        lemma_names_differ();
    }
    if same_text(preferred, "vulkan") {
        if caps.vulkan_rt {
            BackendKind::Vulkan
        } else {
            fallback(caps)
        }
    } else if same_text(preferred, "metal") {
        if caps.metal_present {
            BackendKind::Metal
        } else {
            fallback(caps)
        }
    } else if same_text(preferred, "compute-fallback") {
        BackendKind::ComputeFallback
    } else {
        fallback(caps)
    }
}

/// The best backend that the host offers.
pub fn fallback(caps: &Capabilities) -> (kind: BackendKind)
    ensures
        kind == best(*caps),
{
    if caps.vulkan_rt {
        BackendKind::Vulkan
    } else if caps.metal_present {
        BackendKind::Metal
    } else if caps.compute_fallback {
        BackendKind::ComputeFallback
    } else {
        BackendKind::Unavailable
    }
}

/// The name by which the handshake reports a backend.
pub open spec fn label_text(kind: BackendKind) -> Seq<char> {
    match kind {
        BackendKind::Vulkan => "vulkan"@,
        BackendKind::Metal => "metal"@,
        BackendKind::ComputeFallback => "computefallback"@,
        BackendKind::Unavailable => "none"@,
    }
}

/// The backend's name in lower case, in one word.
pub fn label(kind: BackendKind) -> (name: String)
    ensures
        name@ == label_text(kind),
{
    match kind {
        BackendKind::Vulkan => "vulkan".to_owned(),
        BackendKind::Metal => "metal".to_owned(),
        BackendKind::ComputeFallback => "computefallback".to_owned(),
        BackendKind::Unavailable => "none".to_owned(),
    }
}

/// Whether to warn at startup that nothing traces rays in hardware: not if
/// the software path tracer was asked for by name.
pub fn lacks_hardware_rt(preferred: &str, caps: &Capabilities) -> (warn: bool)
    ensures
        warn == (!caps.has_any_rt() && preferred@ != "compute-fallback"@),
{
    !caps.has_any_rt() && !same_text(preferred, "compute-fallback")
}

/// Whether to warn at startup that the backend that was asked for by name is
/// missing on the host, so that another takes its place.
pub fn preference_unmet(preferred: &str, caps: &Capabilities) -> (unmet: bool)
    ensures
        unmet == ((preferred@ == "vulkan"@ && !caps.vulkan_rt) || (preferred@ == "metal"@
            && !caps.metal_present)),
{
    (same_text(preferred, "vulkan") && !caps.vulkan_rt) || (same_text(preferred, "metal")
        && !caps.metal_present)
}

/// The backends' names are distinct.
proof fn lemma_names_differ()
    ensures
        "vulkan"@ != "metal"@,
        "vulkan"@ != "compute-fallback"@,
        "metal"@ != "compute-fallback"@,
        "auto"@ != "vulkan"@,
        "auto"@ != "metal"@,
        "auto"@ != "compute-fallback"@,
{
    reveal_strlit("vulkan");
    reveal_strlit("metal");
    reveal_strlit("compute-fallback");
    reveal_strlit("auto");
    assert("vulkan"@.len() == 6);
    assert("metal"@.len() == 5);
    assert("compute-fallback"@.len() == 16);
    assert("auto"@.len() == 4);
}

/// Without the compute fallback being forced, only a backend that the host
/// has is selected; none is selected only where none is usable.
pub proof fn lemma_selection_is_usable(preferred: Seq<char>, caps: Capabilities)
    requires
        preferred != "compute-fallback"@,
    ensures
        selected(preferred, caps) != BackendKind::Unavailable ==> usable(
            selected(preferred, caps),
            caps,
        ),
        selected(preferred, caps) == BackendKind::Unavailable <==> forall|kind: BackendKind|
            !usable(kind, caps),
{
    assert(usable(BackendKind::Vulkan, caps) == caps.vulkan_rt);
    assert(usable(BackendKind::Metal, caps) == caps.metal_present);
    assert(usable(BackendKind::ComputeFallback, caps) == caps.compute_fallback);
}

/// A preference that the host can honour is honoured.
pub proof fn lemma_preference_is_honoured(caps: Capabilities)
    ensures
        caps.vulkan_rt ==> selected("vulkan"@, caps) == BackendKind::Vulkan,
        caps.metal_present ==> selected("metal"@, caps) == BackendKind::Metal,
        selected("compute-fallback"@, caps) == BackendKind::ComputeFallback,
{
    lemma_names_differ();
}

/// A preference that the host cannot honour, "auto", and any word that names
/// no backend all come to the best backend.
pub proof fn lemma_other_preferences_are_auto(preferred: Seq<char>, caps: Capabilities)
    requires
        preferred != "compute-fallback"@,
        preferred == "vulkan"@ ==> !caps.vulkan_rt,
        preferred == "metal"@ ==> !caps.metal_present,
    ensures
        selected(preferred, caps) == best(caps),
        selected("auto"@, caps) == best(caps),
{
    lemma_names_differ();
}

/// On a host with hardware ray tracing, the recommended backend is the one
/// that "auto" selects.
pub proof fn lemma_recommendation_agrees_with_auto(caps: Capabilities)
    requires
        caps.vulkan_rt || (caps.metal_present && caps.metal_rt_hardware),
    ensures
        selected(caps.recommended(), caps) == selected("auto"@, caps),
{
    lemma_names_differ();
}

/// The best backend is the first of Vulkan, Metal and the compute fallback
/// that the host has; where it has none of them, there is none.
pub proof fn lemma_best_backend_first(caps: Capabilities)
    ensures
        best(caps) == BackendKind::Vulkan <==> caps.vulkan_rt,
        best(caps) == BackendKind::Metal <==> caps.metal_present && !caps.vulkan_rt,
        best(caps) == BackendKind::ComputeFallback <==> caps.compute_fallback && !caps.vulkan_rt
            && !caps.metal_present,
        best(caps) == BackendKind::Unavailable <==> !caps.vulkan_rt && !caps.metal_present
            && !caps.compute_fallback,
{
}

/// What is recommended can be had: asking for it by name selects the backend
/// of that name.
pub proof fn lemma_recommendation_is_honoured(caps: Capabilities)
    ensures
        caps.vulkan_rt ==> selected(caps.recommended(), caps) == BackendKind::Vulkan,
        !caps.vulkan_rt && caps.metal_present && caps.metal_rt_hardware ==> selected(
            caps.recommended(),
            caps,
        ) == BackendKind::Metal,
        !caps.vulkan_rt && !(caps.metal_present && caps.metal_rt_hardware) ==> selected(
            caps.recommended(),
            caps,
        ) == BackendKind::ComputeFallback,
{
    lemma_names_differ();
}

/// A backend reports itself by a name of its own. Those of Vulkan and Metal
/// are the names by which they are asked for.
pub proof fn lemma_labels_tell_backends_apart(one: BackendKind, other: BackendKind)
    ensures
        label_text(one) == label_text(other) ==> one == other,
        one == BackendKind::Vulkan ==> label_text(one) == "vulkan"@,
        one == BackendKind::Metal ==> label_text(one) == "metal"@,
        one == BackendKind::ComputeFallback ==> label_text(one) == "computefallback"@,
        one == BackendKind::Unavailable ==> label_text(one) == "none"@,
{
    reveal_strlit("vulkan");
    reveal_strlit("metal");
    reveal_strlit("computefallback");
    reveal_strlit("none");
    assert("vulkan"@.len() == 6);
    assert("metal"@.len() == 5);
    assert("computefallback"@.len() == 15);
    assert("none"@.len() == 4);
}

} // verus!
