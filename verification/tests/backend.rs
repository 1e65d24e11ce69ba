use gamma_rt_engine::backend::{compute_fallback, fallback, label, lacks_hardware_rt, metal, preference_unmet, select, vulkan, BackendKind};
use gamma_rt_engine::capability::{probe, probe_metal, probe_vulkan_rt, Capabilities};
use gamma_rt_engine::ipc::protocol::bind_address;

fn caps(vulkan_rt: bool, metal_present: bool, metal_rt_hardware: bool, compute_fallback: bool) -> Capabilities {
    Capabilities {
        vulkan_rt,
        metal_present,
        metal_rt_hardware,
        compute_fallback,
        gpu_vendor: "vendor".to_string(),
        gpu_name: "name".to_string(),
        os: "os".to_string(),
    }
}

#[test]
fn preference_is_honoured() {
    let all = caps(true, true, true, true);
    assert_eq!(select("vulkan", &all), BackendKind::Vulkan);
    assert_eq!(select("metal", &all), BackendKind::Metal);
    assert_eq!(select("compute-fallback", &all), BackendKind::ComputeFallback);
    assert_eq!(select("auto", &all), BackendKind::Vulkan);
}

#[test]
fn missing_backend_falls_back() {
    assert_eq!(select("vulkan", &caps(false, true, false, true)), BackendKind::Metal);
    assert_eq!(select("metal", &caps(true, false, false, true)), BackendKind::Vulkan);
    assert_eq!(select("metal", &caps(false, false, false, true)), BackendKind::ComputeFallback);
    assert_eq!(select("vulkan", &caps(false, false, false, false)), BackendKind::Unavailable);
}

#[test]
fn compute_fallback_is_granted_unconditionally() {
    let none = caps(false, false, false, false);
    assert_eq!(select("compute-fallback", &none), BackendKind::ComputeFallback);
}

#[test]
fn unknown_preference_is_auto() {
    let mac = caps(false, true, true, true);
    for word in ["auto", "", "Vulkan", "vulkan ", "opengl"] {
        assert_eq!(select(word, &mac), BackendKind::Metal);
    }
}

#[test]
fn best_backend_first() {
    assert_eq!(fallback(&caps(true, true, true, true)), BackendKind::Vulkan);
    assert_eq!(fallback(&caps(false, true, false, true)), BackendKind::Metal);
    assert_eq!(fallback(&caps(false, false, true, true)), BackendKind::ComputeFallback);
    assert_eq!(fallback(&caps(false, false, false, false)), BackendKind::Unavailable);
}

#[test]
fn labels_are_lower_case_words() {
    assert_eq!(label(BackendKind::Vulkan), "vulkan");
    assert_eq!(label(BackendKind::Metal), "metal");
    assert_eq!(label(BackendKind::ComputeFallback), "computefallback");
    assert_eq!(label(BackendKind::Unavailable), "none");
}

#[test]
fn hardware_rt() {
    assert!(caps(true, false, false, false).has_any_rt());
    assert!(caps(false, true, true, false).has_any_rt());
    assert!(!caps(false, true, false, true).has_any_rt());
}

#[test]
fn recommended_backend_names() {
    assert_eq!(caps(true, true, true, true).recommended_backend(), "vulkan");
    assert_eq!(caps(false, true, true, true).recommended_backend(), "metal");
    assert_eq!(caps(false, true, false, true).recommended_backend(), "compute-fallback");
    assert_eq!(caps(false, false, false, false).recommended_backend(), "compute-fallback");
}

#[test]
fn recommendation_agrees_with_auto() {
    for host in [caps(true, false, false, true), caps(false, true, true, true)] {
        assert_eq!(select(host.recommended_backend(), &host), select("auto", &host));
    }
}

#[test]
fn warning_about_missing_hardware() {
    let soft = caps(false, true, false, true);
    assert!(lacks_hardware_rt("auto", &soft));
    assert!(!lacks_hardware_rt("compute-fallback", &soft));
    assert!(!lacks_hardware_rt("auto", &caps(true, false, false, true)));
}

#[test]
fn probes_by_operating_system() {
    for os in ["windows", "linux"] {
        let found = probe(os);
        assert!(found.vulkan_rt && !found.metal_present && !found.metal_rt_hardware);
        assert!(found.compute_fallback);
        assert_eq!(found.gpu_vendor, "unknown");
        assert_eq!(found.gpu_name, "unknown (full detection lands in §5.6.a part 2)");
        assert_eq!(found.os, os);
    }
    let mac = probe("macos");
    assert!(!mac.vulkan_rt && mac.metal_present && mac.metal_rt_hardware);
    let other = probe("freebsd");
    assert!(!other.vulkan_rt && !other.metal_present && !other.metal_rt_hardware && other.compute_fallback);
    assert!(probe_vulkan_rt("linux") && !probe_vulkan_rt("macos"));
    assert_eq!(probe_metal("macos"), (true, true));
    assert_eq!(probe_metal("linux"), (false, false));
}

#[test]
fn capabilities_clone_alike() {
    let host = probe("linux");
    assert_eq!(host.clone(), host);
}

#[test]
fn initialization_lines() {
    assert_eq!(vulkan::initialize_stub(), "[vulkan] backend stub -- real init in §5.6.a part 2");
    assert_eq!(metal::initialize_stub(), "[metal] backend stub -- real init in §5.6.a part 2");
    assert_eq!(
        compute_fallback::initialize_stub(),
        "[compute-fallback] software path tracer stub -- impl in §5.6.g or later"
    );
}

#[test]
fn address_to_listen_on() {
    assert_eq!(bind_address("127.0.0.1", 9100), "127.0.0.1:9100");
    assert_eq!(bind_address("", 0), ":0");
    assert_eq!(bind_address("::", 65535), ":::65535");
}

#[test]
fn warning_about_an_unmet_preference() {
    let none = caps(false, false, false, true);
    let pc = caps(true, false, false, true);
    let mac = caps(false, true, false, true);
    assert!(preference_unmet("vulkan", &none));
    assert!(preference_unmet("vulkan", &mac));
    assert!(!preference_unmet("vulkan", &pc));
    assert!(preference_unmet("metal", &none));
    assert!(preference_unmet("metal", &pc));
    assert!(!preference_unmet("metal", &mac));
    assert!(!preference_unmet("auto", &none));
    assert!(!preference_unmet("compute-fallback", &none));
}
