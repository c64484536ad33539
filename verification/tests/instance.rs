use renderer::instance::{
    build_instance_spec, diagnostic_level, severity_enabled, DiagnosticSeverity, LogLevel,
};

fn name(s: &str) -> Vec<u8> {
    s.as_bytes().to_vec()
}

#[test]
fn validation_adds_the_debug_extension_and_the_layer() {
    let spec = build_instance_spec(
        name("demo"),
        vec![name("VK_KHR_surface"), name("VK_KHR_xlib_surface")],
        name("VK_EXT_debug_utils"),
        name("VK_LAYER_KHRONOS_validation"),
        true,
    );
    assert!(spec.validation);
    assert_eq!(spec.app_name, name("demo"));
    assert_eq!(spec.extensions, vec![
        name("VK_KHR_surface"),
        name("VK_KHR_xlib_surface"),
        name("VK_EXT_debug_utils"),
    ]);
    assert_eq!(spec.layers, vec![name("VK_LAYER_KHRONOS_validation")]);
}

#[test]
fn without_validation_the_platform_list_passes_through_unchanged() {
    let spec = build_instance_spec(
        name("demo"),
        vec![name("VK_KHR_surface")],
        name("VK_EXT_debug_utils"),
        name("VK_LAYER_KHRONOS_validation"),
        false,
    );
    assert!(!spec.validation);
    assert_eq!(spec.extensions, vec![name("VK_KHR_surface")]);
    assert!(spec.layers.is_empty());
}

#[test]
fn only_warnings_and_errors_are_registered() {
    assert!(!severity_enabled(DiagnosticSeverity::Verbose));
    assert!(!severity_enabled(DiagnosticSeverity::Info));
    assert!(severity_enabled(DiagnosticSeverity::Warning));
    assert!(severity_enabled(DiagnosticSeverity::Error));
}

#[test]
fn each_severity_maps_to_its_log_level() {
    assert_eq!(diagnostic_level(DiagnosticSeverity::Verbose), LogLevel::Trace);
    assert_eq!(diagnostic_level(DiagnosticSeverity::Info), LogLevel::Info);
    assert_eq!(diagnostic_level(DiagnosticSeverity::Warning), LogLevel::Warn);
    assert_eq!(diagnostic_level(DiagnosticSeverity::Error), LogLevel::Error);
}
