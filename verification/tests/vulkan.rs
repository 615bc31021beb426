use vulkan_base::vulkan::debug::{
    create_debug_messenger_info, debug_severity_label, debug_type_label, is_debug_mode,
    DEBUG_SEVERITY_ERROR, DEBUG_SEVERITY_INFO, DEBUG_SEVERITY_VERBOSE, DEBUG_SEVERITY_WARNING,
    DEBUG_TYPE_GENERAL, DEBUG_TYPE_PERFORMANCE, DEBUG_TYPE_VALIDATION,
};
use vulkan_base::vulkan::instance::{
    create_application_info, create_instance_info, make_version, InstanceError,
};
use vulkan_base::vulkan::validation::is_validation_layers_supported;

fn names(values: &[&str]) -> Vec<String> {
    values.iter().map(|value| value.to_string()).collect()
}

#[test]
fn no_available_layers_means_unsupported() {
    let requested = names(&["VK_LAYER_KHRONOS_validation"]);
    let available = names(&[]);
    assert!(!is_validation_layers_supported(&requested, &available));
}

#[test]
fn empty_request_is_still_unsupported_without_any_layers() {
    let requested = names(&[]);
    let available = names(&[]);
    assert!(!is_validation_layers_supported(&requested, &available));
}

#[test]
fn present_layer_is_supported() {
    let requested = names(&["A"]);
    let available = names(&["A", "B"]);
    assert!(is_validation_layers_supported(&requested, &available));
}

#[test]
fn one_missing_layer_makes_request_unsupported() {
    let requested = names(&["A", "C"]);
    let available = names(&["A", "B"]);
    assert!(!is_validation_layers_supported(&requested, &available));
}

#[test]
fn empty_request_with_some_layers_is_supported() {
    let requested = names(&[]);
    let available = names(&["A"]);
    assert!(is_validation_layers_supported(&requested, &available));
}

#[test]
fn layer_match_is_exact() {
    let requested = names(&["VK_LAYER_KHRONOS_validation"]);
    let available = names(&["VK_LAYER_KHRONOS_validatio"]);
    assert!(!is_validation_layers_supported(&requested, &available));
}

#[test]
fn messenger_selects_warning_and_error_in_every_category() {
    let info = create_debug_messenger_info();
    assert!(!info.verbose_severity);
    assert!(!info.info_severity);
    assert!(info.warning_severity);
    assert!(info.error_severity);
    assert!(info.general_type);
    assert!(info.validation_type);
    assert!(info.performance_type);
}

#[test]
fn messenger_masks_use_the_api_bit_encoding() {
    let info = create_debug_messenger_info();
    assert_eq!(info.severity_mask(), 0x100 | 0x1000);
    assert_eq!(info.type_mask(), 0x1 | 0x2 | 0x4);
}

#[test]
fn severity_labels_are_exact() {
    assert_eq!(debug_severity_label(DEBUG_SEVERITY_VERBOSE), "[Verbose]");
    assert_eq!(debug_severity_label(DEBUG_SEVERITY_INFO), "[Info]");
    assert_eq!(debug_severity_label(DEBUG_SEVERITY_WARNING), "[Warning]");
    assert_eq!(debug_severity_label(DEBUG_SEVERITY_ERROR), "[Error]");
    assert_eq!(debug_severity_label(0), "[Unknown]");
    assert_eq!(debug_severity_label(DEBUG_SEVERITY_WARNING | DEBUG_SEVERITY_ERROR), "[Unknown]");
}

#[test]
fn type_labels_are_exact() {
    assert_eq!(debug_type_label(DEBUG_TYPE_GENERAL), "[General]");
    assert_eq!(debug_type_label(DEBUG_TYPE_PERFORMANCE), "[Performance]");
    assert_eq!(debug_type_label(DEBUG_TYPE_VALIDATION), "[Validation]");
    assert_eq!(debug_type_label(0), "[Unknown]");
}

#[test]
fn debug_mode_is_on_by_default() {
    assert!(is_debug_mode());
}

#[test]
fn make_version_packs_the_fields() {
    assert_eq!(make_version(1, 0, 0), 1 << 22);
    assert_eq!(make_version(1, 0, 92), (1 << 22) | 92);
    assert_eq!(make_version(1, 2, 3), (1 << 22) | (2 << 12) | 3);
    assert_eq!(make_version(0, 0, 0), 0);
}

#[test]
fn application_info_carries_names_and_versions() {
    let info = create_application_info("demo app", "demo engine");
    assert_eq!(info.application_name, "demo app");
    assert_eq!(info.engine_name, "demo engine");
    assert_eq!(info.application_version, 1 << 22);
    assert_eq!(info.engine_version, 1 << 22);
    assert_eq!(info.api_version, (1 << 22) | 92);
}

#[test]
fn instance_planning_fails_on_unsupported_layers() {
    let requested = names(&["VK_LAYER_KHRONOS_validation"]);
    let available = names(&[]);
    let result = create_instance_info("app", "engine", requested, &available, true);
    let error = result.err().expect("planning must refuse unsupported layers");
    assert_eq!(error, InstanceError::ValidationLayersUnsupported);
    assert_eq!(error.message(), "Requested validation layers are not supported");
}

#[test]
fn instance_planning_assembles_the_request() {
    let requested = names(&["VK_LAYER_KHRONOS_validation"]);
    let available = names(&["VK_LAYER_KHRONOS_validation", "VK_LAYER_other"]);
    let info = create_instance_info("app", "engine", requested, &available, true)
        .ok()
        .expect("planning must succeed when every layer is present");
    assert_eq!(info.application_info.application_name, "app");
    assert_eq!(info.application_info.engine_name, "engine");
    assert_eq!(info.enabled_layer_names, names(&["VK_LAYER_KHRONOS_validation"]));
    assert_eq!(info.enabled_extension_names, names(&["VK_KHR_surface", "VK_EXT_debug_utils"]));
    let messenger = info.debug_messenger.expect("debug mode chains the messenger");
    assert!(messenger.warning_severity && messenger.error_severity);
}

#[test]
fn instance_planning_without_debug_mode_skips_the_messenger() {
    let requested = names(&["A"]);
    let available = names(&["A"]);
    let info = create_instance_info("app", "engine", requested, &available, false)
        .ok()
        .expect("planning must succeed when every layer is present");
    assert!(info.debug_messenger.is_none());
}
