use vulkan_loader::log::{found_line, hex_string, not_found_line};
use vulkan_loader::names::{pipeline_cache_header_version_name, result_name};

#[test]
fn hex_rendering() {
    assert_eq!(hex_string(0), "0".to_string());
    assert_eq!(hex_string(9), "9".to_string());
    assert_eq!(hex_string(10), "a".to_string());
    assert_eq!(hex_string(255), "ff".to_string());
    assert_eq!(hex_string(0xABCD), "abcd".to_string());
    assert_eq!(hex_string(0x1000), "1000".to_string());
    assert_eq!(hex_string(u64::MAX), "ffffffffffffffff".to_string());
}

#[test]
fn log_lines() {
    assert_eq!(
        found_line("vulkan-1.dll", 0x7FFE0001),
        "Vulkan: Found vkGetInstanceProcAddr in vulkan-1.dll @ 0x7ffe0001".to_string()
    );
    assert_eq!(
        not_found_line(),
        "Vulkan: vkGetInstanceProcAddr not found".to_string()
    );
}

#[test]
fn known_result_codes_have_names() {
    assert_eq!(result_name(0), Some("VK_SUCCESS"));
    assert_eq!(result_name(1), Some("VK_NOT_READY"));
    assert_eq!(result_name(5), Some("VK_INCOMPLETE"));
    assert_eq!(result_name(-1), Some("VK_ERROR_OUT_OF_HOST_MEMORY"));
    assert_eq!(result_name(-4), Some("VK_ERROR_DEVICE_LOST"));
    assert_eq!(result_name(-12), Some("VK_ERROR_FRAGMENTED_POOL"));
    assert_eq!(result_name(-1000000000), Some("VK_ERROR_SURFACE_LOST_KHR"));
    assert_eq!(result_name(1000001003), Some("VK_SUBOPTIMAL_KHR"));
    assert_eq!(
        result_name(-1000072003),
        Some("VK_ERROR_INVALID_EXTERNAL_HANDLE_KHR")
    );
}

#[test]
fn unknown_result_codes_have_no_name() {
    assert_eq!(result_name(42), None);
    assert_eq!(result_name(-100), None);
}

#[test]
fn pipeline_cache_header_versions() {
    assert_eq!(
        pipeline_cache_header_version_name(1),
        Some("VK_PIPELINE_CACHE_HEADER_VERSION_ONE")
    );
    assert_eq!(pipeline_cache_header_version_name(2), None);
}
