//! Names of native status codes and enum values.
//!
//! The native API reports these as plain integer codes; the mapping
//! gives each known code its symbolic name and leaves unknown codes to
//! the caller, which typically falls back to printing the raw value.

use vstd::prelude::*;

verus! {

/// Whether `code` is a status code this mapping knows.
pub open spec fn result_name_known(code: int) -> bool {
    spec_result_name(code) is Some
}

/// The symbolic name of a known status code.
pub open spec fn spec_result_name(code: int) -> Option<Seq<char>> {
    if code == 0 {
        Some("VK_SUCCESS"@)
    } else if code == 1 {
        Some("VK_NOT_READY"@)
    } else if code == 2 {
        Some("VK_TIMEOUT"@)
    } else if code == 3 {
        Some("VK_EVENT_SET"@)
    } else if code == 4 {
        Some("VK_EVENT_RESET"@)
    } else if code == 5 {
        Some("VK_INCOMPLETE"@)
    } else if code == -1 {
        Some("VK_ERROR_OUT_OF_HOST_MEMORY"@)
    } else if code == -2 {
        Some("VK_ERROR_OUT_OF_DEVICE_MEMORY"@)
    } else if code == -3 {
        Some("VK_ERROR_INITIALIZATION_FAILED"@)
    } else if code == -4 {
        Some("VK_ERROR_DEVICE_LOST"@)
    } else if code == -5 {
        Some("VK_ERROR_MEMORY_MAP_FAILED"@)
    } else if code == -6 {
        Some("VK_ERROR_LAYER_NOT_PRESENT"@)
    } else if code == -7 {
        Some("VK_ERROR_EXTENSION_NOT_PRESENT"@)
    } else if code == -8 {
        Some("VK_ERROR_FEATURE_NOT_PRESENT"@)
    } else if code == -9 {
        Some("VK_ERROR_INCOMPATIBLE_DRIVER"@)
    } else if code == -10 {
        Some("VK_ERROR_TOO_MANY_OBJECTS"@)
    } else if code == -11 {
        Some("VK_ERROR_FORMAT_NOT_SUPPORTED"@)
    } else if code == -12 {
        Some("VK_ERROR_FRAGMENTED_POOL"@)
    } else if code == -1000000000 {
        Some("VK_ERROR_SURFACE_LOST_KHR"@)
    } else if code == -1000000001 {
        Some("VK_ERROR_NATIVE_WINDOW_IN_USE_KHR"@)
    } else if code == 1000001003 {
        Some("VK_SUBOPTIMAL_KHR"@)
    } else if code == -1000001004 {
        Some("VK_ERROR_OUT_OF_DATE_KHR"@)
    } else if code == -1000003001 {
        Some("VK_ERROR_INCOMPATIBLE_DISPLAY_KHR"@)
    } else if code == -1000011001 {
        Some("VK_ERROR_VALIDATION_FAILED_EXT"@)
    } else if code == -1000012000 {
        Some("VK_ERROR_INVALID_SHADER_NV"@)
    } else if code == -1000069000 {
        Some("VK_ERROR_OUT_OF_POOL_MEMORY_KHR"@)
    } else if code == -1000072003 {
        Some("VK_ERROR_INVALID_EXTERNAL_HANDLE_KHR"@)
    } else {
        None
    }
}

/// The symbolic name of a status code, or `None` for a code this
/// mapping does not know.
pub fn result_name(code: i32) -> (r: Option<&'static str>)
    ensures
        match r {
            Some(s) => spec_result_name(code as int) == Some(s@),
            None => !result_name_known(code as int),
        },
{
    match code {
        0 => Some("VK_SUCCESS"),
        1 => Some("VK_NOT_READY"),
        2 => Some("VK_TIMEOUT"),
        3 => Some("VK_EVENT_SET"),
        4 => Some("VK_EVENT_RESET"),
        5 => Some("VK_INCOMPLETE"),
        -1 => Some("VK_ERROR_OUT_OF_HOST_MEMORY"),
        -2 => Some("VK_ERROR_OUT_OF_DEVICE_MEMORY"),
        -3 => Some("VK_ERROR_INITIALIZATION_FAILED"),
        -4 => Some("VK_ERROR_DEVICE_LOST"),
        -5 => Some("VK_ERROR_MEMORY_MAP_FAILED"),
        -6 => Some("VK_ERROR_LAYER_NOT_PRESENT"),
        -7 => Some("VK_ERROR_EXTENSION_NOT_PRESENT"),
        -8 => Some("VK_ERROR_FEATURE_NOT_PRESENT"),
        -9 => Some("VK_ERROR_INCOMPATIBLE_DRIVER"),
        -10 => Some("VK_ERROR_TOO_MANY_OBJECTS"),
        -11 => Some("VK_ERROR_FORMAT_NOT_SUPPORTED"),
        -12 => Some("VK_ERROR_FRAGMENTED_POOL"),
        -1000000000 => Some("VK_ERROR_SURFACE_LOST_KHR"),
        -1000000001 => Some("VK_ERROR_NATIVE_WINDOW_IN_USE_KHR"),
        1000001003 => Some("VK_SUBOPTIMAL_KHR"),
        -1000001004 => Some("VK_ERROR_OUT_OF_DATE_KHR"),
        -1000003001 => Some("VK_ERROR_INCOMPATIBLE_DISPLAY_KHR"),
        -1000011001 => Some("VK_ERROR_VALIDATION_FAILED_EXT"),
        -1000012000 => Some("VK_ERROR_INVALID_SHADER_NV"),
        -1000069000 => Some("VK_ERROR_OUT_OF_POOL_MEMORY_KHR"),
        -1000072003 => Some("VK_ERROR_INVALID_EXTERNAL_HANDLE_KHR"),
        _ => None,
    }
}

/// The symbolic name of a known pipeline-cache header version.
pub open spec fn spec_pipeline_cache_header_version_name(version: int) -> Option<Seq<char>> {
    if version == 1 {
        Some("VK_PIPELINE_CACHE_HEADER_VERSION_ONE"@)
    } else {
        None
    }
}

/// The symbolic name of a pipeline-cache header version, or `None` for
/// a version this mapping does not know.
pub fn pipeline_cache_header_version_name(version: i32) -> (r: Option<&'static str>)
    ensures
        match r {
            Some(s) => spec_pipeline_cache_header_version_name(version as int) == Some(s@),
            None => spec_pipeline_cache_header_version_name(version as int) is None,
        },
{
    if version == 1 {
        Some("VK_PIPELINE_CACHE_HEADER_VERSION_ONE")
    } else {
        None
    }
}

} // verus!
