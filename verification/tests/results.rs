use mantle::error::{check_result, is_checkable_result, MantleError};
use mantle::ffi::{GR_QUEUE_TYPE, GR_RESULT, GR_VALIDATION_LEVEL};

fn all_codes() -> Vec<(GR_RESULT, u32)> {
    vec![
        (GR_RESULT::GR_SUCCESS, 0x10000),
        (GR_RESULT::GR_UNSUPPORTED, 0x10001),
        (GR_RESULT::GR_NOT_READY, 0x10002),
        (GR_RESULT::GR_TIMEOUT, 0x10003),
        (GR_RESULT::GR_EVENT_SET, 0x10004),
        (GR_RESULT::GR_EVENT_RESET, 0x10005),
        (GR_RESULT::GR_ERROR_UNKNOW, 0x11000),
        (GR_RESULT::GR_ERROR_UNAVAILABLE, 0x11001),
        (GR_RESULT::GR_ERROR_INITIALIZATION_FAILED, 0x11002),
        (GR_RESULT::GR_ERROR_OUT_OF_MEMORY, 0x11003),
        (GR_RESULT::GR_ERROR_OUT_OF_GPU_MEMORY, 0x11004),
        (GR_RESULT::GR_ERROR_DEVICE_ALREADY_CREATED, 0x11005),
        (GR_RESULT::GR_ERROR_DEVICE_LOST, 0x11006),
        (GR_RESULT::GR_ERROR_INVALID_POINTER, 0x11007),
        (GR_RESULT::GR_ERROR_INVALID_VALUE, 0x11008),
        (GR_RESULT::GR_ERROR_INVALID_HANDLE, 0x11009),
        (GR_RESULT::GR_ERROR_INVALID_ORDINAL, 0x1100a),
        (GR_RESULT::GR_ERROR_INVALID_MEMORY_SIZE, 0x1100b),
        (GR_RESULT::GR_ERROR_INVALID_EXTENSION, 0x1100c),
        (GR_RESULT::GR_ERROR_INVALID_FLAGS, 0x1100d),
        (GR_RESULT::GR_ERROR_INVALID_ALIGNMENT, 0x1100e),
        (GR_RESULT::GR_ERROR_INVALID_FORMAT, 0x1100f),
        (GR_RESULT::GR_ERROR_INVALID_IMAGE, 0x11010),
        (GR_RESULT::GR_ERROR_INVALID_DESCRIPTOR_SET_DATA, 0x11011),
        (GR_RESULT::GR_ERROR_INVALID_QUEUE_TYPE, 0x11012),
        (GR_RESULT::GR_ERROR_INVALID_OBJECT_TYPE, 0x11013),
        (GR_RESULT::GR_ERROR_UNSUPPORTED_SHADER_IL_VERSION, 0x11014),
        (GR_RESULT::GR_ERROR_BAD_SHADER_CODE, 0x11015),
        (GR_RESULT::GR_ERROR_BAD_PIPELINE_DATA, 0x11016),
        (GR_RESULT::GR_ERROR_TOO_MANY_MEMORY_REFERENCES, 0x11017),
        (GR_RESULT::GR_ERROR_NOT_MAPPABLE, 0x11018),
        (GR_RESULT::GR_ERROR_MEMORY_MAP_FAILED, 0x11019),
        (GR_RESULT::GR_ERROR_MEMORY_UNMAP_FAILED, 0x1101a),
        (GR_RESULT::GR_ERROR_INCOMPATIBLE_DEVICE, 0x1101b),
        (GR_RESULT::GR_ERROR_INCOMPATIBLE_DRIVER, 0x1101c),
        (GR_RESULT::GR_ERROR_INCOMPLETE_COMMAND_BUFFER, 0x1101d),
        (GR_RESULT::GR_ERROR_BUILDING_COMMAND_BUFFER, 0x1101e),
        (GR_RESULT::GR_ERROR_MEMORY_NOT_BOUND, 0x1101f),
        (GR_RESULT::GR_ERROR_INCOMPATIBLE_QUEUE, 0x11020),
        (GR_RESULT::GR_ERROR_NOT_SHAREABLE, 0x11021),
    ]
}

fn error_pairs() -> Vec<(GR_RESULT, MantleError)> {
    vec![
        (GR_RESULT::GR_ERROR_UNKNOW, MantleError::Unknown),
        (GR_RESULT::GR_ERROR_UNAVAILABLE, MantleError::Unavailable),
        (GR_RESULT::GR_ERROR_INITIALIZATION_FAILED, MantleError::InitializationFailed),
        (GR_RESULT::GR_ERROR_OUT_OF_MEMORY, MantleError::OutOfMemory),
        (GR_RESULT::GR_ERROR_OUT_OF_GPU_MEMORY, MantleError::OutOfGpuMemory),
        (GR_RESULT::GR_ERROR_DEVICE_ALREADY_CREATED, MantleError::DeviceAlreadyCreated),
        (GR_RESULT::GR_ERROR_DEVICE_LOST, MantleError::DeviceLost),
        (GR_RESULT::GR_ERROR_INVALID_POINTER, MantleError::InvalidPointer),
        (GR_RESULT::GR_ERROR_INVALID_VALUE, MantleError::InvalidValue),
        (GR_RESULT::GR_ERROR_INVALID_HANDLE, MantleError::InvalidHandle),
        (GR_RESULT::GR_ERROR_INVALID_ORDINAL, MantleError::InvalidOrdinal),
        (GR_RESULT::GR_ERROR_INVALID_MEMORY_SIZE, MantleError::InvalidMemorySize),
        (GR_RESULT::GR_ERROR_INVALID_EXTENSION, MantleError::InvalidExtension),
        (GR_RESULT::GR_ERROR_INVALID_FLAGS, MantleError::InvalidFlags),
        (GR_RESULT::GR_ERROR_INVALID_ALIGNMENT, MantleError::InvalidAlignment),
        (GR_RESULT::GR_ERROR_INVALID_FORMAT, MantleError::InvalidFormat),
        (GR_RESULT::GR_ERROR_INVALID_IMAGE, MantleError::InvalidImage),
        (GR_RESULT::GR_ERROR_INVALID_DESCRIPTOR_SET_DATA, MantleError::InvalidDescriptorSetData),
        (GR_RESULT::GR_ERROR_INVALID_QUEUE_TYPE, MantleError::InvalidQueueType),
        (GR_RESULT::GR_ERROR_INVALID_OBJECT_TYPE, MantleError::InvalidObjectType),
        (GR_RESULT::GR_ERROR_UNSUPPORTED_SHADER_IL_VERSION, MantleError::UnsupportedShaderIlVersion),
        (GR_RESULT::GR_ERROR_BAD_SHADER_CODE, MantleError::BadShaderCode),
        (GR_RESULT::GR_ERROR_BAD_PIPELINE_DATA, MantleError::BadPipelineData),
        (GR_RESULT::GR_ERROR_TOO_MANY_MEMORY_REFERENCES, MantleError::TooManyMemoryReferences),
        (GR_RESULT::GR_ERROR_NOT_MAPPABLE, MantleError::NotMappable),
        (GR_RESULT::GR_ERROR_MEMORY_MAP_FAILED, MantleError::MemoryMapFailed),
        (GR_RESULT::GR_ERROR_MEMORY_UNMAP_FAILED, MantleError::MemoryUnmapFailed),
        (GR_RESULT::GR_ERROR_INCOMPATIBLE_DEVICE, MantleError::IncompatibleDevice),
        (GR_RESULT::GR_ERROR_INCOMPATIBLE_DRIVER, MantleError::IncompatibleDriver),
        (GR_RESULT::GR_ERROR_INCOMPLETE_COMMAND_BUFFER, MantleError::IncompleteCommandBuffer),
        (GR_RESULT::GR_ERROR_BUILDING_COMMAND_BUFFER, MantleError::BuildingCommandBuffer),
        (GR_RESULT::GR_ERROR_MEMORY_NOT_BOUND, MantleError::MemoryNotBound),
        (GR_RESULT::GR_ERROR_INCOMPATIBLE_QUEUE, MantleError::IncompatibleQueue),
        (GR_RESULT::GR_ERROR_NOT_SHAREABLE, MantleError::NotShareable),
    ]
}

#[test]
fn success_checks_ok() {
    assert_eq!(check_result(GR_RESULT::GR_SUCCESS).is_ok(), true);
    assert!(is_checkable_result(GR_RESULT::GR_SUCCESS));
}

#[test]
fn each_error_code_gives_its_error() {
    for (r, e) in error_pairs() {
        assert!(is_checkable_result(r));
        assert!(r.is_error());
        match check_result(r) {
            Err(got) => assert_eq!(got, e),
            Ok(()) => panic!("error code {:?} checked as success", r),
        }
    }
}

#[test]
fn status_codes_are_not_checkable() {
    for r in [
        GR_RESULT::GR_UNSUPPORTED,
        GR_RESULT::GR_NOT_READY,
        GR_RESULT::GR_TIMEOUT,
        GR_RESULT::GR_EVENT_SET,
        GR_RESULT::GR_EVENT_RESET,
    ] {
        assert!(!r.is_error());
        assert!(!is_checkable_result(r));
    }
}

#[test]
fn result_codes_round_trip() {
    for (r, c) in all_codes() {
        assert_eq!(r.code(), c);
        assert_eq!(GR_RESULT::from_code(c), Some(r));
    }
    assert_eq!(GR_RESULT::GR_ERROR_NOT_SHAREABLE.code(), 0x11021);
    assert_eq!(GR_RESULT::from_code(0x10006), None);
    assert_eq!(GR_RESULT::from_code(0x11022), None);
    assert_eq!(GR_RESULT::from_code(0), None);
}

#[test]
fn queue_type_and_validation_level_codes() {
    assert_eq!(GR_QUEUE_TYPE::GR_QUEUE_UNIVERSAL.code(), 0x1000);
    assert_eq!(GR_QUEUE_TYPE::GR_QUEUE_COMPUTE.code(), 0x1001);
    assert_eq!(GR_QUEUE_TYPE::from_code(0x1001), Some(GR_QUEUE_TYPE::GR_QUEUE_COMPUTE));
    assert_eq!(GR_QUEUE_TYPE::from_code(0x1002), None);
    assert_eq!(GR_VALIDATION_LEVEL::GR_VALIDATION_LEVEL_4.code(), 0x8004);
    assert_eq!(GR_VALIDATION_LEVEL::from_code(0x8000), Some(GR_VALIDATION_LEVEL::GR_VALIDATION_LEVEL_0));
    assert_eq!(GR_VALIDATION_LEVEL::from_code(0x8005), None);
}
