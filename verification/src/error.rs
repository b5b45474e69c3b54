//! Errors reported by the driver, and the check of every result it returns.
use vstd::prelude::*;

use crate::ffi::{is_error_result, GR_RESULT};

verus! {

/// One variant for each error code of the driver.
#[derive(Debug, Clone, Copy, PartialEq, Eq, Structural)]
pub enum MantleError {
    Unknown,
    Unavailable,
    InitializationFailed,
    OutOfMemory,
    OutOfGpuMemory,
    DeviceAlreadyCreated,
    DeviceLost,
    InvalidPointer,
    InvalidValue,
    InvalidHandle,
    InvalidOrdinal,
    InvalidMemorySize,
    InvalidExtension,
    InvalidFlags,
    InvalidAlignment,
    InvalidFormat,
    InvalidImage,
    InvalidDescriptorSetData,
    InvalidQueueType,
    InvalidObjectType,
    UnsupportedShaderIlVersion,
    BadShaderCode,
    BadPipelineData,
    TooManyMemoryReferences,
    NotMappable,
    MemoryMapFailed,
    MemoryUnmapFailed,
    IncompatibleDevice,
    IncompatibleDriver,
    IncompleteCommandBuffer,
    BuildingCommandBuffer,
    MemoryNotBound,
    IncompatibleQueue,
    NotShareable,
}

/// The error that a result code reports; `None` for the codes that report
/// no failure.
pub open spec fn error_of(r: GR_RESULT) -> Option<MantleError> {
    match r {
        GR_RESULT::GR_SUCCESS => None,
        GR_RESULT::GR_UNSUPPORTED => None,
        GR_RESULT::GR_NOT_READY => None,
        GR_RESULT::GR_TIMEOUT => None,
        GR_RESULT::GR_EVENT_SET => None,
        GR_RESULT::GR_EVENT_RESET => None,
        GR_RESULT::GR_ERROR_UNKNOW => Some(MantleError::Unknown),
        GR_RESULT::GR_ERROR_UNAVAILABLE => Some(MantleError::Unavailable),
        GR_RESULT::GR_ERROR_INITIALIZATION_FAILED => Some(MantleError::InitializationFailed),
        GR_RESULT::GR_ERROR_OUT_OF_MEMORY => Some(MantleError::OutOfMemory),
        GR_RESULT::GR_ERROR_OUT_OF_GPU_MEMORY => Some(MantleError::OutOfGpuMemory),
        GR_RESULT::GR_ERROR_DEVICE_ALREADY_CREATED => Some(MantleError::DeviceAlreadyCreated),
        GR_RESULT::GR_ERROR_DEVICE_LOST => Some(MantleError::DeviceLost),
        GR_RESULT::GR_ERROR_INVALID_POINTER => Some(MantleError::InvalidPointer),
        GR_RESULT::GR_ERROR_INVALID_VALUE => Some(MantleError::InvalidValue),
        GR_RESULT::GR_ERROR_INVALID_HANDLE => Some(MantleError::InvalidHandle),
        GR_RESULT::GR_ERROR_INVALID_ORDINAL => Some(MantleError::InvalidOrdinal),
        GR_RESULT::GR_ERROR_INVALID_MEMORY_SIZE => Some(MantleError::InvalidMemorySize),
        GR_RESULT::GR_ERROR_INVALID_EXTENSION => Some(MantleError::InvalidExtension),
        GR_RESULT::GR_ERROR_INVALID_FLAGS => Some(MantleError::InvalidFlags),
        GR_RESULT::GR_ERROR_INVALID_ALIGNMENT => Some(MantleError::InvalidAlignment),
        GR_RESULT::GR_ERROR_INVALID_FORMAT => Some(MantleError::InvalidFormat),
        GR_RESULT::GR_ERROR_INVALID_IMAGE => Some(MantleError::InvalidImage),
        GR_RESULT::GR_ERROR_INVALID_DESCRIPTOR_SET_DATA => Some(MantleError::InvalidDescriptorSetData),
        GR_RESULT::GR_ERROR_INVALID_QUEUE_TYPE => Some(MantleError::InvalidQueueType),
        GR_RESULT::GR_ERROR_INVALID_OBJECT_TYPE => Some(MantleError::InvalidObjectType),
        GR_RESULT::GR_ERROR_UNSUPPORTED_SHADER_IL_VERSION => Some(MantleError::UnsupportedShaderIlVersion),
        GR_RESULT::GR_ERROR_BAD_SHADER_CODE => Some(MantleError::BadShaderCode),
        GR_RESULT::GR_ERROR_BAD_PIPELINE_DATA => Some(MantleError::BadPipelineData),
        GR_RESULT::GR_ERROR_TOO_MANY_MEMORY_REFERENCES => Some(MantleError::TooManyMemoryReferences),
        GR_RESULT::GR_ERROR_NOT_MAPPABLE => Some(MantleError::NotMappable),
        GR_RESULT::GR_ERROR_MEMORY_MAP_FAILED => Some(MantleError::MemoryMapFailed),
        GR_RESULT::GR_ERROR_MEMORY_UNMAP_FAILED => Some(MantleError::MemoryUnmapFailed),
        GR_RESULT::GR_ERROR_INCOMPATIBLE_DEVICE => Some(MantleError::IncompatibleDevice),
        GR_RESULT::GR_ERROR_INCOMPATIBLE_DRIVER => Some(MantleError::IncompatibleDriver),
        GR_RESULT::GR_ERROR_INCOMPLETE_COMMAND_BUFFER => Some(MantleError::IncompleteCommandBuffer),
        GR_RESULT::GR_ERROR_BUILDING_COMMAND_BUFFER => Some(MantleError::BuildingCommandBuffer),
        GR_RESULT::GR_ERROR_MEMORY_NOT_BOUND => Some(MantleError::MemoryNotBound),
        GR_RESULT::GR_ERROR_INCOMPATIBLE_QUEUE => Some(MantleError::IncompatibleQueue),
        GR_RESULT::GR_ERROR_NOT_SHAREABLE => Some(MantleError::NotShareable),
    }
}

/// The result code that reports an error.
pub open spec fn result_of_error(e: MantleError) -> GR_RESULT {
    match e {
        MantleError::Unknown => GR_RESULT::GR_ERROR_UNKNOW,
        MantleError::Unavailable => GR_RESULT::GR_ERROR_UNAVAILABLE,
        MantleError::InitializationFailed => GR_RESULT::GR_ERROR_INITIALIZATION_FAILED,
        MantleError::OutOfMemory => GR_RESULT::GR_ERROR_OUT_OF_MEMORY,
        MantleError::OutOfGpuMemory => GR_RESULT::GR_ERROR_OUT_OF_GPU_MEMORY,
        MantleError::DeviceAlreadyCreated => GR_RESULT::GR_ERROR_DEVICE_ALREADY_CREATED,
        MantleError::DeviceLost => GR_RESULT::GR_ERROR_DEVICE_LOST,
        MantleError::InvalidPointer => GR_RESULT::GR_ERROR_INVALID_POINTER,
        MantleError::InvalidValue => GR_RESULT::GR_ERROR_INVALID_VALUE,
        MantleError::InvalidHandle => GR_RESULT::GR_ERROR_INVALID_HANDLE,
        MantleError::InvalidOrdinal => GR_RESULT::GR_ERROR_INVALID_ORDINAL,
        MantleError::InvalidMemorySize => GR_RESULT::GR_ERROR_INVALID_MEMORY_SIZE,
        MantleError::InvalidExtension => GR_RESULT::GR_ERROR_INVALID_EXTENSION,
        MantleError::InvalidFlags => GR_RESULT::GR_ERROR_INVALID_FLAGS,
        MantleError::InvalidAlignment => GR_RESULT::GR_ERROR_INVALID_ALIGNMENT,
        MantleError::InvalidFormat => GR_RESULT::GR_ERROR_INVALID_FORMAT,
        MantleError::InvalidImage => GR_RESULT::GR_ERROR_INVALID_IMAGE,
        MantleError::InvalidDescriptorSetData => GR_RESULT::GR_ERROR_INVALID_DESCRIPTOR_SET_DATA,
        MantleError::InvalidQueueType => GR_RESULT::GR_ERROR_INVALID_QUEUE_TYPE,
        MantleError::InvalidObjectType => GR_RESULT::GR_ERROR_INVALID_OBJECT_TYPE,
        MantleError::UnsupportedShaderIlVersion => GR_RESULT::GR_ERROR_UNSUPPORTED_SHADER_IL_VERSION,
        MantleError::BadShaderCode => GR_RESULT::GR_ERROR_BAD_SHADER_CODE,
        MantleError::BadPipelineData => GR_RESULT::GR_ERROR_BAD_PIPELINE_DATA,
        MantleError::TooManyMemoryReferences => GR_RESULT::GR_ERROR_TOO_MANY_MEMORY_REFERENCES,
        MantleError::NotMappable => GR_RESULT::GR_ERROR_NOT_MAPPABLE,
        MantleError::MemoryMapFailed => GR_RESULT::GR_ERROR_MEMORY_MAP_FAILED,
        MantleError::MemoryUnmapFailed => GR_RESULT::GR_ERROR_MEMORY_UNMAP_FAILED,
        MantleError::IncompatibleDevice => GR_RESULT::GR_ERROR_INCOMPATIBLE_DEVICE,
        MantleError::IncompatibleDriver => GR_RESULT::GR_ERROR_INCOMPATIBLE_DRIVER,
        MantleError::IncompleteCommandBuffer => GR_RESULT::GR_ERROR_INCOMPLETE_COMMAND_BUFFER,
        MantleError::BuildingCommandBuffer => GR_RESULT::GR_ERROR_BUILDING_COMMAND_BUFFER,
        MantleError::MemoryNotBound => GR_RESULT::GR_ERROR_MEMORY_NOT_BOUND,
        MantleError::IncompatibleQueue => GR_RESULT::GR_ERROR_INCOMPATIBLE_QUEUE,
        MantleError::NotShareable => GR_RESULT::GR_ERROR_NOT_SHAREABLE,
    }
}

/// What checking a result gives: `Ok` for success, the reported error for
/// an error code.
pub open spec fn checked(value: GR_RESULT) -> Result<(), MantleError> {
    if value == GR_RESULT::GR_SUCCESS {
        Ok(())
    } else {
        Err(error_of(value).unwrap())
    }
}

/// The results that `check_result` accepts: success, and every error code.
/// The other status codes (`GR_UNSUPPORTED`, `GR_NOT_READY`, `GR_TIMEOUT`,
/// `GR_EVENT_SET`, `GR_EVENT_RESET`) are not answers that a checked call
/// may give.
pub open spec fn is_checkable(value: GR_RESULT) -> bool {
    value == GR_RESULT::GR_SUCCESS || is_error_result(value)
}

/// Checks a result returned by the driver: success gives `Ok`, an error
/// code gives the matching `MantleError`.
pub fn check_result(value: GR_RESULT) -> (res: Result<(), MantleError>)
    requires
        is_checkable(value),
    ensures
        res == checked(value),
{
    match value {
        GR_RESULT::GR_SUCCESS => Ok(()),
            GR_RESULT::GR_ERROR_UNKNOW => Err(MantleError::Unknown),
            GR_RESULT::GR_ERROR_UNAVAILABLE => Err(MantleError::Unavailable),
            GR_RESULT::GR_ERROR_INITIALIZATION_FAILED => Err(MantleError::InitializationFailed),
            GR_RESULT::GR_ERROR_OUT_OF_MEMORY => Err(MantleError::OutOfMemory),
            GR_RESULT::GR_ERROR_OUT_OF_GPU_MEMORY => Err(MantleError::OutOfGpuMemory),
            GR_RESULT::GR_ERROR_DEVICE_ALREADY_CREATED => Err(MantleError::DeviceAlreadyCreated),
            GR_RESULT::GR_ERROR_DEVICE_LOST => Err(MantleError::DeviceLost),
            GR_RESULT::GR_ERROR_INVALID_POINTER => Err(MantleError::InvalidPointer),
            GR_RESULT::GR_ERROR_INVALID_VALUE => Err(MantleError::InvalidValue),
            GR_RESULT::GR_ERROR_INVALID_HANDLE => Err(MantleError::InvalidHandle),
            GR_RESULT::GR_ERROR_INVALID_ORDINAL => Err(MantleError::InvalidOrdinal),
            GR_RESULT::GR_ERROR_INVALID_MEMORY_SIZE => Err(MantleError::InvalidMemorySize),
            GR_RESULT::GR_ERROR_INVALID_EXTENSION => Err(MantleError::InvalidExtension),
            GR_RESULT::GR_ERROR_INVALID_FLAGS => Err(MantleError::InvalidFlags),
            GR_RESULT::GR_ERROR_INVALID_ALIGNMENT => Err(MantleError::InvalidAlignment),
            GR_RESULT::GR_ERROR_INVALID_FORMAT => Err(MantleError::InvalidFormat),
            GR_RESULT::GR_ERROR_INVALID_IMAGE => Err(MantleError::InvalidImage),
            GR_RESULT::GR_ERROR_INVALID_DESCRIPTOR_SET_DATA => Err(MantleError::InvalidDescriptorSetData),
            GR_RESULT::GR_ERROR_INVALID_QUEUE_TYPE => Err(MantleError::InvalidQueueType),
            GR_RESULT::GR_ERROR_INVALID_OBJECT_TYPE => Err(MantleError::InvalidObjectType),
            GR_RESULT::GR_ERROR_UNSUPPORTED_SHADER_IL_VERSION => Err(MantleError::UnsupportedShaderIlVersion),
            GR_RESULT::GR_ERROR_BAD_SHADER_CODE => Err(MantleError::BadShaderCode),
            GR_RESULT::GR_ERROR_BAD_PIPELINE_DATA => Err(MantleError::BadPipelineData),
            GR_RESULT::GR_ERROR_TOO_MANY_MEMORY_REFERENCES => Err(MantleError::TooManyMemoryReferences),
            GR_RESULT::GR_ERROR_NOT_MAPPABLE => Err(MantleError::NotMappable),
            GR_RESULT::GR_ERROR_MEMORY_MAP_FAILED => Err(MantleError::MemoryMapFailed),
            GR_RESULT::GR_ERROR_MEMORY_UNMAP_FAILED => Err(MantleError::MemoryUnmapFailed),
            GR_RESULT::GR_ERROR_INCOMPATIBLE_DEVICE => Err(MantleError::IncompatibleDevice),
            GR_RESULT::GR_ERROR_INCOMPATIBLE_DRIVER => Err(MantleError::IncompatibleDriver),
            GR_RESULT::GR_ERROR_INCOMPLETE_COMMAND_BUFFER => Err(MantleError::IncompleteCommandBuffer),
            GR_RESULT::GR_ERROR_BUILDING_COMMAND_BUFFER => Err(MantleError::BuildingCommandBuffer),
            GR_RESULT::GR_ERROR_MEMORY_NOT_BOUND => Err(MantleError::MemoryNotBound),
            GR_RESULT::GR_ERROR_INCOMPATIBLE_QUEUE => Err(MantleError::IncompatibleQueue),
            GR_RESULT::GR_ERROR_NOT_SHAREABLE => Err(MantleError::NotShareable),
        _ => Err(MantleError::Unknown),
    }
}

/// Whether `check_result` accepts a result (success or an error code).
pub fn is_checkable_result(value: GR_RESULT) -> (b: bool)
    ensures
        b == is_checkable(value),
{
    value == GR_RESULT::GR_SUCCESS || value.is_error()
}

/// The error codes and the errors correspond one to one: a code reports an
/// error exactly when it is an error code, each error is reported by its
/// own code, and by no other.
pub proof fn lemma_error_codes_correspond(r: GR_RESULT, e: MantleError)
    ensures
        error_of(r).is_some() <==> is_error_result(r),
        error_of(result_of_error(e)) == Some(e),
        error_of(r) == Some(e) <==> r == result_of_error(e),
{
}

/// Checking succeeds exactly on `GR_SUCCESS`, and an error code gives
/// back the error that it reports.
pub proof fn lemma_checked_outcomes(value: GR_RESULT, e: MantleError)
    requires
        is_checkable(value),
    ensures
        checked(value) is Ok <==> value == GR_RESULT::GR_SUCCESS,
        checked(result_of_error(e)) == Err::<(), MantleError>(e),
{
}

} // verus!
