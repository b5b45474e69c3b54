//! Plain-value model of the driver's interface: handle types, the codes of
//! its enumerations, and the descriptions that the library hands to its
//! entry points. Pointers of the C interface are held here as the values
//! they point to.
#![allow(non_camel_case_types)]
#![allow(non_snake_case)]

use vstd::prelude::*;

verus! {

pub type GR_CHAR = i8;

pub type GR_INT = i32;

pub type GR_UINT = u32;

pub type GR_UINT32 = u32;

pub type GR_SIZE = usize;

pub type GR_ENUM = u32;

pub type GR_FLAGS = u32;

pub type GR_GPU_SIZE = u64;

pub type GR_PHYSICAL_GPU = u64;

pub type GR_DEVICE = u64;

pub type GR_WSI_WIN_DISPLAY = u64;

pub type GR_IMAGE = u64;

pub type GR_GPU_MEMORY = u64;

pub type GR_QUEUE = u64;

pub type GR_CMD_BUFFER = u64;

pub type GR_FENCE = u64;

pub type GR_SHADER = u64;

/// A window, held as the address of its handle.
pub type GR_WINDOW = usize;

pub const GR_MAX_PHYSICAL_GPUS: usize = 4;

pub const GR_API_VERSION: u32 = 1;

/// Status and error codes that the driver's entry points return.
///
/// The numeric value that the driver uses for each code is given by
/// `result_code`; `GR_RESULT::from_code` reads a raw value back.
#[allow(non_camel_case_types)]
#[derive(Debug, Clone, Copy, PartialEq, Eq, Structural)]
pub enum GR_RESULT {
    GR_SUCCESS,
    GR_UNSUPPORTED,
    GR_NOT_READY,
    GR_TIMEOUT,
    GR_EVENT_SET,
    GR_EVENT_RESET,
    GR_ERROR_UNKNOW,
    GR_ERROR_UNAVAILABLE,
    GR_ERROR_INITIALIZATION_FAILED,
    GR_ERROR_OUT_OF_MEMORY,
    GR_ERROR_OUT_OF_GPU_MEMORY,
    GR_ERROR_DEVICE_ALREADY_CREATED,
    GR_ERROR_DEVICE_LOST,
    GR_ERROR_INVALID_POINTER,
    GR_ERROR_INVALID_VALUE,
    GR_ERROR_INVALID_HANDLE,
    GR_ERROR_INVALID_ORDINAL,
    GR_ERROR_INVALID_MEMORY_SIZE,
    GR_ERROR_INVALID_EXTENSION,
    GR_ERROR_INVALID_FLAGS,
    GR_ERROR_INVALID_ALIGNMENT,
    GR_ERROR_INVALID_FORMAT,
    GR_ERROR_INVALID_IMAGE,
    GR_ERROR_INVALID_DESCRIPTOR_SET_DATA,
    GR_ERROR_INVALID_QUEUE_TYPE,
    GR_ERROR_INVALID_OBJECT_TYPE,
    GR_ERROR_UNSUPPORTED_SHADER_IL_VERSION,
    GR_ERROR_BAD_SHADER_CODE,
    GR_ERROR_BAD_PIPELINE_DATA,
    GR_ERROR_TOO_MANY_MEMORY_REFERENCES,
    GR_ERROR_NOT_MAPPABLE,
    GR_ERROR_MEMORY_MAP_FAILED,
    GR_ERROR_MEMORY_UNMAP_FAILED,
    GR_ERROR_INCOMPATIBLE_DEVICE,
    GR_ERROR_INCOMPATIBLE_DRIVER,
    GR_ERROR_INCOMPLETE_COMMAND_BUFFER,
    GR_ERROR_BUILDING_COMMAND_BUFFER,
    GR_ERROR_MEMORY_NOT_BOUND,
    GR_ERROR_INCOMPATIBLE_QUEUE,
    GR_ERROR_NOT_SHAREABLE,
}

/// The numeric value of a result code, as the driver writes it.
pub open spec fn result_code(r: GR_RESULT) -> u32 {
    match r {
        GR_RESULT::GR_SUCCESS => 0x10000,
        GR_RESULT::GR_UNSUPPORTED => 0x10001,
        GR_RESULT::GR_NOT_READY => 0x10002,
        GR_RESULT::GR_TIMEOUT => 0x10003,
        GR_RESULT::GR_EVENT_SET => 0x10004,
        GR_RESULT::GR_EVENT_RESET => 0x10005,
        GR_RESULT::GR_ERROR_UNKNOW => 0x11000,
        GR_RESULT::GR_ERROR_UNAVAILABLE => 0x11001,
        GR_RESULT::GR_ERROR_INITIALIZATION_FAILED => 0x11002,
        GR_RESULT::GR_ERROR_OUT_OF_MEMORY => 0x11003,
        GR_RESULT::GR_ERROR_OUT_OF_GPU_MEMORY => 0x11004,
        GR_RESULT::GR_ERROR_DEVICE_ALREADY_CREATED => 0x11005,
        GR_RESULT::GR_ERROR_DEVICE_LOST => 0x11006,
        GR_RESULT::GR_ERROR_INVALID_POINTER => 0x11007,
        GR_RESULT::GR_ERROR_INVALID_VALUE => 0x11008,
        GR_RESULT::GR_ERROR_INVALID_HANDLE => 0x11009,
        GR_RESULT::GR_ERROR_INVALID_ORDINAL => 0x1100a,
        GR_RESULT::GR_ERROR_INVALID_MEMORY_SIZE => 0x1100b,
        GR_RESULT::GR_ERROR_INVALID_EXTENSION => 0x1100c,
        GR_RESULT::GR_ERROR_INVALID_FLAGS => 0x1100d,
        GR_RESULT::GR_ERROR_INVALID_ALIGNMENT => 0x1100e,
        GR_RESULT::GR_ERROR_INVALID_FORMAT => 0x1100f,
        GR_RESULT::GR_ERROR_INVALID_IMAGE => 0x11010,
        GR_RESULT::GR_ERROR_INVALID_DESCRIPTOR_SET_DATA => 0x11011,
        GR_RESULT::GR_ERROR_INVALID_QUEUE_TYPE => 0x11012,
        GR_RESULT::GR_ERROR_INVALID_OBJECT_TYPE => 0x11013,
        GR_RESULT::GR_ERROR_UNSUPPORTED_SHADER_IL_VERSION => 0x11014,
        GR_RESULT::GR_ERROR_BAD_SHADER_CODE => 0x11015,
        GR_RESULT::GR_ERROR_BAD_PIPELINE_DATA => 0x11016,
        GR_RESULT::GR_ERROR_TOO_MANY_MEMORY_REFERENCES => 0x11017,
        GR_RESULT::GR_ERROR_NOT_MAPPABLE => 0x11018,
        GR_RESULT::GR_ERROR_MEMORY_MAP_FAILED => 0x11019,
        GR_RESULT::GR_ERROR_MEMORY_UNMAP_FAILED => 0x1101a,
        GR_RESULT::GR_ERROR_INCOMPATIBLE_DEVICE => 0x1101b,
        GR_RESULT::GR_ERROR_INCOMPATIBLE_DRIVER => 0x1101c,
        GR_RESULT::GR_ERROR_INCOMPLETE_COMMAND_BUFFER => 0x1101d,
        GR_RESULT::GR_ERROR_BUILDING_COMMAND_BUFFER => 0x1101e,
        GR_RESULT::GR_ERROR_MEMORY_NOT_BOUND => 0x1101f,
        GR_RESULT::GR_ERROR_INCOMPATIBLE_QUEUE => 0x11020,
        GR_RESULT::GR_ERROR_NOT_SHAREABLE => 0x11021,
    }
}

/// The result code whose numeric value is `c`, if there is one.
pub open spec fn result_from_code(c: u32) -> Option<GR_RESULT> {
        if c == 0x10000 {
            Some(GR_RESULT::GR_SUCCESS)
        } else if c == 0x10001 {
            Some(GR_RESULT::GR_UNSUPPORTED)
        } else if c == 0x10002 {
            Some(GR_RESULT::GR_NOT_READY)
        } else if c == 0x10003 {
            Some(GR_RESULT::GR_TIMEOUT)
        } else if c == 0x10004 {
            Some(GR_RESULT::GR_EVENT_SET)
        } else if c == 0x10005 {
            Some(GR_RESULT::GR_EVENT_RESET)
        } else if c == 0x11000 {
            Some(GR_RESULT::GR_ERROR_UNKNOW)
        } else if c == 0x11001 {
            Some(GR_RESULT::GR_ERROR_UNAVAILABLE)
        } else if c == 0x11002 {
            Some(GR_RESULT::GR_ERROR_INITIALIZATION_FAILED)
        } else if c == 0x11003 {
            Some(GR_RESULT::GR_ERROR_OUT_OF_MEMORY)
        } else if c == 0x11004 {
            Some(GR_RESULT::GR_ERROR_OUT_OF_GPU_MEMORY)
        } else if c == 0x11005 {
            Some(GR_RESULT::GR_ERROR_DEVICE_ALREADY_CREATED)
        } else if c == 0x11006 {
            Some(GR_RESULT::GR_ERROR_DEVICE_LOST)
        } else if c == 0x11007 {
            Some(GR_RESULT::GR_ERROR_INVALID_POINTER)
        } else if c == 0x11008 {
            Some(GR_RESULT::GR_ERROR_INVALID_VALUE)
        } else if c == 0x11009 {
            Some(GR_RESULT::GR_ERROR_INVALID_HANDLE)
        } else if c == 0x1100a {
            Some(GR_RESULT::GR_ERROR_INVALID_ORDINAL)
        } else if c == 0x1100b {
            Some(GR_RESULT::GR_ERROR_INVALID_MEMORY_SIZE)
        } else if c == 0x1100c {
            Some(GR_RESULT::GR_ERROR_INVALID_EXTENSION)
        } else if c == 0x1100d {
            Some(GR_RESULT::GR_ERROR_INVALID_FLAGS)
        } else if c == 0x1100e {
            Some(GR_RESULT::GR_ERROR_INVALID_ALIGNMENT)
        } else if c == 0x1100f {
            Some(GR_RESULT::GR_ERROR_INVALID_FORMAT)
        } else if c == 0x11010 {
            Some(GR_RESULT::GR_ERROR_INVALID_IMAGE)
        } else if c == 0x11011 {
            Some(GR_RESULT::GR_ERROR_INVALID_DESCRIPTOR_SET_DATA)
        } else if c == 0x11012 {
            Some(GR_RESULT::GR_ERROR_INVALID_QUEUE_TYPE)
        } else if c == 0x11013 {
            Some(GR_RESULT::GR_ERROR_INVALID_OBJECT_TYPE)
        } else if c == 0x11014 {
            Some(GR_RESULT::GR_ERROR_UNSUPPORTED_SHADER_IL_VERSION)
        } else if c == 0x11015 {
            Some(GR_RESULT::GR_ERROR_BAD_SHADER_CODE)
        } else if c == 0x11016 {
            Some(GR_RESULT::GR_ERROR_BAD_PIPELINE_DATA)
        } else if c == 0x11017 {
            Some(GR_RESULT::GR_ERROR_TOO_MANY_MEMORY_REFERENCES)
        } else if c == 0x11018 {
            Some(GR_RESULT::GR_ERROR_NOT_MAPPABLE)
        } else if c == 0x11019 {
            Some(GR_RESULT::GR_ERROR_MEMORY_MAP_FAILED)
        } else if c == 0x1101a {
            Some(GR_RESULT::GR_ERROR_MEMORY_UNMAP_FAILED)
        } else if c == 0x1101b {
            Some(GR_RESULT::GR_ERROR_INCOMPATIBLE_DEVICE)
        } else if c == 0x1101c {
            Some(GR_RESULT::GR_ERROR_INCOMPATIBLE_DRIVER)
        } else if c == 0x1101d {
            Some(GR_RESULT::GR_ERROR_INCOMPLETE_COMMAND_BUFFER)
        } else if c == 0x1101e {
            Some(GR_RESULT::GR_ERROR_BUILDING_COMMAND_BUFFER)
        } else if c == 0x1101f {
            Some(GR_RESULT::GR_ERROR_MEMORY_NOT_BOUND)
        } else if c == 0x11020 {
            Some(GR_RESULT::GR_ERROR_INCOMPATIBLE_QUEUE)
        } else if c == 0x11021 {
            Some(GR_RESULT::GR_ERROR_NOT_SHAREABLE)
        } else {
            None
        }
}

/// Error codes are the block that starts at `GR_ERROR_UNKNOW`; the codes
/// below it report a status that is not a failure.
pub open spec fn is_error_result(r: GR_RESULT) -> bool {
    result_code(r) >= 0x11000
}

impl GR_RESULT {
    /// The numeric value of this code.
    pub fn code(&self) -> (c: u32)
        ensures
            c == result_code(*self),
    {
        match self {
            GR_RESULT::GR_SUCCESS => 0x10000,
            GR_RESULT::GR_UNSUPPORTED => 0x10001,
            GR_RESULT::GR_NOT_READY => 0x10002,
            GR_RESULT::GR_TIMEOUT => 0x10003,
            GR_RESULT::GR_EVENT_SET => 0x10004,
            GR_RESULT::GR_EVENT_RESET => 0x10005,
            GR_RESULT::GR_ERROR_UNKNOW => 0x11000,
            GR_RESULT::GR_ERROR_UNAVAILABLE => 0x11001,
            GR_RESULT::GR_ERROR_INITIALIZATION_FAILED => 0x11002,
            GR_RESULT::GR_ERROR_OUT_OF_MEMORY => 0x11003,
            GR_RESULT::GR_ERROR_OUT_OF_GPU_MEMORY => 0x11004,
            GR_RESULT::GR_ERROR_DEVICE_ALREADY_CREATED => 0x11005,
            GR_RESULT::GR_ERROR_DEVICE_LOST => 0x11006,
            GR_RESULT::GR_ERROR_INVALID_POINTER => 0x11007,
            GR_RESULT::GR_ERROR_INVALID_VALUE => 0x11008,
            GR_RESULT::GR_ERROR_INVALID_HANDLE => 0x11009,
            GR_RESULT::GR_ERROR_INVALID_ORDINAL => 0x1100a,
            GR_RESULT::GR_ERROR_INVALID_MEMORY_SIZE => 0x1100b,
            GR_RESULT::GR_ERROR_INVALID_EXTENSION => 0x1100c,
            GR_RESULT::GR_ERROR_INVALID_FLAGS => 0x1100d,
            GR_RESULT::GR_ERROR_INVALID_ALIGNMENT => 0x1100e,
            GR_RESULT::GR_ERROR_INVALID_FORMAT => 0x1100f,
            GR_RESULT::GR_ERROR_INVALID_IMAGE => 0x11010,
            GR_RESULT::GR_ERROR_INVALID_DESCRIPTOR_SET_DATA => 0x11011,
            GR_RESULT::GR_ERROR_INVALID_QUEUE_TYPE => 0x11012,
            GR_RESULT::GR_ERROR_INVALID_OBJECT_TYPE => 0x11013,
            GR_RESULT::GR_ERROR_UNSUPPORTED_SHADER_IL_VERSION => 0x11014,
            GR_RESULT::GR_ERROR_BAD_SHADER_CODE => 0x11015,
            GR_RESULT::GR_ERROR_BAD_PIPELINE_DATA => 0x11016,
            GR_RESULT::GR_ERROR_TOO_MANY_MEMORY_REFERENCES => 0x11017,
            GR_RESULT::GR_ERROR_NOT_MAPPABLE => 0x11018,
            GR_RESULT::GR_ERROR_MEMORY_MAP_FAILED => 0x11019,
            GR_RESULT::GR_ERROR_MEMORY_UNMAP_FAILED => 0x1101a,
            GR_RESULT::GR_ERROR_INCOMPATIBLE_DEVICE => 0x1101b,
            GR_RESULT::GR_ERROR_INCOMPATIBLE_DRIVER => 0x1101c,
            GR_RESULT::GR_ERROR_INCOMPLETE_COMMAND_BUFFER => 0x1101d,
            GR_RESULT::GR_ERROR_BUILDING_COMMAND_BUFFER => 0x1101e,
            GR_RESULT::GR_ERROR_MEMORY_NOT_BOUND => 0x1101f,
            GR_RESULT::GR_ERROR_INCOMPATIBLE_QUEUE => 0x11020,
            GR_RESULT::GR_ERROR_NOT_SHAREABLE => 0x11021,
        }
    }

    /// Reads a raw value returned by the driver.
    pub fn from_code(c: u32) -> (r: Option<GR_RESULT>)
        ensures
            r == result_from_code(c),
    {
        if c == 0x10000 {
            Some(GR_RESULT::GR_SUCCESS)
        } else if c == 0x10001 {
            Some(GR_RESULT::GR_UNSUPPORTED)
        } else if c == 0x10002 {
            Some(GR_RESULT::GR_NOT_READY)
        } else if c == 0x10003 {
            Some(GR_RESULT::GR_TIMEOUT)
        } else if c == 0x10004 {
            Some(GR_RESULT::GR_EVENT_SET)
        } else if c == 0x10005 {
            Some(GR_RESULT::GR_EVENT_RESET)
        } else if c == 0x11000 {
            Some(GR_RESULT::GR_ERROR_UNKNOW)
        } else if c == 0x11001 {
            Some(GR_RESULT::GR_ERROR_UNAVAILABLE)
        } else if c == 0x11002 {
            Some(GR_RESULT::GR_ERROR_INITIALIZATION_FAILED)
        } else if c == 0x11003 {
            Some(GR_RESULT::GR_ERROR_OUT_OF_MEMORY)
        } else if c == 0x11004 {
            Some(GR_RESULT::GR_ERROR_OUT_OF_GPU_MEMORY)
        } else if c == 0x11005 {
            Some(GR_RESULT::GR_ERROR_DEVICE_ALREADY_CREATED)
        } else if c == 0x11006 {
            Some(GR_RESULT::GR_ERROR_DEVICE_LOST)
        } else if c == 0x11007 {
            Some(GR_RESULT::GR_ERROR_INVALID_POINTER)
        } else if c == 0x11008 {
            Some(GR_RESULT::GR_ERROR_INVALID_VALUE)
        } else if c == 0x11009 {
            Some(GR_RESULT::GR_ERROR_INVALID_HANDLE)
        } else if c == 0x1100a {
            Some(GR_RESULT::GR_ERROR_INVALID_ORDINAL)
        } else if c == 0x1100b {
            Some(GR_RESULT::GR_ERROR_INVALID_MEMORY_SIZE)
        } else if c == 0x1100c {
            Some(GR_RESULT::GR_ERROR_INVALID_EXTENSION)
        } else if c == 0x1100d {
            Some(GR_RESULT::GR_ERROR_INVALID_FLAGS)
        } else if c == 0x1100e {
            Some(GR_RESULT::GR_ERROR_INVALID_ALIGNMENT)
        } else if c == 0x1100f {
            Some(GR_RESULT::GR_ERROR_INVALID_FORMAT)
        } else if c == 0x11010 {
            Some(GR_RESULT::GR_ERROR_INVALID_IMAGE)
        } else if c == 0x11011 {
            Some(GR_RESULT::GR_ERROR_INVALID_DESCRIPTOR_SET_DATA)
        } else if c == 0x11012 {
            Some(GR_RESULT::GR_ERROR_INVALID_QUEUE_TYPE)
        } else if c == 0x11013 {
            Some(GR_RESULT::GR_ERROR_INVALID_OBJECT_TYPE)
        } else if c == 0x11014 {
            Some(GR_RESULT::GR_ERROR_UNSUPPORTED_SHADER_IL_VERSION)
        } else if c == 0x11015 {
            Some(GR_RESULT::GR_ERROR_BAD_SHADER_CODE)
        } else if c == 0x11016 {
            Some(GR_RESULT::GR_ERROR_BAD_PIPELINE_DATA)
        } else if c == 0x11017 {
            Some(GR_RESULT::GR_ERROR_TOO_MANY_MEMORY_REFERENCES)
        } else if c == 0x11018 {
            Some(GR_RESULT::GR_ERROR_NOT_MAPPABLE)
        } else if c == 0x11019 {
            Some(GR_RESULT::GR_ERROR_MEMORY_MAP_FAILED)
        } else if c == 0x1101a {
            Some(GR_RESULT::GR_ERROR_MEMORY_UNMAP_FAILED)
        } else if c == 0x1101b {
            Some(GR_RESULT::GR_ERROR_INCOMPATIBLE_DEVICE)
        } else if c == 0x1101c {
            Some(GR_RESULT::GR_ERROR_INCOMPATIBLE_DRIVER)
        } else if c == 0x1101d {
            Some(GR_RESULT::GR_ERROR_INCOMPLETE_COMMAND_BUFFER)
        } else if c == 0x1101e {
            Some(GR_RESULT::GR_ERROR_BUILDING_COMMAND_BUFFER)
        } else if c == 0x1101f {
            Some(GR_RESULT::GR_ERROR_MEMORY_NOT_BOUND)
        } else if c == 0x11020 {
            Some(GR_RESULT::GR_ERROR_INCOMPATIBLE_QUEUE)
        } else if c == 0x11021 {
            Some(GR_RESULT::GR_ERROR_NOT_SHAREABLE)
        } else {
            None
        }
    }

    /// Whether this code reports a failure (one of the `GR_ERROR_*` codes).
    pub fn is_error(&self) -> (b: bool)
        ensures
            b == is_error_result(*self),
    {
        self.code() >= 0x11000
    }
}

/// Reading back the value of a code gives the code itself.
pub proof fn lemma_result_code_roundtrip(r: GR_RESULT)
    ensures
        result_from_code(result_code(r)) == Some(r),
{
}

/// A raw value is read as a code exactly when that code has this value:
/// no two codes share a value, and values that belong to no code are refused.
pub proof fn lemma_result_from_code_exact(c: u32, r: GR_RESULT)
    ensures
        result_from_code(c) == Some(r) <==> result_code(r) == c,
{
}

/// Kinds of queues.
#[derive(Debug, Clone, Copy, PartialEq, Eq, Structural)]
pub enum GR_QUEUE_TYPE {
    GR_QUEUE_UNIVERSAL,
    GR_QUEUE_COMPUTE,
}

/// The numeric value of a queue type.
pub open spec fn queue_type_code(q: GR_QUEUE_TYPE) -> u32 {
    match q {
        GR_QUEUE_TYPE::GR_QUEUE_UNIVERSAL => 0x1000,
        GR_QUEUE_TYPE::GR_QUEUE_COMPUTE => 0x1001,
    }
}

/// The queue type whose numeric value is `c`, if there is one.
pub open spec fn queue_type_from_code(c: u32) -> Option<GR_QUEUE_TYPE> {
    if c == 0x1000 {
        Some(GR_QUEUE_TYPE::GR_QUEUE_UNIVERSAL)
    } else if c == 0x1001 {
        Some(GR_QUEUE_TYPE::GR_QUEUE_COMPUTE)
    } else {
        None
    }
}

impl GR_QUEUE_TYPE {
    pub fn code(&self) -> (c: u32)
        ensures
            c == queue_type_code(*self),
    {
        match self {
            GR_QUEUE_TYPE::GR_QUEUE_UNIVERSAL => 0x1000,
            GR_QUEUE_TYPE::GR_QUEUE_COMPUTE => 0x1001,
        }
    }

    pub fn from_code(c: u32) -> (q: Option<GR_QUEUE_TYPE>)
        ensures
            q == queue_type_from_code(c),
    {
        if c == 0x1000 {
            Some(GR_QUEUE_TYPE::GR_QUEUE_UNIVERSAL)
        } else if c == 0x1001 {
            Some(GR_QUEUE_TYPE::GR_QUEUE_COMPUTE)
        } else {
            None
        }
    }
}

/// A raw value is read as a queue type exactly when that type has this value.
pub proof fn lemma_queue_type_code_exact(c: u32, q: GR_QUEUE_TYPE)
    ensures
        queue_type_from_code(c) == Some(q) <==> queue_type_code(q) == c,
{
}

/// Validation levels, from none to the most thorough.
#[derive(Debug, Clone, Copy, PartialEq, Eq, Structural)]
pub enum GR_VALIDATION_LEVEL {
    GR_VALIDATION_LEVEL_0,
    GR_VALIDATION_LEVEL_1,
    GR_VALIDATION_LEVEL_2,
    GR_VALIDATION_LEVEL_3,
    GR_VALIDATION_LEVEL_4,
}

/// The numeric value of a validation level.
pub open spec fn validation_level_code(v: GR_VALIDATION_LEVEL) -> u32 {
    match v {
        GR_VALIDATION_LEVEL::GR_VALIDATION_LEVEL_0 => 0x8000,
        GR_VALIDATION_LEVEL::GR_VALIDATION_LEVEL_1 => 0x8001,
        GR_VALIDATION_LEVEL::GR_VALIDATION_LEVEL_2 => 0x8002,
        GR_VALIDATION_LEVEL::GR_VALIDATION_LEVEL_3 => 0x8003,
        GR_VALIDATION_LEVEL::GR_VALIDATION_LEVEL_4 => 0x8004,
    }
}

/// The validation level whose numeric value is `c`, if there is one.
pub open spec fn validation_level_from_code(c: u32) -> Option<GR_VALIDATION_LEVEL> {
    if c == 0x8000 {
        Some(GR_VALIDATION_LEVEL::GR_VALIDATION_LEVEL_0)
    } else if c == 0x8001 {
        Some(GR_VALIDATION_LEVEL::GR_VALIDATION_LEVEL_1)
    } else if c == 0x8002 {
        Some(GR_VALIDATION_LEVEL::GR_VALIDATION_LEVEL_2)
    } else if c == 0x8003 {
        Some(GR_VALIDATION_LEVEL::GR_VALIDATION_LEVEL_3)
    } else if c == 0x8004 {
        Some(GR_VALIDATION_LEVEL::GR_VALIDATION_LEVEL_4)
    } else {
        None
    }
}

impl GR_VALIDATION_LEVEL {
    pub fn code(&self) -> (c: u32)
        ensures
            c == validation_level_code(*self),
    {
        match self {
            GR_VALIDATION_LEVEL::GR_VALIDATION_LEVEL_0 => 0x8000,
            GR_VALIDATION_LEVEL::GR_VALIDATION_LEVEL_1 => 0x8001,
            GR_VALIDATION_LEVEL::GR_VALIDATION_LEVEL_2 => 0x8002,
            GR_VALIDATION_LEVEL::GR_VALIDATION_LEVEL_3 => 0x8003,
            GR_VALIDATION_LEVEL::GR_VALIDATION_LEVEL_4 => 0x8004,
        }
    }

    pub fn from_code(c: u32) -> (v: Option<GR_VALIDATION_LEVEL>)
        ensures
            v == validation_level_from_code(c),
    {
        if c == 0x8000 {
            Some(GR_VALIDATION_LEVEL::GR_VALIDATION_LEVEL_0)
        } else if c == 0x8001 {
            Some(GR_VALIDATION_LEVEL::GR_VALIDATION_LEVEL_1)
        } else if c == 0x8002 {
            Some(GR_VALIDATION_LEVEL::GR_VALIDATION_LEVEL_2)
        } else if c == 0x8003 {
            Some(GR_VALIDATION_LEVEL::GR_VALIDATION_LEVEL_3)
        } else if c == 0x8004 {
            Some(GR_VALIDATION_LEVEL::GR_VALIDATION_LEVEL_4)
        } else {
            None
        }
    }
}

/// A raw value is read as a validation level exactly when that level has
/// this value.
pub proof fn lemma_validation_level_code_exact(c: u32, v: GR_VALIDATION_LEVEL)
    ensures
        validation_level_from_code(c) == Some(v) <==> validation_level_code(v) == c,
{
}

/// States that an image can be in. Their numeric values belong to the
/// driver's headers, which this crate does not carry.
#[derive(Debug, Clone, Copy, PartialEq, Eq, Structural)]
pub enum GR_IMAGE_STATE {
    GR_IMAGE_STATE_UNINITIALIZED,
    GR_IMAGE_STATE_CLEAR,
    GR_WSI_WIN_IMAGE_STATE_PRESENT_WINDOWED,
}

/// Aspects of an image that a subresource range can cover.
#[derive(Debug, Clone, Copy, PartialEq, Eq, Structural)]
pub enum GR_IMAGE_ASPECT {
    GR_IMAGE_ASPECT_COLOR,
}

/// Priorities of a memory allocation.
#[derive(Debug, Clone, Copy, PartialEq, Eq, Structural)]
pub enum GR_MEMORY_PRIORITY {
    GR_MEMORY_PRIORITY_NORMAL,
}

/// Kinds of information that can be asked of a memory heap.
#[derive(Debug, Clone, Copy, PartialEq, Eq, Structural)]
pub enum GR_INFO_TYPE {
    GR_INFO_TYPE_MEMORY_HEAP_PROPERTIES,
}

/// Modes of presentation to a window.
#[derive(Debug, Clone, Copy, PartialEq, Eq, Structural)]
pub enum GR_WSI_WIN_PRESENT_MODE {
    GR_WSI_WIN_PRESENT_MODE_WINDOWED,
}

/// Options of device creation, one field per flag.
#[derive(Debug, Clone, Copy, PartialEq, Eq, Structural)]
pub struct GR_DEVICE_CREATE_FLAGS {
    /// `GR_DEVICE_CREATE_VALIDATION`
    pub validation: bool,
}

/// Uses of an image, one field per flag.
#[derive(Debug, Clone, Copy, PartialEq, Eq, Structural)]
pub struct GR_IMAGE_USAGE_FLAGS {
    /// `GR_IMAGE_USAGE_COLOR_TARGET`
    pub color_target: bool,
}

/// Options of command buffer recording, one field per flag.
#[derive(Debug, Clone, Copy, PartialEq, Eq, Structural)]
pub struct GR_CMD_BUFFER_BUILD_FLAGS {
    /// `GR_CMD_BUFFER_OPTIMIZE_ONE_TIME_SUBMIT`
    pub optimize_one_time_submit: bool,
}

/// Application description given at initialization; the names are C
/// strings without their terminator, `None` for a null pointer.
pub struct GR_APPLICATION_INFO {
    pub pAppName: Option<Vec<u8>>,
    pub appVersion: GR_UINT32,
    pub pEngineName: Option<Vec<u8>>,
    pub engineVersion: GR_UINT32,
    pub apiVersion: GR_UINT32,
}

/// Memory allocation callbacks, held as the addresses of the two functions.
#[derive(Debug, Clone, Copy, PartialEq, Eq, Structural)]
pub struct GR_ALLOC_CALLBACKS {
    pub pfnAlloc: usize,
    pub pfnFree: usize,
}

#[derive(Debug, Clone, Copy, PartialEq, Eq, Structural)]
pub struct GR_DEVICE_QUEUE_CREATE_INFO {
    pub queueType: GR_QUEUE_TYPE,
    pub queueCount: GR_UINT,
}

/// Device description; the requested queues and the extension names are
/// held as the arrays that the C structure points to.
pub struct GR_DEVICE_CREATE_INFO {
    pub queueRecordCount: GR_UINT,
    pub pRequestedQueues: Vec<GR_DEVICE_QUEUE_CREATE_INFO>,
    pub extensionCount: GR_UINT,
    pub ppEnabledExtensionNames: Vec<Vec<u8>>,
    pub maxValidationLevel: GR_VALIDATION_LEVEL,
    pub flags: GR_DEVICE_CREATE_FLAGS,
}

#[derive(Debug, Clone, Copy, PartialEq, Eq, Structural)]
pub struct GR_FORMAT {
    pub channelFormat: u16,
    pub numericFormat: u16,
}

#[derive(Debug, Clone, Copy, PartialEq, Eq, Structural)]
pub struct GR_EXTENT2D {
    pub width: GR_INT,
    pub height: GR_INT,
}

#[derive(Debug, Clone, Copy, PartialEq, Eq, Structural)]
pub struct GR_WSI_WIN_PRESENTABLE_IMAGE_CREATE_INFO {
    pub format: GR_FORMAT,
    pub usage: GR_IMAGE_USAGE_FLAGS,
    pub extent: GR_EXTENT2D,
    pub display: GR_WSI_WIN_DISPLAY,
    pub flags: GR_FLAGS,
}

/// The part of a heap's properties that the library reads.
#[derive(Debug, Clone, Copy, PartialEq, Eq, Structural)]
pub struct GR_MEMORY_HEAP_PROPERTIES {
    pub heapSize: GR_GPU_SIZE,
    pub pageSize: GR_GPU_SIZE,
}

#[derive(Debug, Clone, Copy)]
pub struct GR_MEMORY_ALLOC_INFO {
    pub size: GR_GPU_SIZE,
    pub alignment: GR_GPU_SIZE,
    pub flags: GR_FLAGS,
    pub heapCount: GR_UINT,
    pub heaps: [GR_UINT; 8],
    pub memPriority: GR_MEMORY_PRIORITY,
}

#[derive(Debug, Clone, Copy, PartialEq, Eq, Structural)]
pub struct GR_MEMORY_REF {
    pub mem: GR_GPU_MEMORY,
    pub flags: GR_FLAGS,
}

#[derive(Debug, Clone, Copy, PartialEq, Eq, Structural)]
pub struct GR_FENCE_CREATE_INFO {
    pub flags: GR_FLAGS,
}

#[derive(Debug, Clone, Copy, PartialEq, Eq, Structural)]
pub struct GR_CMD_BUFFER_CREATE_INFO {
    pub queueType: GR_QUEUE_TYPE,
    pub flags: GR_FLAGS,
}

#[derive(Debug, Clone, Copy, PartialEq, Eq, Structural)]
pub struct GR_IMAGE_SUBRESOURCE_RANGE {
    pub aspect: GR_IMAGE_ASPECT,
    pub baseMipLevel: GR_UINT,
    pub mipLevels: GR_UINT,
    pub baseArraySlice: GR_UINT,
    pub arraySize: GR_UINT,
}

#[derive(Debug, Clone, Copy, PartialEq, Eq, Structural)]
pub struct GR_IMAGE_STATE_TRANSITION {
    pub image: GR_IMAGE,
    pub oldState: GR_IMAGE_STATE,
    pub newState: GR_IMAGE_STATE,
    pub subresourceRange: GR_IMAGE_SUBRESOURCE_RANGE,
}

/// Shader description; the code is held as the bytes it points to.
pub struct GR_SHADER_CREATE_INFO {
    pub codeSize: GR_SIZE,
    pub pCode: Vec<u8>,
    pub flags: GR_FLAGS,
}

#[derive(Debug, Clone, Copy, PartialEq, Eq, Structural)]
pub struct GR_WSI_WIN_PRESENT_INFO {
    pub hWndDest: GR_WINDOW,
    pub srcImage: GR_IMAGE,
    pub presentMode: GR_WSI_WIN_PRESENT_MODE,
    pub presentInterval: GR_UINT,
    pub flags: GR_FLAGS,
}

/// The subresource range that covers the color aspect of the first mip
/// level of the first array slice.
pub open spec fn color_range_spec() -> GR_IMAGE_SUBRESOURCE_RANGE {
    GR_IMAGE_SUBRESOURCE_RANGE {
        aspect: GR_IMAGE_ASPECT::GR_IMAGE_ASPECT_COLOR,
        baseMipLevel: 0,
        mipLevels: 1,
        baseArraySlice: 0,
        arraySize: 1,
    }
}

/// The color range is the color aspect of exactly one subresource: mip
/// level 0 of array slice 0.
pub proof fn law_color_range()
    ensures
        color_range_spec().aspect == GR_IMAGE_ASPECT::GR_IMAGE_ASPECT_COLOR,
        color_range_spec().baseMipLevel == 0,
        color_range_spec().mipLevels == 1,
        color_range_spec().baseArraySlice == 0,
        color_range_spec().arraySize == 1,
{
}

pub fn color_range() -> (r: GR_IMAGE_SUBRESOURCE_RANGE)
    ensures
        r == color_range_spec(),
        r.aspect == GR_IMAGE_ASPECT::GR_IMAGE_ASPECT_COLOR,
        r.baseMipLevel == 0,
        r.mipLevels == 1,
        r.baseArraySlice == 0,
        r.arraySize == 1,
{
    GR_IMAGE_SUBRESOURCE_RANGE {
        aspect: GR_IMAGE_ASPECT::GR_IMAGE_ASPECT_COLOR,
        baseMipLevel: 0,
        mipLevels: 1,
        baseArraySlice: 0,
        arraySize: 1,
    }
}

} // verus!
