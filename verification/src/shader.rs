//! Shaders compiled by the driver from their intermediate code.
use vstd::prelude::*;

use crate::device::Device;
use crate::ffi::{GR_DEVICE, GR_RESULT, GR_SHADER, GR_SHADER_CREATE_INFO};
use crate::object::ObjectDestruction;

verus! {

pub struct Shader {
    shader: GR_SHADER,
}

impl Shader {
    pub closed spec fn handle(&self) -> GR_SHADER {
        self.shader
    }

    /// Creates a shader from its code. The one call creates the shader.
    pub fn new(device: &Device, source: &[u8]) -> (c: ShaderCreation)
        ensures
            c.device() == device.handle(),
            c.code() == source@,
    {
        ShaderCreation { device: device.get_id(), code: vstd::slice::slice_to_vec(source) }
    }

    pub fn get_id(&self) -> (id: GR_SHADER)
        ensures
            id == self.handle(),
    {
        self.shader
    }

    /// Starts the destruction of the shader: the one call destroys it.
    pub fn release(self) -> (d: ObjectDestruction)
        ensures
            d.object() == self.handle(),
    {
        ObjectDestruction::new(self.shader)
    }
}

/// The creation of a shader.
pub struct ShaderCreation {
    device: GR_DEVICE,
    code: Vec<u8>,
}

impl ShaderCreation {
    pub closed spec fn device(&self) -> GR_DEVICE {
        self.device
    }

    pub closed spec fn code(&self) -> Seq<u8> {
        self.code@
    }

    pub fn get_device(&self) -> (d: GR_DEVICE)
        ensures
            d == self.device(),
    {
        self.device
    }

    /// The description of the shader: its code, the size of the code, no
    /// flags.
    pub fn create_info(&self) -> (info: GR_SHADER_CREATE_INFO)
        ensures
            info.codeSize == self.code().len(),
            info.pCode@ == self.code(),
            info.flags == 0,
    {
        GR_SHADER_CREATE_INFO { codeSize: self.code.len(), pCode: self.code.clone(), flags: 0 }
    }

    /// Finishes after the success of the creation and the shader it wrote.
    pub fn resume(self, result: GR_RESULT, shader: GR_SHADER) -> (r: Shader)
        requires
            result == GR_RESULT::GR_SUCCESS,
        ensures
            r.handle() == shader,
    {
        Shader { shader }
    }
}

} // verus!
