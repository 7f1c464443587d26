//! Drawing drivers: which GPU capability a driver needs from a build, and
//! the surface geometry it draws at.

use vstd::prelude::*;
use crate::capability::Capability;
use crate::config::BuildConfiguration;

verus! {

/// The OpenGL drawing driver. It renders on a GPU surface twice the
/// requested size, and needs a build with the OpenGL backend enabled.
#[derive(Clone, Copy, Debug, PartialEq, Eq, Hash, Structural)]
pub struct OpenGL;

impl OpenGL {
    /// The driver.
    pub fn new() -> (r: OpenGL)
        ensures
            r == OpenGL,
    {
        OpenGL
    }

    /// The driver's name.
    pub fn name(&self) -> (r: &'static str)
        ensures
            r@ == "opengl"@,
    {
        "opengl"
    }

    /// The capability a build must enable for this driver.
    pub fn required_capability(&self) -> (r: Capability)
        ensures
            r == Capability::Gl,
    {
        Capability::Gl
    }

    /// Whether a build configuration supports this driver.
    pub fn supported_by(&self, config: &BuildConfiguration) -> (r: bool)
        ensures
            r == config.capabilities.has(Capability::Gl),
    {
        config.capabilities.contains(Capability::Gl)
    }

    /// The backing surface dimensions for a requested drawing size: twice
    /// the size in each direction, for supersampled rendering.
    pub fn surface_dimensions(&self, width: i32, height: i32) -> (r: (i32, i32))
        requires
            0 <= width <= 0x3fffffff,
            0 <= height <= 0x3fffffff,
        ensures
            r.0 == 2 * width,
            r.1 == 2 * height,
    {
        (width * 2, height * 2)
    }
}

} // verus!
