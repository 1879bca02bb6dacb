//! Native API vocabulary: the OpenGL enum values the library speaks, and the
//! command type in which issued native calls are recorded.

use vstd::prelude::*;

verus! {

pub const GL_UNSIGNED_BYTE: u32 = 0x1401;
pub const GL_UNSIGNED_SHORT: u32 = 0x1403;
pub const GL_DEPTH_COMPONENT: u32 = 0x1902;
pub const GL_ALPHA: u32 = 0x1906;
pub const GL_RGB: u32 = 0x1907;
pub const GL_RGBA: u32 = 0x1908;
pub const GL_NEAREST: u32 = 0x2600;
pub const GL_LINEAR: u32 = 0x2601;
pub const GL_TEXTURE_MAG_FILTER: u32 = 0x2800;
pub const GL_TEXTURE_MIN_FILTER: u32 = 0x2801;
pub const GL_TEXTURE_WRAP_S: u32 = 0x2802;
pub const GL_TEXTURE_WRAP_T: u32 = 0x2803;
pub const GL_TEXTURE_2D: u32 = 0x0DE1;
pub const GL_CLAMP_TO_EDGE: u32 = 0x812F;
pub const GL_UNSIGNED_SHORT_4_4_4_4: u32 = 0x8033;
pub const GL_UNSIGNED_SHORT_5_5_5_1: u32 = 0x8034;
pub const GL_RGB8: u32 = 0x8051;
pub const GL_RGBA4: u32 = 0x8056;
pub const GL_RGB5_A1: u32 = 0x8057;
pub const GL_RGBA8: u32 = 0x8058;
pub const GL_UNSIGNED_SHORT_5_6_5: u32 = 0x8363;
pub const GL_RGB565: u32 = 0x8D62;

/// One native API call, as the library decides to issue it.
///
/// The library never touches the driver directly: it appends the calls it
/// wants performed to a per-context log, in order, and a platform layer
/// drains the log and performs each call. Pixel payloads travel alongside
/// the operation that supplied them and are not copied into the log; a
/// `TexImage2D` entry records with `with_data` whether storage was created
/// empty or filled from a caller buffer.
#[derive(Clone, Copy, Debug, PartialEq, Eq, Structural)]
pub enum GlCall {
    /// Make `texture` the bound texture at texture unit `unit`.
    BindTexture { unit: usize, texture: u32 },
    /// Allocate a fresh texture object name.
    GenTexture { texture: u32 },
    /// Release the texture object named `texture`.
    DeleteTexture { texture: u32 },
    /// Create storage for the texture bound at unit 0.
    TexImage2D {
        internal_format: u32,
        format: u32,
        pixel_type: u32,
        width: u32,
        height: u32,
        with_data: bool,
    },
    /// Overwrite a sub-region of the texture bound at unit 0 with RGBA8 data.
    TexSubImage2D { x_offset: u32, y_offset: u32, width: u32, height: u32 },
    /// Set a sampling parameter of the texture bound at unit 0.
    TexParameter { pname: u32, value: u32 },
}

} // verus!
