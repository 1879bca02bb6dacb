//! A minimal GPU texture resource manager over an OpenGL-family native API.
//!
//! The heart of the library is the [`BindingCache`]: a per-context record of
//! which texture handle occupies which texture unit on the native device. All
//! texture operations go through its save/bind/restore protocol, so redundant
//! native rebinds are elided and every operation leaves the observed binding
//! state exactly as it found it. The native calls themselves are accumulated
//! in a command log that a platform layer drains and performs; the library
//! proves exactly which calls are issued and what device state they produce.

pub mod cache;
pub mod context;
pub mod gl;
pub mod texture;

pub use cache::{BindingCache, CacheModel, TEXTURE_UNITS};
pub use context::Context;
pub use gl::GlCall;
pub use texture::{
    FilterMode, RenderTextureFormat, RenderTextureParams, Texture, TextureFormat, TextureParams,
    TextureWrap,
};
