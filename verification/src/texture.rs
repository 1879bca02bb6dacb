//! Texture resources: pixel formats and their byte-size arithmetic, the
//! construction-time parameter structs, and the `Texture` handle with its
//! creation, update and deletion operations, all mediated through the
//! binding cache.

use vstd::prelude::*;

use crate::context::Context;
use crate::gl::{
    GlCall, GL_ALPHA, GL_CLAMP_TO_EDGE, GL_DEPTH_COMPONENT, GL_LINEAR, GL_NEAREST, GL_RGB,
    GL_RGB565, GL_RGB5_A1, GL_RGB8, GL_RGBA, GL_RGBA4, GL_RGBA8, GL_TEXTURE_MAG_FILTER,
    GL_TEXTURE_MIN_FILTER, GL_TEXTURE_WRAP_S, GL_TEXTURE_WRAP_T, GL_UNSIGNED_BYTE,
    GL_UNSIGNED_SHORT, GL_UNSIGNED_SHORT_4_4_4_4, GL_UNSIGNED_SHORT_5_5_5_1,
    GL_UNSIGNED_SHORT_5_6_5,
};

verus! {

/// An opaque native texture object name plus the dimensions of the GPU-side
/// storage it names. Copying a `Texture` does not duplicate the GPU
/// resource; only an explicit `delete` releases it.
#[derive(Clone, Copy, Debug, PartialEq, Eq, Structural)]
pub struct Texture {
    pub texture: u32,
    pub width: u32,
    pub height: u32,
}

/// Pixel encodings a render target can use.
#[derive(Debug, Clone, Copy, PartialEq, Eq, Structural)]
pub enum RenderTextureFormat {
    RGBA8,
    Depth,
}

/// List of all the possible formats of input data when uploading to texture.
#[derive(Debug, PartialEq, Eq, Clone, Copy, Structural)]
pub enum TextureFormat {
    RGB8,
    RGBA8,
    RGBA4,
    RGBA5551,
    RGB565,
    ALPHA,
}

/// Sets the wrap parameter for texture. Forwarded verbatim to the native
/// API; opaque to the binding cache.
#[derive(Debug, PartialEq, Eq, Clone, Copy, Structural)]
pub enum TextureWrap {
    /// Samples at coord x + 1 map to coord x.
    Repeat,
    /// Samples at coord x + 1 map to coord 1 - x.
    Mirror,
    /// Samples at coord x + 1 map to coord 1.
    Clamp,
    /// Same as Mirror, but only for one repetition.
    MirrorClamp,
}

/// Sampling filter, forwarded verbatim to the native API.
#[derive(Clone, Copy, Debug, PartialEq, Eq, Structural)]
pub enum FilterMode {
    Linear,
    Nearest,
}

/// The (internal storage format, transfer format, component data type)
/// triple the native API understands for each upload format.
pub open spec fn texture_format_triple(format: TextureFormat) -> (u32, u32, u32) {
    match format {
        TextureFormat::ALPHA => (GL_ALPHA, GL_ALPHA, GL_UNSIGNED_BYTE),
        TextureFormat::RGB8 => (GL_RGB8, GL_RGB, GL_UNSIGNED_BYTE),
        TextureFormat::RGBA8 => (GL_RGBA8, GL_RGBA, GL_UNSIGNED_BYTE),
        TextureFormat::RGB565 => (GL_RGB565, GL_RGB, GL_UNSIGNED_SHORT_5_6_5),
        TextureFormat::RGBA4 => (GL_RGBA4, GL_RGBA, GL_UNSIGNED_SHORT_4_4_4_4),
        TextureFormat::RGBA5551 => (GL_RGB5_A1, GL_RGBA, GL_UNSIGNED_SHORT_5_5_5_1),
    }
}

/// The (internal storage format, transfer format, component data type)
/// triple the native API understands for each render-target format.
pub open spec fn render_format_triple(format: RenderTextureFormat) -> (u32, u32, u32) {
    match format {
        RenderTextureFormat::RGBA8 => (GL_RGBA, GL_RGBA, GL_UNSIGNED_BYTE),
        RenderTextureFormat::Depth => (GL_DEPTH_COMPONENT, GL_DEPTH_COMPONENT, GL_UNSIGNED_SHORT),
    }
}

/// The native enum value of a sampling filter.
pub open spec fn filter_gl_spec(filter: FilterMode) -> u32 {
    match filter {
        FilterMode::Linear => GL_LINEAR,
        FilterMode::Nearest => GL_NEAREST,
    }
}

impl FilterMode {
    /// The native enum value this filter is forwarded as.
    pub fn gl_value(self) -> (r: u32)
        ensures
            r == filter_gl_spec(self),
    {
        match self {
            FilterMode::Linear => GL_LINEAR,
            FilterMode::Nearest => GL_NEAREST,
        }
    }
}

/// Construction-time configuration for a sampled texture.
#[derive(Debug, Copy, Clone)]
pub struct TextureParams {
    pub format: TextureFormat,
    pub wrap: TextureWrap,
    pub filter: FilterMode,
    pub width: u32,
    pub height: u32,
}

impl Default for TextureParams {
    fn default() -> (r: Self)
        ensures
            r.format == TextureFormat::RGBA8,
            r.wrap == TextureWrap::Clamp,
            r.filter == FilterMode::Linear,
            r.width == 0,
            r.height == 0,
    {
        TextureParams {
            format: TextureFormat::RGBA8,
            wrap: TextureWrap::Clamp,
            filter: FilterMode::Linear,
            width: 0,
            height: 0,
        }
    }
}

/// Construction-time configuration for a render-target texture.
#[derive(Debug, Copy, Clone)]
pub struct RenderTextureParams {
    pub format: RenderTextureFormat,
    pub wrap: TextureWrap,
    pub filter: FilterMode,
    pub width: u32,
    pub height: u32,
}

impl Default for RenderTextureParams {
    fn default() -> (r: Self)
        ensures
            r.format == RenderTextureFormat::RGBA8,
            r.wrap == TextureWrap::Clamp,
            r.filter == FilterMode::Linear,
            r.width == 0,
            r.height == 0,
    {
        RenderTextureParams {
            format: RenderTextureFormat::RGBA8,
            wrap: TextureWrap::Clamp,
            filter: FilterMode::Linear,
            width: 0,
            height: 0,
        }
    }
}

impl TextureFormat {
    /// Exact bytes per pixel of a tightly packed image in this format.
    pub open spec fn bytes_per_pixel(self) -> int {
        match self {
            TextureFormat::ALPHA => 1,
            TextureFormat::RGB565 => 2,
            TextureFormat::RGBA4 => 2,
            TextureFormat::RGBA5551 => 2,
            TextureFormat::RGB8 => 3,
            TextureFormat::RGBA8 => 4,
        }
    }

    /// Byte length of a tightly packed image in this format with the given
    /// dimensions.
    pub open spec fn size_spec(self, width: int, height: int) -> int {
        self.bytes_per_pixel() * width * height
    }

    /// Returns the size in bytes of texture with `dimensions`.
    ///
    /// This is the sole size-validation authority: every upload operation
    /// recomputes it and rejects a caller buffer whose length disagrees.
    pub fn size(self, width: u32, height: u32) -> (r: u32)
        requires
            self.size_spec(width as int, height as int) <= u32::MAX,
        ensures
            r == self.size_spec(width as int, height as int),
    {
        proof {
            assert(self.bytes_per_pixel() * width * height == self.bytes_per_pixel() * (width
                * height)) by (nonlinear_arith);
            assert(width * height <= self.bytes_per_pixel() * (width * height))
                by (nonlinear_arith)
                requires
                    1 <= self.bytes_per_pixel(),
                    0 <= width,
                    0 <= height,
            ;
        }
        let square = width * height;
        match self {
            TextureFormat::ALPHA => square,
            TextureFormat::RGB565 => 2 * square,
            TextureFormat::RGBA4 => 2 * square,
            TextureFormat::RGBA5551 => 2 * square,
            TextureFormat::RGB8 => 3 * square,
            TextureFormat::RGBA8 => 4 * square,
        }
    }

    /// The (internal storage format, transfer format, component data type)
    /// triple the native API understands for this format.
    pub fn gl_triple(self) -> (r: (u32, u32, u32))
        ensures
            r == texture_format_triple(self),
    {
        match self {
            TextureFormat::ALPHA => (GL_ALPHA, GL_ALPHA, GL_UNSIGNED_BYTE),
            TextureFormat::RGB8 => (GL_RGB8, GL_RGB, GL_UNSIGNED_BYTE),
            TextureFormat::RGBA8 => (GL_RGBA8, GL_RGBA, GL_UNSIGNED_BYTE),
            TextureFormat::RGB565 => (GL_RGB565, GL_RGB, GL_UNSIGNED_SHORT_5_6_5),
            TextureFormat::RGBA4 => (GL_RGBA4, GL_RGBA, GL_UNSIGNED_SHORT_4_4_4_4),
            TextureFormat::RGBA5551 => (GL_RGB5_A1, GL_RGBA, GL_UNSIGNED_SHORT_5_5_5_1),
        }
    }
}

impl RenderTextureFormat {
    /// The (internal storage format, transfer format, component data type)
    /// triple the native API understands for this render-target format.
    pub fn gl_triple(self) -> (r: (u32, u32, u32))
        ensures
            r == render_format_triple(self),
    {
        match self {
            RenderTextureFormat::RGBA8 => (GL_RGBA, GL_RGBA, GL_UNSIGNED_BYTE),
            RenderTextureFormat::Depth => (GL_DEPTH_COMPONENT, GL_DEPTH_COMPONENT, GL_UNSIGNED_SHORT),
        }
    }
}

impl Texture {
    /// The sentinel "no texture" handle: never names real GPU storage, and
    /// distinguishable from every texture the constructors return, whose
    /// handles are never 0.
    pub fn empty() -> (r: Texture)
        ensures
            r.texture == 0,
            r.width == 0,
            r.height == 0,
    {
        Texture { texture: 0, width: 0, height: 0 }
    }
}

/// The native calls issued by an operation that temporarily binds `texture`
/// at unit 0 around some inner work: the rebind and the restoring bind are
/// both elided when `texture` was bound at unit 0 already (`prev_bound`).
pub open spec fn rebind_calls(prev_bound: u32, texture: u32, inner: Seq<GlCall>) -> Seq<GlCall> {
    if prev_bound == texture {
        inner
    } else {
        seq![GlCall::BindTexture { unit: 0, texture }] + inner + seq![
            GlCall::BindTexture { unit: 0, texture: prev_bound },
        ]
    }
}

/// The exact native calls a texture-creation operation issues: allocate a
/// name, bind it at unit 0 (never elided, the name is fresh), create the
/// storage, set the four sampling parameters to clamp-to-edge and linear,
/// and re-bind what unit 0 held before (never elided either).
pub open spec fn creation_calls(
    prev_bound: u32,
    handle: u32,
    triple: (u32, u32, u32),
    width: u32,
    height: u32,
    with_data: bool,
) -> Seq<GlCall> {
    seq![
        GlCall::GenTexture { texture: handle },
        GlCall::BindTexture { unit: 0, texture: handle },
        GlCall::TexImage2D {
            internal_format: triple.0,
            format: triple.1,
            pixel_type: triple.2,
            width,
            height,
            with_data,
        },
        GlCall::TexParameter { pname: GL_TEXTURE_WRAP_S, value: GL_CLAMP_TO_EDGE },
        GlCall::TexParameter { pname: GL_TEXTURE_WRAP_T, value: GL_CLAMP_TO_EDGE },
        GlCall::TexParameter { pname: GL_TEXTURE_MIN_FILTER, value: GL_LINEAR },
        GlCall::TexParameter { pname: GL_TEXTURE_MAG_FILTER, value: GL_LINEAR },
        GlCall::BindTexture { unit: 0, texture: prev_bound },
    ]
}

impl Texture {
    /// Allocates empty GPU storage sized `width x height` in the given
    /// render-target format.
    ///
    /// The `wrap` and `filter` fields of `params` are deliberately not
    /// consulted: sampler state is fixed to clamp-to-edge and linear, the
    /// same as the sampled-texture creation path. This asymmetry against the
    /// accepted configuration is observed behavior that callers may depend
    /// on; it is kept, not silently repaired.
    ///
    /// Binding slot 0 is saved, mutated and restored around the operation:
    /// the whole binding state the caller can observe is unchanged.
    pub fn new_render_texture(ctx: &mut Context, params: RenderTextureParams) -> (r: Texture)
        requires
            old(ctx).wf(),
            old(ctx)@.stored[0] is None,
            old(ctx)@.next_handle < u32::MAX,
        ensures
            final(ctx).wf(),
            r.texture == old(ctx)@.next_handle,
            r.texture != 0,
            r.width == params.width,
            r.height == params.height,
            final(ctx)@.bound == old(ctx)@.bound,
            final(ctx)@.device == old(ctx)@.device,
            final(ctx)@.stored == old(ctx)@.stored,
            final(ctx)@.next_handle == old(ctx)@.next_handle + 1,
            !old(ctx)@.storage.dom().contains(r.texture),
            final(ctx)@.storage == old(ctx)@.storage.insert(r.texture, (r.width, r.height)),
            final(ctx)@.storage[r.texture] == (r.width, r.height),
            final(ctx)@.calls == old(ctx)@.calls + creation_calls(
                old(ctx)@.bound[0],
                r.texture,
                render_format_triple(params.format),
                params.width,
                params.height,
                false,
            ),
    {
        proof {
            assert(old(ctx)@.bound[0] < old(ctx)@.next_handle);
        }
        let (internal_format, format, pixel_type) = params.format.gl_triple();

        ctx.cache.store_texture_binding(0);
        let texture = ctx.cache.gen_texture();
        ctx.cache.bind_texture(0, texture);
        ctx.cache.tex_image_2d(internal_format, format, pixel_type, params.width, params.height, false);
        ctx.cache.tex_parameter(GL_TEXTURE_WRAP_S, GL_CLAMP_TO_EDGE);
        ctx.cache.tex_parameter(GL_TEXTURE_WRAP_T, GL_CLAMP_TO_EDGE);
        ctx.cache.tex_parameter(GL_TEXTURE_MIN_FILTER, GL_LINEAR);
        ctx.cache.tex_parameter(GL_TEXTURE_MAG_FILTER, GL_LINEAR);
        ctx.cache.restore_texture_binding(0);

        proof {
            assert(ctx@.bound =~= old(ctx)@.bound);
            assert(ctx@.device =~= old(ctx)@.device);
            assert(ctx@.stored =~= old(ctx)@.stored);
            assert(ctx@.calls =~= old(ctx)@.calls + creation_calls(
                old(ctx)@.bound[0],
                old(ctx)@.next_handle,
                render_format_triple(params.format),
                params.width,
                params.height,
                false,
            ));
        }
        Texture { texture, width: params.width, height: params.height }
    }

    /// Upload texture to GPU with given TextureParams.
    ///
    /// `bytes` must be exactly `params.format.size(params.width,
    /// params.height)` bytes: the size arithmetic is the sole validation
    /// authority and a disagreeing buffer is a caller error, never silently
    /// truncated or padded. As in the render-target path, sampler state is
    /// fixed to clamp-to-edge and linear; the `wrap` and `filter` fields of
    /// `params` are accepted but not consulted (observed behavior, kept).
    pub fn from_data_and_format(ctx: &mut Context, bytes: &[u8], params: TextureParams) -> (r:
        Texture)
        requires
            old(ctx).wf(),
            old(ctx)@.stored[0] is None,
            old(ctx)@.next_handle < u32::MAX,
            params.format.size_spec(params.width as int, params.height as int) <= u32::MAX,
            bytes@.len() == params.format.size_spec(params.width as int, params.height as int),
        ensures
            final(ctx).wf(),
            r.texture == old(ctx)@.next_handle,
            r.texture != 0,
            r.width == params.width,
            r.height == params.height,
            final(ctx)@.bound == old(ctx)@.bound,
            final(ctx)@.device == old(ctx)@.device,
            final(ctx)@.stored == old(ctx)@.stored,
            final(ctx)@.next_handle == old(ctx)@.next_handle + 1,
            !old(ctx)@.storage.dom().contains(r.texture),
            final(ctx)@.storage == old(ctx)@.storage.insert(r.texture, (r.width, r.height)),
            final(ctx)@.storage[r.texture] == (r.width, r.height),
            final(ctx)@.calls == old(ctx)@.calls + creation_calls(
                old(ctx)@.bound[0],
                r.texture,
                texture_format_triple(params.format),
                params.width,
                params.height,
                true,
            ),
    {
        proof {
            assert(old(ctx)@.bound[0] < old(ctx)@.next_handle);
        }
        let (internal_format, format, pixel_type) = params.format.gl_triple();

        ctx.cache.store_texture_binding(0);
        let texture = ctx.cache.gen_texture();
        ctx.cache.bind_texture(0, texture);
        ctx.cache.tex_image_2d(internal_format, format, pixel_type, params.width, params.height, true);
        ctx.cache.tex_parameter(GL_TEXTURE_WRAP_S, GL_CLAMP_TO_EDGE);
        ctx.cache.tex_parameter(GL_TEXTURE_WRAP_T, GL_CLAMP_TO_EDGE);
        ctx.cache.tex_parameter(GL_TEXTURE_MIN_FILTER, GL_LINEAR);
        ctx.cache.tex_parameter(GL_TEXTURE_MAG_FILTER, GL_LINEAR);
        ctx.cache.restore_texture_binding(0);

        proof {
            assert(ctx@.bound =~= old(ctx)@.bound);
            assert(ctx@.device =~= old(ctx)@.device);
            assert(ctx@.stored =~= old(ctx)@.stored);
            assert(ctx@.calls =~= old(ctx)@.calls + creation_calls(
                old(ctx)@.bound[0],
                old(ctx)@.next_handle,
                texture_format_triple(params.format),
                params.width,
                params.height,
                true,
            ));
        }
        Texture { texture, width: params.width, height: params.height }
    }

    /// Upload RGBA8 texture to GPU: fixes format RGBA8, wrap clamp and
    /// filter linear, and requires `bytes` to be exactly `width * height *
    /// 4` bytes.
    pub fn from_rgba8(ctx: &mut Context, width: u16, height: u16, bytes: &[u8]) -> (r: Texture)
        requires
            old(ctx).wf(),
            old(ctx)@.stored[0] is None,
            old(ctx)@.next_handle < u32::MAX,
            bytes@.len() == width as int * height as int * 4,
            width as int * height as int * 4 <= u32::MAX,
        ensures
            final(ctx).wf(),
            r.texture == old(ctx)@.next_handle,
            r.texture != 0,
            r.width == width as u32,
            r.height == height as u32,
            final(ctx)@.bound == old(ctx)@.bound,
            final(ctx)@.device == old(ctx)@.device,
            final(ctx)@.stored == old(ctx)@.stored,
            final(ctx)@.next_handle == old(ctx)@.next_handle + 1,
            !old(ctx)@.storage.dom().contains(r.texture),
            final(ctx)@.storage == old(ctx)@.storage.insert(r.texture, (r.width, r.height)),
            final(ctx)@.storage[r.texture] == (r.width, r.height),
            final(ctx)@.calls == old(ctx)@.calls + creation_calls(
                old(ctx)@.bound[0],
                r.texture,
                texture_format_triple(TextureFormat::RGBA8),
                width as u32,
                height as u32,
                true,
            ),
    {
        proof {
            assert(TextureFormat::RGBA8.size_spec(width as int, height as int) == width as int
                * height as int * 4) by (nonlinear_arith);
        }
        Self::from_data_and_format(
            ctx,
            bytes,
            TextureParams {
                width: width as u32,
                height: height as u32,
                format: TextureFormat::RGBA8,
                wrap: TextureWrap::Clamp,
                filter: FilterMode::Linear,
            },
        )
    }

    /// Re-bind this texture at slot 0 (save/bind/restore) and set its min
    /// and mag filters to `filter`. Stored dimensions are unaffected, and
    /// the binding state observed by the caller is unchanged.
    pub fn set_filter(&self, ctx: &mut Context, filter: FilterMode)
        requires
            old(ctx).wf(),
            old(ctx)@.stored[0] is None,
            self.texture < old(ctx)@.next_handle,
        ensures
            final(ctx).wf(),
            final(ctx)@.bound == old(ctx)@.bound,
            final(ctx)@.device == old(ctx)@.device,
            final(ctx)@.stored == old(ctx)@.stored,
            final(ctx)@.next_handle == old(ctx)@.next_handle,
            final(ctx)@.storage == old(ctx)@.storage,
            final(ctx)@.calls == old(ctx)@.calls + rebind_calls(
                old(ctx)@.bound[0],
                self.texture,
                seq![
                    GlCall::TexParameter {
                        pname: GL_TEXTURE_MIN_FILTER,
                        value: filter_gl_spec(filter),
                    },
                    GlCall::TexParameter {
                        pname: GL_TEXTURE_MAG_FILTER,
                        value: filter_gl_spec(filter),
                    },
                ],
            ),
    {
        ctx.cache.store_texture_binding(0);
        ctx.cache.bind_texture(0, self.texture);
        let value = filter.gl_value();
        ctx.cache.tex_parameter(GL_TEXTURE_MIN_FILTER, value);
        ctx.cache.tex_parameter(GL_TEXTURE_MAG_FILTER, value);
        ctx.cache.restore_texture_binding(0);

        proof {
            assert(ctx@.bound =~= old(ctx)@.bound);
            assert(ctx@.device =~= old(ctx)@.device);
            assert(ctx@.stored =~= old(ctx)@.stored);
            let inner = seq![
                GlCall::TexParameter { pname: GL_TEXTURE_MIN_FILTER, value: filter_gl_spec(filter) },
                GlCall::TexParameter { pname: GL_TEXTURE_MAG_FILTER, value: filter_gl_spec(filter) },
            ];
            assert(ctx@.calls =~= old(ctx)@.calls + rebind_calls(
                old(ctx)@.bound[0],
                self.texture,
                inner,
            ));
        }
    }

    /// Update whole texture content. `bytes` must be `width * height * 4`
    /// bytes: whole-texture update supports RGBA8 data only.
    pub fn update(&self, ctx: &mut Context, bytes: &[u8])
        requires
            old(ctx).wf(),
            old(ctx)@.stored[0] is None,
            self.texture < old(ctx)@.next_handle,
            bytes@.len() == self.width as int * self.height as int * 4,
            self.width <= i32::MAX,
            self.height <= i32::MAX,
        ensures
            final(ctx).wf(),
            final(ctx)@.bound == old(ctx)@.bound,
            final(ctx)@.device == old(ctx)@.device,
            final(ctx)@.stored == old(ctx)@.stored,
            final(ctx)@.next_handle == old(ctx)@.next_handle,
            final(ctx)@.storage == old(ctx)@.storage,
            final(ctx)@.calls == old(ctx)@.calls + rebind_calls(
                old(ctx)@.bound[0],
                self.texture,
                seq![
                    GlCall::TexSubImage2D {
                        x_offset: 0,
                        y_offset: 0,
                        width: self.width,
                        height: self.height,
                    },
                ],
            ),
    {
        self.update_texture_part(ctx, 0, 0, self.width as i32, self.height as i32, bytes)
    }

    /// Overwrite the sub-region at `(x_offset, y_offset)` of size `width x
    /// height` with RGBA8 data. The region must lie inside the texture and
    /// `bytes` must be exactly `width * height * 4` bytes; GPU storage is
    /// not reallocated. Binding slot 0 is saved, mutated and restored, so
    /// the binding state the caller observes is unchanged.
    pub fn update_texture_part(
        &self,
        ctx: &mut Context,
        x_offset: i32,
        y_offset: i32,
        width: i32,
        height: i32,
        bytes: &[u8],
    )
        requires
            old(ctx).wf(),
            old(ctx)@.stored[0] is None,
            self.texture < old(ctx)@.next_handle,
            0 <= x_offset,
            0 <= y_offset,
            0 <= width,
            0 <= height,
            bytes@.len() == width as int * height as int * 4,
            x_offset as int + width as int <= self.width as int,
            y_offset as int + height as int <= self.height as int,
        ensures
            final(ctx).wf(),
            final(ctx)@.bound == old(ctx)@.bound,
            final(ctx)@.device == old(ctx)@.device,
            final(ctx)@.stored == old(ctx)@.stored,
            final(ctx)@.next_handle == old(ctx)@.next_handle,
            final(ctx)@.storage == old(ctx)@.storage,
            final(ctx)@.calls == old(ctx)@.calls + rebind_calls(
                old(ctx)@.bound[0],
                self.texture,
                seq![
                    GlCall::TexSubImage2D {
                        x_offset: x_offset as u32,
                        y_offset: y_offset as u32,
                        width: width as u32,
                        height: height as u32,
                    },
                ],
            ),
    {
        ctx.cache.store_texture_binding(0);
        ctx.cache.bind_texture(0, self.texture);
        ctx.cache.tex_sub_image_2d(x_offset as u32, y_offset as u32, width as u32, height as u32);
        ctx.cache.restore_texture_binding(0);

        proof {
            assert(ctx@.bound =~= old(ctx)@.bound);
            assert(ctx@.device =~= old(ctx)@.device);
            assert(ctx@.stored =~= old(ctx)@.stored);
            let inner = seq![
                GlCall::TexSubImage2D {
                    x_offset: x_offset as u32,
                    y_offset: y_offset as u32,
                    width: width as u32,
                    height: height as u32,
                },
            ];
            assert(ctx@.calls =~= old(ctx)@.calls + rebind_calls(
                old(ctx)@.bound[0],
                self.texture,
                inner,
            ));
        }
    }

    /// Delete GPU texture, leaving the handle value held by the caller
    /// unmodified: afterwards this `Texture` is a dangling handle, and using
    /// it is the caller's responsibility. Automatic-release conveniences
    /// belong in a layer above this one; this is the single deterministic
    /// release point, and it must not run twice for handles that alias one
    /// allocation.
    ///
    /// The binding cache is left exactly as it was — deleting a texture
    /// that is not currently bound at slot 0 does not disturb slot 0's
    /// recorded binding (nor any other slot's).
    pub fn delete(&self, ctx: &mut Context)
        requires
            old(ctx).wf(),
        ensures
            final(ctx).wf(),
            final(ctx)@.bound == old(ctx)@.bound,
            final(ctx)@.device == old(ctx)@.device,
            final(ctx)@.stored == old(ctx)@.stored,
            final(ctx)@.next_handle == old(ctx)@.next_handle,
            final(ctx)@.storage == old(ctx)@.storage.remove(self.texture),
            final(ctx)@.calls == old(ctx)@.calls.push(
                GlCall::DeleteTexture { texture: self.texture },
            ),
    {
        ctx.cache.delete_texture(self.texture);
    }
}

/// Law: the sentinel returned by `Texture::empty` differs from every texture
/// whose handle is a real texture object name (the constructors only return
/// handles that are at least 1).
pub proof fn lemma_empty_distinct(e: Texture, t: Texture)
    requires
        e.texture == 0,
        t.texture != 0,
    ensures
        e != t,
{
}

} // verus!
