use miniquad::{
    Context, FilterMode, GlCall, RenderTextureFormat, RenderTextureParams, Texture, TextureFormat,
    TextureParams, TextureWrap,
};

fn rgba8_buf(width: usize, height: usize) -> Vec<u8> {
    let mut v = Vec::new();
    let mut i = 0;
    while i < width * height * 4 {
        v.push((i % 251) as u8);
        i += 1;
    }
    v
}

#[test]
fn from_rgba8_4x4_succeeds_with_matching_buffer() {
    let mut ctx = Context::new();
    let buf = rgba8_buf(4, 4);
    assert_eq!(buf.len(), 64);
    let t = Texture::from_rgba8(&mut ctx, 4, 4, &buf);
    assert_eq!(t.width, 4);
    assert_eq!(t.height, 4);
    assert_ne!(t.texture, 0);
}

#[test]
fn creation_issues_exact_call_sequence() {
    let mut ctx = Context::new();
    let buf = rgba8_buf(4, 4);
    let t = Texture::from_rgba8(&mut ctx, 4, 4, &buf);
    assert_eq!(ctx.cache.call_count(), 8);
    assert_eq!(
        ctx.cache.native_call(0),
        GlCall::GenTexture { texture: t.texture }
    );
    assert_eq!(
        ctx.cache.native_call(1),
        GlCall::BindTexture {
            unit: 0,
            texture: t.texture
        }
    );
    assert_eq!(
        ctx.cache.native_call(2),
        GlCall::TexImage2D {
            internal_format: 0x8058,
            format: 0x1908,
            pixel_type: 0x1401,
            width: 4,
            height: 4,
            with_data: true,
        }
    );
    assert_eq!(
        ctx.cache.native_call(3),
        GlCall::TexParameter {
            pname: 0x2802,
            value: 0x812F
        }
    );
    assert_eq!(
        ctx.cache.native_call(4),
        GlCall::TexParameter {
            pname: 0x2803,
            value: 0x812F
        }
    );
    assert_eq!(
        ctx.cache.native_call(5),
        GlCall::TexParameter {
            pname: 0x2801,
            value: 0x2601
        }
    );
    assert_eq!(
        ctx.cache.native_call(6),
        GlCall::TexParameter {
            pname: 0x2800,
            value: 0x2601
        }
    );
    assert_eq!(
        ctx.cache.native_call(7),
        GlCall::BindTexture {
            unit: 0,
            texture: 0
        }
    );
    assert_eq!(ctx.cache.bound_texture(0), 0);
}

#[test]
fn from_data_and_format_rgb8_takes_three_bytes_per_pixel() {
    let mut ctx = Context::new();
    let bytes = vec![7u8; 48];
    let t = Texture::from_data_and_format(
        &mut ctx,
        &bytes,
        TextureParams {
            format: TextureFormat::RGB8,
            wrap: TextureWrap::Repeat,
            filter: FilterMode::Nearest,
            width: 4,
            height: 4,
        },
    );
    assert_eq!(t.width, 4);
    assert_eq!(t.height, 4);
    assert_ne!(t.texture, 0);
    assert_eq!(
        ctx.cache.native_call(2),
        GlCall::TexImage2D {
            internal_format: 0x8051,
            format: 0x1907,
            pixel_type: 0x1401,
            width: 4,
            height: 4,
            with_data: true,
        }
    );
    // The wrap/filter fields are accepted but the upload path fixes
    // clamp-to-edge and linear: observed behavior, kept.
    assert_eq!(
        ctx.cache.native_call(5),
        GlCall::TexParameter {
            pname: 0x2801,
            value: 0x2601
        }
    );
}

#[test]
fn new_render_texture_allocates_empty_storage() {
    let mut ctx = Context::new();
    let t = Texture::new_render_texture(
        &mut ctx,
        RenderTextureParams {
            format: RenderTextureFormat::RGBA8,
            width: 256,
            height: 128,
            ..Default::default()
        },
    );
    assert_eq!(t.width, 256);
    assert_eq!(t.height, 128);
    assert_ne!(t.texture, 0);
    assert_eq!(
        ctx.cache.native_call(2),
        GlCall::TexImage2D {
            internal_format: 0x1908,
            format: 0x1908,
            pixel_type: 0x1401,
            width: 256,
            height: 128,
            with_data: false,
        }
    );
    assert_eq!(ctx.cache.bound_texture(0), 0);
}

#[test]
fn new_render_texture_depth_format() {
    let mut ctx = Context::new();
    let t = Texture::new_render_texture(
        &mut ctx,
        RenderTextureParams {
            format: RenderTextureFormat::Depth,
            width: 64,
            height: 64,
            ..Default::default()
        },
    );
    assert_ne!(t.texture, 0);
    assert_eq!(
        ctx.cache.native_call(2),
        GlCall::TexImage2D {
            internal_format: 0x1902,
            format: 0x1902,
            pixel_type: 0x1403,
            width: 64,
            height: 64,
            with_data: false,
        }
    );
}

#[test]
fn update_reuploads_full_extent() {
    let mut ctx = Context::new();
    let buf = rgba8_buf(4, 4);
    let t = Texture::from_rgba8(&mut ctx, 4, 4, &buf);
    let n = ctx.cache.call_count();
    let fresh = vec![255u8; 64];
    t.update(&mut ctx, &fresh);
    assert_eq!(ctx.cache.call_count(), n + 3);
    assert_eq!(
        ctx.cache.native_call(n),
        GlCall::BindTexture {
            unit: 0,
            texture: t.texture
        }
    );
    assert_eq!(
        ctx.cache.native_call(n + 1),
        GlCall::TexSubImage2D {
            x_offset: 0,
            y_offset: 0,
            width: 4,
            height: 4,
        }
    );
    assert_eq!(
        ctx.cache.native_call(n + 2),
        GlCall::BindTexture {
            unit: 0,
            texture: 0
        }
    );
    assert_eq!(ctx.cache.bound_texture(0), 0);
}

#[test]
fn update_texture_part_uploads_sub_region() {
    let mut ctx = Context::new();
    let buf = rgba8_buf(8, 8);
    let t = Texture::from_rgba8(&mut ctx, 8, 8, &buf);
    let n = ctx.cache.call_count();
    let patch = rgba8_buf(2, 3);
    t.update_texture_part(&mut ctx, 5, 1, 2, 3, &patch);
    assert_eq!(
        ctx.cache.native_call(n + 1),
        GlCall::TexSubImage2D {
            x_offset: 5,
            y_offset: 1,
            width: 2,
            height: 3,
        }
    );
    assert_eq!(ctx.cache.bound_texture(0), 0);
}

#[test]
fn update_elides_rebind_when_already_bound() {
    let mut ctx = Context::new();
    let buf = rgba8_buf(4, 4);
    let t = Texture::from_rgba8(&mut ctx, 4, 4, &buf);
    ctx.cache.bind_texture(0, t.texture);
    let n = ctx.cache.call_count();
    t.update(&mut ctx, &buf);
    assert_eq!(ctx.cache.call_count(), n + 1);
    assert_eq!(
        ctx.cache.native_call(n),
        GlCall::TexSubImage2D {
            x_offset: 0,
            y_offset: 0,
            width: 4,
            height: 4,
        }
    );
    assert_eq!(ctx.cache.bound_texture(0), t.texture);
}

#[test]
fn set_filter_sets_min_and_mag() {
    let mut ctx = Context::new();
    let buf = rgba8_buf(4, 4);
    let t = Texture::from_rgba8(&mut ctx, 4, 4, &buf);
    let n = ctx.cache.call_count();
    t.set_filter(&mut ctx, FilterMode::Nearest);
    assert_eq!(ctx.cache.call_count(), n + 4);
    assert_eq!(
        ctx.cache.native_call(n + 1),
        GlCall::TexParameter {
            pname: 0x2801,
            value: 0x2600
        }
    );
    assert_eq!(
        ctx.cache.native_call(n + 2),
        GlCall::TexParameter {
            pname: 0x2800,
            value: 0x2600
        }
    );
    assert_eq!(ctx.cache.bound_texture(0), 0);
}

#[test]
fn delete_leaves_slot0_binding_as_it_was() {
    let mut ctx = Context::new();
    let buf = rgba8_buf(2, 2);
    let t1 = Texture::from_rgba8(&mut ctx, 2, 2, &buf);
    let t2 = Texture::from_rgba8(&mut ctx, 2, 2, &buf);
    ctx.cache.bind_texture(0, t1.texture);
    let before = ctx.cache.bound_texture(0);
    let saved_before = ctx.cache.stored_binding(0);
    let n = ctx.cache.call_count();
    t2.delete(&mut ctx);
    assert_eq!(ctx.cache.bound_texture(0), before);
    assert_eq!(ctx.cache.stored_binding(0), saved_before);
    assert_eq!(ctx.cache.call_count(), n + 1);
    assert_eq!(
        ctx.cache.native_call(n),
        GlCall::DeleteTexture { texture: t2.texture }
    );
}

#[test]
fn empty_is_the_zero_sentinel() {
    let e = Texture::empty();
    assert_eq!(e.texture, 0);
    assert_eq!(e.width, 0);
    assert_eq!(e.height, 0);
    assert_eq!(Texture::empty(), Texture::empty());
}

#[test]
fn empty_differs_from_constructed_textures() {
    let mut ctx = Context::new();
    let buf = rgba8_buf(1, 1);
    let t = Texture::from_rgba8(&mut ctx, 1, 1, &buf);
    assert_ne!(t, Texture::empty());
    let r = Texture::new_render_texture(
        &mut ctx,
        RenderTextureParams {
            width: 1,
            height: 1,
            ..Default::default()
        },
    );
    assert_ne!(r, Texture::empty());
}

#[test]
fn handles_are_issued_in_order_and_survive_delete() {
    let mut ctx = Context::new();
    let buf = rgba8_buf(1, 1);
    let t1 = Texture::from_rgba8(&mut ctx, 1, 1, &buf);
    let t2 = Texture::from_rgba8(&mut ctx, 1, 1, &buf);
    assert_ne!(t1.texture, t2.texture);
    let copy = t1;
    t1.delete(&mut ctx);
    // Deleting does not clear or invalidate the handle value itself.
    assert_eq!(copy.texture, t1.texture);
}
