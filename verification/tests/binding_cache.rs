use miniquad::{Context, GlCall, Texture};

fn rgba8_buf(width: usize, height: usize) -> Vec<u8> {
    let mut v = Vec::new();
    let mut i = 0;
    while i < width * height * 4 {
        v.push((i % 251) as u8);
        i += 1;
    }
    v
}

#[test]
fn store_then_restore_leaves_binding_unchanged() {
    let mut ctx = Context::new();
    let before = ctx.cache.bound_texture(0);
    let calls_before = ctx.cache.call_count();
    ctx.cache.store_texture_binding(0);
    ctx.cache.restore_texture_binding(0);
    assert_eq!(ctx.cache.bound_texture(0), before);
    assert_eq!(ctx.cache.call_count(), calls_before);
}

#[test]
fn store_then_restore_with_nonzero_binding() {
    let mut ctx = Context::new();
    let buf = rgba8_buf(2, 2);
    let t = Texture::from_rgba8(&mut ctx, 2, 2, &buf);
    ctx.cache.bind_texture(0, t.texture);
    let before = ctx.cache.bound_texture(0);
    let calls_before = ctx.cache.call_count();
    ctx.cache.store_texture_binding(0);
    ctx.cache.restore_texture_binding(0);
    assert_eq!(ctx.cache.bound_texture(0), before);
    assert_eq!(ctx.cache.call_count(), calls_before);
}

#[test]
fn binding_same_handle_twice_issues_one_native_call() {
    let mut ctx = Context::new();
    let buf = rgba8_buf(2, 2);
    let t = Texture::from_rgba8(&mut ctx, 2, 2, &buf);
    let calls_before = ctx.cache.call_count();
    ctx.cache.bind_texture(0, t.texture);
    assert_eq!(ctx.cache.call_count(), calls_before + 1);
    ctx.cache.bind_texture(0, t.texture);
    assert_eq!(ctx.cache.call_count(), calls_before + 1);
    assert_eq!(ctx.cache.bound_texture(0), t.texture);
}

#[test]
fn binding_handle_zero_on_fresh_context_is_elided() {
    let mut ctx = Context::new();
    ctx.cache.bind_texture(0, 0);
    assert_eq!(ctx.cache.call_count(), 0);
    assert_eq!(ctx.cache.bound_texture(0), 0);
}

#[test]
fn store_bind_restore_undoes_the_bind() {
    let mut ctx = Context::new();
    let buf = rgba8_buf(2, 2);
    let t = Texture::from_rgba8(&mut ctx, 2, 2, &buf);
    let before = ctx.cache.bound_texture(0);
    let calls_before = ctx.cache.call_count();
    ctx.cache.store_texture_binding(0);
    assert_eq!(ctx.cache.stored_binding(0), Some(before));
    ctx.cache.bind_texture(0, t.texture);
    assert_eq!(ctx.cache.bound_texture(0), t.texture);
    ctx.cache.restore_texture_binding(0);
    assert_eq!(ctx.cache.bound_texture(0), before);
    assert_eq!(ctx.cache.stored_binding(0), None);
    assert_eq!(ctx.cache.call_count(), calls_before + 2);
    assert_eq!(
        ctx.cache.native_call(calls_before),
        GlCall::BindTexture {
            unit: 0,
            texture: t.texture
        }
    );
    assert_eq!(
        ctx.cache.native_call(calls_before + 1),
        GlCall::BindTexture {
            unit: 0,
            texture: before
        }
    );
}

#[test]
fn units_are_independent() {
    let mut ctx = Context::new();
    let buf = rgba8_buf(2, 2);
    let t = Texture::from_rgba8(&mut ctx, 2, 2, &buf);
    ctx.cache.bind_texture(3, t.texture);
    assert_eq!(ctx.cache.bound_texture(3), t.texture);
    assert_eq!(ctx.cache.bound_texture(0), 0);
    ctx.cache.store_texture_binding(0);
    ctx.cache.restore_texture_binding(0);
    assert_eq!(ctx.cache.bound_texture(3), t.texture);
}

#[test]
fn take_calls_drains_log_and_keeps_bindings() {
    let mut ctx = Context::new();
    let buf = rgba8_buf(2, 2);
    let t = Texture::from_rgba8(&mut ctx, 2, 2, &buf);
    ctx.cache.bind_texture(0, t.texture);
    let n = ctx.cache.call_count();
    let calls = ctx.cache.take_calls();
    assert_eq!(calls.len(), n);
    assert_eq!(
        calls[n - 1],
        GlCall::BindTexture {
            unit: 0,
            texture: t.texture
        }
    );
    assert_eq!(ctx.cache.call_count(), 0);
    assert_eq!(ctx.cache.bound_texture(0), t.texture);
}
