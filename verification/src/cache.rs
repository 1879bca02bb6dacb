//! The binding-state cache: a per-context record of which texture handle is
//! bound at which texture unit, together with a model of the native device
//! state those bindings produce and the log of native calls issued so far.
//!
//! Every texture operation goes through the save/bind/restore protocol this
//! module provides. The cache elides a native rebind whenever the requested
//! handle is already recorded as bound, and the save/restore pair brackets
//! every internal mutation so that control returns to the caller with the
//! observed binding state unchanged. The invariant [`CacheModel::wf`] states
//! that the cache's record never drifts from the device state.

use vstd::prelude::*;

use crate::gl::GlCall;

verus! {

/// Number of texture units the cache tracks.
pub const TEXTURE_UNITS: usize = 12;

/// Mathematical model of one context's binding state.
///
/// `bound` is the cache's record per unit, `device` the binding state on the
/// native device produced by the calls issued so far, `stored` the binding
/// saved per unit by a pending `store_texture_binding`, `calls` the log of
/// native calls issued, `next_handle` the next texture object name the
/// context will hand out, and `storage` the dimensions of the GPU-side
/// storage each live handle names.
#[verifier::ext_equal]
pub ghost struct CacheModel {
    pub bound: Seq<u32>,
    pub stored: Seq<Option<u32>>,
    pub device: Seq<u32>,
    pub calls: Seq<GlCall>,
    pub next_handle: u32,
    pub storage: Map<u32, (u32, u32)>,
}

impl CacheModel {
    /// Well-formedness: the record tracks every unit, it never drifts from
    /// the device state, and every handle it holds was issued by this
    /// context (handle 0 stands for "no texture").
    pub open spec fn wf(self) -> bool {
        &&& self.bound.len() == TEXTURE_UNITS
        &&& self.stored.len() == TEXTURE_UNITS
        &&& self.device.len() == TEXTURE_UNITS
        &&& self.bound == self.device
        &&& 1 <= self.next_handle
        &&& forall|i: int| 0 <= i < TEXTURE_UNITS ==> self.bound[i] < self.next_handle
        &&& forall|i: int|
            0 <= i < TEXTURE_UNITS ==> (#[trigger] self.stored[i] matches Some(t) ==> t
                < self.next_handle)
        &&& storage_handles_ok(self.storage, self.next_handle)
    }
}

/// Every handle that names GPU-side storage is a real texture object name
/// the context has issued: at least 1, and below the next name to be handed
/// out.
pub open spec fn storage_handles_ok(storage: Map<u32, (u32, u32)>, next_handle: u32) -> bool {
    forall|h: u32| #[trigger] storage.dom().contains(h) ==> 1 <= h && h < next_handle
}

/// Effect of `store_texture_binding` on the model: the current binding at
/// `unit` is remembered, nothing else changes and no native call is issued.
pub open spec fn store_step(m: CacheModel, unit: usize) -> CacheModel {
    CacheModel { stored: m.stored.update(unit as int, Some(m.bound[unit as int])), ..m }
}

/// Effect of `bind_texture` on the model: a native rebind is issued only if
/// `texture` differs from the binding recorded at `unit`.
pub open spec fn bind_step(m: CacheModel, unit: usize, texture: u32) -> CacheModel {
    if m.bound[unit as int] == texture {
        m
    } else {
        CacheModel {
            bound: m.bound.update(unit as int, texture),
            device: m.device.update(unit as int, texture),
            calls: m.calls.push(GlCall::BindTexture { unit, texture }),
            ..m
        }
    }
}

/// Effect of `restore_texture_binding` on the model: the saved binding is
/// re-bound (with the same elision as `bind_step`) and the saved slot is
/// cleared.
pub open spec fn restore_step(m: CacheModel, unit: usize) -> CacheModel {
    match m.stored[unit as int] {
        Some(prev) => {
            let b = bind_step(m, unit, prev);
            CacheModel { stored: b.stored.update(unit as int, None), ..b }
        },
        None => m,
    }
}

/// Per-context binding-state cache. It mediates every native bind, elides
/// rebinds of an already-bound handle, and records every native call it
/// issues in a log for the platform layer to perform.
pub struct BindingCache {
    bound: Vec<u32>,
    stored: Vec<Option<u32>>,
    device: Vec<u32>,
    calls: Vec<GlCall>,
    next_handle: u32,
    storage: Ghost<Map<u32, (u32, u32)>>,
}

impl View for BindingCache {
    type V = CacheModel;

    closed spec fn view(&self) -> CacheModel {
        CacheModel {
            bound: self.bound@,
            stored: self.stored@,
            device: self.device@,
            calls: self.calls@,
            next_handle: self.next_handle,
            storage: self.storage@,
        }
    }
}

impl BindingCache {
    pub open spec fn wf(self) -> bool {
        self@.wf()
    }

    /// A fresh cache: every unit records "no texture" (handle 0), no saved
    /// bindings, no native calls issued yet.
    pub fn new() -> (r: BindingCache)
        ensures
            r.wf(),
            r@.calls.len() == 0,
            r@.next_handle == 1,
            r@.storage == Map::<u32, (u32, u32)>::empty(),
            forall|i: int| 0 <= i < TEXTURE_UNITS ==> r@.bound[i] == 0u32,
            forall|i: int| 0 <= i < TEXTURE_UNITS ==> r@.stored[i] is None,
    {
        let mut bound: Vec<u32> = Vec::new();
        let mut stored: Vec<Option<u32>> = Vec::new();
        let mut device: Vec<u32> = Vec::new();
        let mut i: usize = 0;
        while i < TEXTURE_UNITS
            invariant
                i <= TEXTURE_UNITS,
                bound@.len() == i,
                stored@.len() == i,
                device@.len() == i,
                forall|j: int| 0 <= j < i ==> bound@[j] == 0u32,
                forall|j: int| 0 <= j < i ==> stored@[j] is None,
                forall|j: int| 0 <= j < i ==> device@[j] == 0u32,
            decreases TEXTURE_UNITS - i,
        {
            bound.push(0);
            stored.push(None);
            device.push(0);
            i = i + 1;
        }
        proof {
            assert(bound@ =~= device@);
        }
        BindingCache {
            bound,
            stored,
            device,
            calls: Vec::new(),
            next_handle: 1,
            storage: Ghost(Map::empty()),
        }
    }

    /// Read and remember the binding currently at `unit`, without changing
    /// it, so that a later `restore_texture_binding(unit)` can undo whatever
    /// binds happen in between. The protocol does not nest: the caller must
    /// not store again for the same unit before restoring.
    pub fn store_texture_binding(&mut self, unit: usize)
        requires
            old(self).wf(),
            unit < TEXTURE_UNITS,
        ensures
            final(self).wf(),
            final(self)@ == store_step(old(self)@, unit),
            final(self)@.stored[unit as int] == Some(old(self)@.bound[unit as int]),
    {
        let t = self.bound[unit];
        self.stored.set(unit, Some(t));
    }

    /// Make `texture` the binding recorded at `unit`, issuing the native
    /// rebind only if it differs from what is already recorded there.
    /// `texture` must be a handle this context issued, or 0 for "no
    /// texture".
    pub fn bind_texture(&mut self, unit: usize, texture: u32)
        requires
            old(self).wf(),
            unit < TEXTURE_UNITS,
            texture < old(self)@.next_handle,
        ensures
            final(self).wf(),
            final(self)@ == bind_step(old(self)@, unit, texture),
            final(self)@.bound[unit as int] == texture,
            final(self)@.calls.len() <= old(self)@.calls.len() + 1,
            old(self)@.bound[unit as int] == texture ==> final(self)@ == old(self)@,
    {
        if self.bound[unit] != texture {
            self.bound.set(unit, texture);
            self.device.set(unit, texture);
            self.calls.push(GlCall::BindTexture { unit, texture });
        }
    }

    /// Re-bind whatever the most recent `store_texture_binding(unit)`
    /// captured (eliding the native call if it is still bound) and clear the
    /// saved slot. Requires a matching store to be pending.
    pub fn restore_texture_binding(&mut self, unit: usize)
        requires
            old(self).wf(),
            unit < TEXTURE_UNITS,
            old(self)@.stored[unit as int] is Some,
        ensures
            final(self).wf(),
            final(self)@ == restore_step(old(self)@, unit),
            final(self)@.stored[unit as int] is None,
    {
        let prev = self.stored[unit];
        match prev {
            Some(t) => {
                self.bind_texture(unit, t);
                self.stored.set(unit, None);
            },
            None => {},
        }
    }

    /// Allocate a fresh texture object name on the device. Names are issued
    /// in order starting at 1; 0 is never issued, so 0 can stand for "no
    /// texture".
    pub(crate) fn gen_texture(&mut self) -> (r: u32)
        requires
            old(self).wf(),
            old(self)@.next_handle < u32::MAX,
        ensures
            final(self).wf(),
            r == old(self)@.next_handle,
            1 <= r,
            final(self)@.bound == old(self)@.bound,
            final(self)@.stored == old(self)@.stored,
            final(self)@.device == old(self)@.device,
            final(self)@.next_handle == old(self)@.next_handle + 1,
            final(self)@.storage == old(self)@.storage,
            final(self)@.calls == old(self)@.calls.push(GlCall::GenTexture { texture: r }),
    {
        let r = self.next_handle;
        self.next_handle = self.next_handle + 1;
        self.calls.push(GlCall::GenTexture { texture: r });
        proof {
            assert forall|h: u32| #[trigger]
                self@.storage.dom().contains(h) implies 1 <= h && h < self@.next_handle by {
                assert(old(self)@.storage.dom().contains(h));
            }
        }
        r
    }

    /// Release the texture object named `texture` on the device. The cache's
    /// recorded bindings are deliberately left untouched: deleting a handle
    /// that is still recorded as bound somewhere is the caller's protocol
    /// error, as with any other use after delete.
    pub(crate) fn delete_texture(&mut self, texture: u32)
        requires
            old(self).wf(),
        ensures
            final(self).wf(),
            final(self)@.bound == old(self)@.bound,
            final(self)@.stored == old(self)@.stored,
            final(self)@.device == old(self)@.device,
            final(self)@.next_handle == old(self)@.next_handle,
            final(self)@.storage == old(self)@.storage.remove(texture),
            final(self)@.calls == old(self)@.calls.push(GlCall::DeleteTexture { texture }),
    {
        self.storage = Ghost(self.storage@.remove(texture));
        self.calls.push(GlCall::DeleteTexture { texture });
        proof {
            assert forall|h: u32| #[trigger]
                self@.storage.dom().contains(h) implies 1 <= h && h < self@.next_handle by {
                assert(old(self)@.storage.dom().contains(h));
            }
        }
    }

    /// Create storage sized `width x height` for the texture bound at unit
    /// 0, which must be a real texture object, not the "no texture" handle.
    pub(crate) fn tex_image_2d(
        &mut self,
        internal_format: u32,
        format: u32,
        pixel_type: u32,
        width: u32,
        height: u32,
        with_data: bool,
    )
        requires
            old(self).wf(),
            old(self)@.bound[0] != 0,
        ensures
            final(self).wf(),
            final(self)@.bound == old(self)@.bound,
            final(self)@.stored == old(self)@.stored,
            final(self)@.device == old(self)@.device,
            final(self)@.next_handle == old(self)@.next_handle,
            final(self)@.storage == old(self)@.storage.insert(
                old(self)@.bound[0],
                (width, height),
            ),
            final(self)@.calls == old(self)@.calls.push(
                GlCall::TexImage2D { internal_format, format, pixel_type, width, height, with_data },
            ),
    {
        let target = self.bound[0];
        self.storage = Ghost(self.storage@.insert(target, (width, height)));
        self.calls.push(
            GlCall::TexImage2D { internal_format, format, pixel_type, width, height, with_data },
        );
        proof {
            assert(old(self)@.bound[0] < old(self)@.next_handle);
            assert forall|h: u32| #[trigger]
                self@.storage.dom().contains(h) implies 1 <= h && h < self@.next_handle by {
                if h != target {
                    assert(old(self)@.storage.dom().contains(h));
                }
            }
        }
    }

    /// Overwrite a sub-region of the texture bound at unit 0.
    pub(crate) fn tex_sub_image_2d(&mut self, x_offset: u32, y_offset: u32, width: u32, height: u32)
        requires
            old(self).wf(),
        ensures
            final(self).wf(),
            final(self)@.bound == old(self)@.bound,
            final(self)@.stored == old(self)@.stored,
            final(self)@.device == old(self)@.device,
            final(self)@.next_handle == old(self)@.next_handle,
            final(self)@.storage == old(self)@.storage,
            final(self)@.calls == old(self)@.calls.push(
                GlCall::TexSubImage2D { x_offset, y_offset, width, height },
            ),
    {
        self.calls.push(GlCall::TexSubImage2D { x_offset, y_offset, width, height });
    }

    /// Set a sampling parameter of the texture bound at unit 0.
    pub(crate) fn tex_parameter(&mut self, pname: u32, value: u32)
        requires
            old(self).wf(),
        ensures
            final(self).wf(),
            final(self)@.bound == old(self)@.bound,
            final(self)@.stored == old(self)@.stored,
            final(self)@.device == old(self)@.device,
            final(self)@.next_handle == old(self)@.next_handle,
            final(self)@.storage == old(self)@.storage,
            final(self)@.calls == old(self)@.calls.push(GlCall::TexParameter { pname, value }),
    {
        self.calls.push(GlCall::TexParameter { pname, value });
    }

    /// The binding recorded (and, by the no-drift invariant, actually on the
    /// device) at `unit`.
    pub fn bound_texture(&self, unit: usize) -> (r: u32)
        requires
            self.wf(),
            unit < TEXTURE_UNITS,
        ensures
            r == self@.bound[unit as int],
    {
        self.bound[unit]
    }

    /// The binding saved at `unit` by a pending `store_texture_binding`, if
    /// any.
    pub fn stored_binding(&self, unit: usize) -> (r: Option<u32>)
        requires
            self.wf(),
            unit < TEXTURE_UNITS,
        ensures
            r == self@.stored[unit as int],
    {
        self.stored[unit]
    }

    /// How many native calls have been issued so far.
    pub fn call_count(&self) -> (r: usize)
        ensures
            r == self@.calls.len(),
    {
        self.calls.len()
    }

    /// The `i`-th native call issued, in issue order.
    pub fn native_call(&self, i: usize) -> (r: GlCall)
        requires
            i < self@.calls.len(),
        ensures
            r == self@.calls[i as int],
    {
        self.calls[i]
    }

    /// Hand the pending native calls to the platform layer, in issue order,
    /// leaving the log empty and every recorded binding as it was.
    pub fn take_calls(&mut self) -> (r: Vec<GlCall>)
        requires
            old(self).wf(),
        ensures
            final(self).wf(),
            r@ == old(self)@.calls,
            final(self)@.calls.len() == 0,
            final(self)@.bound == old(self)@.bound,
            final(self)@.stored == old(self)@.stored,
            final(self)@.device == old(self)@.device,
            final(self)@.next_handle == old(self)@.next_handle,
            final(self)@.storage == old(self)@.storage,
    {
        let mut out: Vec<GlCall> = Vec::new();
        let mut i: usize = 0;
        while i < self.calls.len()
            invariant
                *self == *old(self),
                i <= self.calls.len(),
                out@ =~= self.calls@.subrange(0, i as int),
            decreases self.calls@.len() - i,
        {
            out.push(self.calls[i]);
            i = i + 1;
        }
        proof {
            assert(out@ =~= self.calls@);
        }
        self.calls = Vec::new();
        out
    }
}

/// Law: a `store_texture_binding` followed immediately by the matching
/// `restore_texture_binding`, with no bind in between, leaves the recorded
/// binding and the device binding at every unit unchanged and issues no
/// native call; only the saved slot is cleared.
pub proof fn lemma_store_restore_roundtrip(m: CacheModel, unit: usize)
    requires
        m.wf(),
        unit < TEXTURE_UNITS,
    ensures
        ({
            let r = restore_step(store_step(m, unit), unit);
            &&& r.bound == m.bound
            &&& r.device == m.device
            &&& r.calls == m.calls
            &&& r.next_handle == m.next_handle
            &&& r.stored == m.stored.update(unit as int, None)
        }),
{
    let s = store_step(m, unit);
    assert(s.stored[unit as int] == Some(m.bound[unit as int]));
    assert(bind_step(s, unit, m.bound[unit as int]) == s);
    let r = restore_step(s, unit);
    assert(r.stored =~= m.stored.update(unit as int, None));
}

/// Law: binding the same handle twice in succession at the same unit issues
/// at most one native rebind — the second bind changes nothing at all.
pub proof fn lemma_bind_elision(m: CacheModel, unit: usize, texture: u32)
    requires
        m.wf(),
        unit < TEXTURE_UNITS,
    ensures
        bind_step(bind_step(m, unit, texture), unit, texture) == bind_step(m, unit, texture),
        bind_step(m, unit, texture).calls.len() <= m.calls.len() + 1,
{
    let b = bind_step(m, unit, texture);
    assert(b.bound[unit as int] == texture);
}

/// Law: in a well-formed context the "no texture" handle 0 never names
/// GPU-side storage; only real texture object names, which the constructors
/// issue starting at 1, can.
pub proof fn lemma_sentinel_has_no_storage(m: CacheModel)
    requires
        m.wf(),
    ensures
        !m.storage.dom().contains(0u32),
{
}

} // verus!
