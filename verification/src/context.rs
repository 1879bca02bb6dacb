//! Context scaffolding: one live connection to the native graphics device.
//!
//! The `Context` exclusively owns the [`BindingCache`]; every resource
//! operation takes the `Context` so that it can reach the shared cache, and
//! no operation mutates graphics binding state except through it.

use vstd::prelude::*;

use crate::cache::{BindingCache, CacheModel, TEXTURE_UNITS};

verus! {

/// One live connection to the native graphics device. It owns the binding
/// cache through which every texture operation is mediated.
pub struct Context {
    pub cache: BindingCache,
}

impl View for Context {
    type V = CacheModel;

    open spec fn view(&self) -> CacheModel {
        self.cache@
    }
}

impl Context {
    pub open spec fn wf(self) -> bool {
        self.cache.wf()
    }

    /// A fresh context: nothing bound anywhere, no saved bindings, no native
    /// calls issued yet.
    pub fn new() -> (r: Context)
        ensures
            r.wf(),
            r@.calls.len() == 0,
            r@.next_handle == 1,
            forall|i: int| 0 <= i < TEXTURE_UNITS ==> r@.bound[i] == 0u32,
            forall|i: int| 0 <= i < TEXTURE_UNITS ==> r@.stored[i] is None,
    {
        Context { cache: BindingCache::new() }
    }
}

} // verus!
