//! The lifecycle of one handler registration with `libdummy`.
//!
//! Registering hands the C side a heap object (the FFI wrapper) and gets back a
//! context. Both are kept here as addresses: `0` stands for a null context,
//! which `libdummy` hands back when it did not register the handler.
use vstd::prelude::*;

verus! {

/// The context `libdummy` hands back for a registration. It is opaque: only
/// ever seen behind a pointer, never read from Rust.
pub struct FFICtx {
    _private: [u8; 0],
}

/// What a deletion must give back to `libdummy` and free on the Rust side:
/// the context to cancel and the FFI wrapper that the registration allocated.
#[derive(Debug, Clone, Copy, PartialEq, Eq, Structural)]
pub struct Release {
    pub ctx: usize,
    pub ffi_wrapper: usize,
}

/// Keeps track of one handler registered on a destination.
#[derive(Debug)]
pub struct UserSpaceWrapper {
    ffi_wrapper: usize,
    ctx: usize,
}

impl UserSpaceWrapper {
    /// The address of the FFI wrapper handed to `libdummy` at registration.
    pub closed spec fn ffi_wrapper_addr(self) -> usize {
        self.ffi_wrapper
    }

    /// The context `libdummy` returned; `0` once it has been cancelled, or
    /// when the registration failed.
    pub closed spec fn ctx_addr(self) -> usize {
        self.ctx
    }

    /// The registration is live while its context is not null.
    pub open spec fn is_live(self) -> bool {
        self.ctx_addr() != 0
    }

    /// What one deletion does: a live registration is released and its
    /// context cleared; otherwise nothing happens.
    pub open spec fn spec_delete(self) -> (UserSpaceWrapper, Option<Release>) {
        if self.is_live() {
            (
                self.with_cleared_ctx(),
                Some(Release { ctx: self.ctx_addr(), ffi_wrapper: self.ffi_wrapper_addr() }),
            )
        } else {
            (self, None)
        }
    }

    /// How many of `n` deletions in a row release something.
    pub open spec fn release_count(self, n: nat) -> nat
        decreases n,
    {
        if n == 0 {
            0
        } else {
            let (next, release) = self.spec_delete();
            (if release is Some { 1nat } else { 0nat }) + next.release_count((n - 1) as nat)
        }
    }

    /// The same wrapper with a null context.
    pub closed spec fn with_cleared_ctx(self) -> UserSpaceWrapper {
        UserSpaceWrapper { ffi_wrapper: self.ffi_wrapper, ctx: 0 }
    }

    /// Clearing the context keeps the wrapper's address and leaves it dead.
    pub broadcast proof fn lemma_with_cleared_ctx(self)
        ensures
            #[trigger] self.with_cleared_ctx().ctx_addr() == 0,
            self.with_cleared_ctx().ffi_wrapper_addr() == self.ffi_wrapper_addr(),
    {
    }

    /// Records a registration: the address of the FFI wrapper that was handed
    /// to `libdummy` and the context it returned (`0` for null).
    pub fn new(ffi_wrapper: usize, ctx: usize) -> (w: Self)
        ensures
            w.ffi_wrapper_addr() == ffi_wrapper,
            w.ctx_addr() == ctx,
    {
        UserSpaceWrapper { ffi_wrapper, ctx }
    }

    /// Whether the registration is still live.
    pub fn is_registered(&self) -> (live: bool)
        ensures
            live == self.is_live(),
    {
        self.ctx != 0
    }

    /// The deciding half of a deletion. When the context is null there is
    /// nothing to cancel or free, the wrapper is unchanged and the deletion
    /// reports `false`. Otherwise the context is cleared and the context and
    /// FFI wrapper to hand back are returned; the deletion then reports
    /// whether `libdummy`'s `cancel` succeeded.
    pub fn delete(&mut self) -> (release: Option<Release>)
        ensures
            (*final(self), release) == old(self).spec_delete(),
            !final(self).is_live(),
            final(self).ffi_wrapper_addr() == old(self).ffi_wrapper_addr(),
    {
        broadcast use UserSpaceWrapper::lemma_with_cleared_ctx;
        if self.ctx == 0 {
            None
        } else {
            let release = Release { ctx: self.ctx, ffi_wrapper: self.ffi_wrapper };
            self.ctx = 0;
            Some(release)
        }
    }
}

/// Deleting twice is deleting once: after a deletion, a further deletion
/// changes nothing and releases nothing (so `cancel` followed by the drop of the
/// wrapper cancels the context and frees the FFI wrapper only once).
pub proof fn lemma_delete_idempotent(w: UserSpaceWrapper)
    ensures
        w.spec_delete().0.spec_delete() == (w.spec_delete().0, None::<Release>),
{
    broadcast use UserSpaceWrapper::lemma_with_cleared_ctx;
}

/// A deletion releases exactly what the registration recorded: the context
/// that `libdummy` returned and the FFI wrapper that was handed to it, and
/// nothing when that context was null.
pub proof fn lemma_delete_releases_registration(ffi_wrapper: usize, ctx: usize, w: UserSpaceWrapper)
    requires
        w.ffi_wrapper_addr() == ffi_wrapper,
        w.ctx_addr() == ctx,
    ensures
        w.spec_delete().1 == (if ctx != 0 {
            Some(Release { ctx, ffi_wrapper })
        } else {
            None
        }),
{
}

/// However many deletions follow one another, a registration is released at
/// most once: exactly once when it was live and at least one deletion
/// happens, never otherwise.
pub proof fn lemma_released_at_most_once(w: UserSpaceWrapper, n: nat)
    ensures
        w.release_count(n) == (if w.is_live() && n > 0 { 1nat } else { 0nat }),
    decreases n,
{
    broadcast use UserSpaceWrapper::lemma_with_cleared_ctx;
    if n > 0 {
        let next = w.spec_delete().0;
        assert(!next.is_live());
        lemma_released_at_most_once(next, (n - 1) as nat);
    }
}

} // verus!
