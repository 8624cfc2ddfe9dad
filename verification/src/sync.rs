//! Identity-key adapters and wrappers for the atomically reference-counted
//! pointers `std::sync::Arc` and `std::sync::Weak`.
//!
//! The shapes mirror those of the [`crate::rc`] module; only the underlying
//! pointer kind differs. Because the reference count is atomic, an upgrade
//! may race with a final release on another thread: the call then returns
//! either a strong adapter or `None`, both valid outcomes, and never
//! observes a torn count.

use vstd::prelude::*;

verus! {

use crate::generic;
use crate::generic::Weak;
use std::sync::Arc;

/// An atomically reference-counted weak pointer, held opaquely for the
/// verifier.
///
/// `std::sync::Weak` itself cannot be named in a verified signature, so the
/// library carries it inside this struct; [`WeakRef`] pairs it with the
/// identity key of the allocation it refers to.
#[verifier::external_body]
#[verifier::reject_recursive_types(T)]
pub struct ArcWeak<T> {
    ptr: std::sync::Weak<T>,
}

/// Relies on `std::sync::Weak::new`: returns a weak pointer that never had
/// an allocation, so upgrading it always fails.
#[verifier::external_body]
fn arc_weak_new<T>() -> ArcWeak<T> {
    ArcWeak { ptr: std::sync::Weak::new() }
}

/// Relies on `Arc::as_ptr`: returns the address of the shared allocation,
/// the same value for every strong or weak handle to that allocation and
/// for as long as the allocation exists.
#[verifier::external_body]
fn arc_addr<T>(ptr: &Arc<T>) -> usize {
    Arc::as_ptr(ptr) as usize
}

/// Relies on `Arc::clone`: returns a second strong handle to the same
/// allocation, so the pointee is the same value; only the reference count
/// changes.
#[verifier::external_body]
fn arc_clone<T>(ptr: &Arc<T>) -> (r: Arc<T>)
    ensures
        r == *ptr,
{
    Arc::clone(ptr)
}

/// Relies on `Arc::downgrade`: returns a weak handle to the same
/// allocation, without keeping the pointee alive.
#[verifier::external_body]
fn arc_downgrade<T>(ptr: &Arc<T>) -> ArcWeak<T> {
    ArcWeak { ptr: Arc::downgrade(ptr) }
}

/// Relies on `std::sync::Weak::as_ptr`: returns the address of the
/// allocation the handle refers to, the same value for every strong or
/// weak handle to that allocation; weak pointers that never had an
/// allocation share one sentinel address.
#[verifier::external_body]
fn arc_weak_addr<T>(w: &ArcWeak<T>) -> usize {
    w.ptr.as_ptr() as usize
}

/// Relies on `std::sync::Weak::clone`: returns a second weak handle to the
/// same allocation.
#[verifier::external_body]
fn arc_weak_clone<T>(w: &ArcWeak<T>) -> ArcWeak<T> {
    ArcWeak { ptr: w.ptr.clone() }
}

/// Relies on `std::sync::Weak::upgrade`: returns a strong handle to the
/// same allocation when at least one strong reference was still live at
/// the moment of the call, and `None` otherwise; under a race with a final
/// release elsewhere, either outcome is possible and both are reported
/// faithfully.
#[verifier::external_body]
fn arc_weak_upgrade<T>(w: &ArcWeak<T>) -> Option<Arc<T>> {
    w.ptr.upgrade()
}

/// A strong atomically reference-counted pointer adapter: an `Arc` paired
/// with the identity key of its allocation. The key is recorded once, when
/// the `Arc` is adopted, and carried unchanged through every clone,
/// downgrade and upgrade derived from this adapter.
pub struct Strong<T> {
    ptr: Arc<T>,
    key: usize,
}

impl<T> Strong<T> {
    /// The strong pointer this adapter holds, which the verifier reads as
    /// the pointee's value.
    pub closed spec fn arc_spec(&self) -> Arc<T> {
        self.ptr
    }

    /// Adopts a strong pointer, recording the identity key of its
    /// allocation. The pointee is handed on unchanged.
    pub fn from_arc(ptr: Arc<T>) -> (r: Self)
        ensures
            r.arc_spec() == ptr,
    {
        let key = arc_addr(&ptr);
        Strong { ptr, key }
    }

    /// Consumes the adapter and returns the strong pointer it holds.
    pub fn into_arc(self) -> (r: Arc<T>)
        ensures
            r == self.arc_spec(),
    {
        self.ptr
    }

    /// Borrows the strong pointer the adapter holds.
    pub fn arc_ref(&self) -> (r: &Arc<T>)
        ensures
            *r == self.arc_spec(),
    {
        &self.ptr
    }

    /// Returns a second adapter for the same allocation: it holds the same
    /// pointee and shares the identity key.
    pub fn duplicate(&self) -> (r: Self)
        ensures
            r.key_spec() == self.key_spec(),
            r.arc_spec() == self.arc_spec(),
    {
        Strong { ptr: arc_clone(&self.ptr), key: self.key }
    }

    /// Returns a weak adapter for the same allocation: it shares the
    /// identity key but does not keep the pointee alive.
    pub fn downgrade(&self) -> (r: WeakRef<T>)
        ensures
            r.key_spec() == self.key_spec(),
    {
        WeakRef { ptr: arc_downgrade(&self.ptr), key: self.key }
    }
}

impl<T> generic::Weak for Strong<T> {
    type Strong = Strong<T>;

    closed spec fn key_spec(&self) -> usize {
        self.key
    }

    open spec fn strong_key_spec(s: &Strong<T>) -> usize {
        s.key_spec()
    }

    /// A strong adapter keeps the pointee alive, so an upgrade can never
    /// fail: it is a duplicate of the handle already held.
    open spec fn upgrade_always(&self) -> bool {
        true
    }

    fn key(&self) -> (r: usize) {
        self.key
    }

    fn clone_ref(&self) -> (r: Self) {
        self.duplicate()
    }

    fn upgrade(&self) -> (r: Option<Strong<T>>) {
        Some(self.duplicate())
    }
}

/// A weak atomically reference-counted pointer adapter: a weak pointer
/// paired with the identity key of the allocation it refers to. It does
/// not keep the pointee alive; the key outlives the pointee and keeps
/// comparing as before after the pointee is dropped.
#[verifier::reject_recursive_types(T)]
pub struct WeakRef<T> {
    ptr: ArcWeak<T>,
    key: usize,
}

impl<T> WeakRef<T> {
    /// Adopts a weak pointer, recording the identity key of the allocation
    /// it refers to.
    pub fn from_weak(ptr: ArcWeak<T>) -> Self {
        let key = arc_weak_addr(&ptr);
        WeakRef { ptr, key }
    }

    /// Returns an adapter around a weak pointer that never had an
    /// allocation: upgrading it always fails, and all such adapters share
    /// one identity key.
    pub fn unallocated() -> Self {
        WeakRef::from_weak(arc_weak_new())
    }

    /// Consumes the adapter and returns the weak pointer it holds.
    pub fn into_weak(self) -> ArcWeak<T> {
        self.ptr
    }

    /// Borrows the weak pointer the adapter holds.
    pub fn weak_ref(&self) -> &ArcWeak<T> {
        &self.ptr
    }
}

impl<T> generic::Weak for WeakRef<T> {
    type Strong = Strong<T>;

    closed spec fn key_spec(&self) -> usize {
        self.key
    }

    open spec fn strong_key_spec(s: &Strong<T>) -> usize {
        s.key_spec()
    }

    /// A weak adapter does not keep the pointee alive, so no success is
    /// promised: an upgrade fails once every strong reference is gone.
    open spec fn upgrade_always(&self) -> bool {
        false
    }

    fn key(&self) -> (r: usize) {
        self.key
    }

    fn clone_ref(&self) -> (r: Self) {
        WeakRef { ptr: arc_weak_clone(&self.ptr), key: self.key }
    }

    fn upgrade(&self) -> (r: Option<Strong<T>>) {
        match arc_weak_upgrade(&self.ptr) {
            Some(p) => Some(Strong { ptr: p, key: self.key }),
            None => None,
        }
    }
}

/// Law: every handle derived from one strong adapter — a duplicate or a
/// downgrade — carries that adapter's identity key, so the wrappers of all
/// such handles are equal as keys and hash alike.
pub proof fn lemma_derived_handles_agree<T>(s: Strong<T>, c: Strong<T>, d: WeakRef<T>)
    requires
        call_ensures(Strong::<T>::duplicate, (&s,), c),
        call_ensures(Strong::<T>::downgrade, (&s,), d),
    ensures
        c.key_spec() == s.key_spec(),
        d.key_spec() == s.key_spec(),
        generic::key_hash(c.key_spec()) == generic::key_hash(d.key_spec()),
{
}

/// A thin wrapper around an [`Arc`] suitable for use as a key.
///
/// Equality and comparisons are defined in terms of the identity key of
/// the allocation, and the hash value agrees with them. This is stable in
/// the presence of interior mutability of the pointee.
pub struct ArcKey<T> {
    inner: generic::WeakKey<Strong<T>>,
}

impl<T> ArcKey<T> {
    /// The strong adapter this wrapper holds.
    pub closed spec fn strong_spec(&self) -> Strong<T> {
        self.inner.inner_spec()
    }

    /// The identity key this wrapper compares, orders and hashes by.
    pub open spec fn key_spec(&self) -> usize {
        self.strong_spec().key_spec()
    }

    /// The strong pointer this wrapper holds, which the verifier reads as
    /// the pointee's value.
    pub open spec fn arc_spec(&self) -> Arc<T> {
        self.strong_spec().arc_spec()
    }

    /// Returns an [`ArcKey`] wrapping the provided [`Arc`]. The pointee is
    /// handed on unchanged; the identity key of its allocation is recorded.
    pub fn new(inner: Arc<T>) -> (r: Self)
        ensures
            r.arc_spec() == inner,
    {
        ArcKey { inner: generic::WeakKey::new(Strong::from_arc(inner)) }
    }

    /// Returns the inner [`Arc`], unchanged.
    pub fn into_inner(self) -> (r: Arc<T>)
        ensures
            r == self.arc_spec(),
    {
        self.inner.into_inner().into_arc()
    }

    /// Returns a reference to the inner [`Arc`].
    pub fn inner(&self) -> (r: &Arc<T>)
        ensures
            *r == self.arc_spec(),
    {
        self.inner.inner().arc_ref()
    }

    /// Returns the identity key.
    pub fn key(&self) -> (r: usize)
        ensures
            r == self.key_spec(),
    {
        self.inner.key()
    }

    /// Renders the wrapper for debugging: the identity key in hexadecimal,
    /// and nothing of the pointee.
    pub fn render(&self) -> (s: String)
        ensures
            s@ == generic::render_spec(self.key_spec()),
    {
        self.inner.render()
    }

    /// The hash value of this wrapper: a function of the identity key
    /// alone, so keys that compare equal hash identically.
    pub fn hash_code(&self) -> (r: u64)
        ensures
            r == generic::key_hash(self.key_spec()),
    {
        self.inner.hash_code()
    }
}

impl<T> Clone for ArcKey<T> {
    /// The copy holds the same pointee and carries the same identity key,
    /// so it compares equal to the original.
    fn clone(&self) -> (r: Self)
        ensures
            r.key_spec() == self.key_spec(),
            r.arc_spec() == self.arc_spec(),
    {
        ArcKey { inner: generic::WeakKey::new(self.inner.inner().duplicate()) }
    }
}

impl<T> PartialEq for ArcKey<T> {
    fn eq(&self, other: &Self) -> (r: bool) {
        self.inner == other.inner
    }
}

impl<T> Eq for ArcKey<T> {}

impl<T> vstd::std_specs::cmp::PartialEqSpecImpl for ArcKey<T> {
    open spec fn obeys_eq_spec() -> bool {
        true
    }

    open spec fn eq_spec(&self, other: &Self) -> bool {
        self.key_spec() == other.key_spec()
    }
}

impl<T> PartialOrd for ArcKey<T> {
    fn partial_cmp(&self, other: &Self) -> (r: Option<core::cmp::Ordering>) {
        self.inner.partial_cmp(&other.inner)
    }
}

impl<T> vstd::std_specs::cmp::PartialOrdSpecImpl for ArcKey<T> {
    open spec fn obeys_partial_cmp_spec() -> bool {
        true
    }

    open spec fn partial_cmp_spec(&self, other: &Self) -> Option<core::cmp::Ordering> {
        if self.key_spec() < other.key_spec() {
            Some(core::cmp::Ordering::Less)
        } else if self.key_spec() == other.key_spec() {
            Some(core::cmp::Ordering::Equal)
        } else {
            Some(core::cmp::Ordering::Greater)
        }
    }
}

} // verus!
