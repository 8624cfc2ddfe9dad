//! Identity-key adapters and wrappers for the single-threaded
//! reference-counted pointers `std::rc::Rc` and `std::rc::Weak`.

use vstd::prelude::*;

verus! {

use crate::generic;
use crate::generic::Weak;
use std::rc::Rc;

/// A single-threaded weak pointer, held opaquely for the verifier.
///
/// `std::rc::Weak` itself cannot be named in a verified signature, so the
/// library carries it inside this struct; [`WeakRef`] pairs it with the
/// identity key of the allocation it refers to.
#[verifier::external_body]
#[verifier::reject_recursive_types(T)]
pub struct RcWeak<T> {
    ptr: std::rc::Weak<T>,
}

/// Relies on `std::rc::Weak::new`: returns a weak pointer that never had an
/// allocation, so upgrading it always fails.
#[verifier::external_body]
fn rc_weak_new<T>() -> RcWeak<T> {
    RcWeak { ptr: std::rc::Weak::new() }
}

/// Relies on `Rc::as_ptr`: returns the address of the shared allocation,
/// the same value for every strong or weak handle to that allocation and
/// for as long as the allocation exists.
#[verifier::external_body]
fn rc_addr<T>(ptr: &Rc<T>) -> usize {
    Rc::as_ptr(ptr) as usize
}

/// Relies on `Rc::clone`: returns a second strong handle to the same
/// allocation, so the pointee is the same value; only the reference count
/// changes.
#[verifier::external_body]
fn rc_clone<T>(ptr: &Rc<T>) -> (r: Rc<T>)
    ensures
        r == *ptr,
{
    Rc::clone(ptr)
}

/// Relies on `Rc::downgrade`: returns a weak handle to the same allocation,
/// without keeping the pointee alive.
#[verifier::external_body]
fn rc_downgrade<T>(ptr: &Rc<T>) -> RcWeak<T> {
    RcWeak { ptr: Rc::downgrade(ptr) }
}

/// Relies on `std::rc::Weak::as_ptr`: returns the address of the allocation
/// the handle refers to, the same value for every strong or weak handle to
/// that allocation; weak pointers that never had an allocation share one
/// sentinel address.
#[verifier::external_body]
fn rc_weak_addr<T>(w: &RcWeak<T>) -> usize {
    w.ptr.as_ptr() as usize
}

/// Relies on `std::rc::Weak::clone`: returns a second weak handle to the
/// same allocation.
#[verifier::external_body]
fn rc_weak_clone<T>(w: &RcWeak<T>) -> RcWeak<T> {
    RcWeak { ptr: w.ptr.clone() }
}

/// Relies on `std::rc::Weak::upgrade`: returns a strong handle to the same
/// allocation when at least one strong reference was still live at the
/// moment of the call, and `None` otherwise.
#[verifier::external_body]
fn rc_weak_upgrade<T>(w: &RcWeak<T>) -> Option<Rc<T>> {
    w.ptr.upgrade()
}

/// A strong single-threaded pointer adapter: an `Rc` paired with the
/// identity key of its allocation. The key is recorded once, when the `Rc`
/// is adopted, and carried unchanged through every clone, downgrade and
/// upgrade derived from this adapter.
pub struct Strong<T> {
    ptr: Rc<T>,
    key: usize,
}

impl<T> Strong<T> {
    /// The strong pointer this adapter holds, which the verifier reads as
    /// the pointee's value.
    pub closed spec fn rc_spec(&self) -> Rc<T> {
        self.ptr
    }

    /// Adopts a strong pointer, recording the identity key of its
    /// allocation. The pointee is handed on unchanged.
    pub fn from_rc(ptr: Rc<T>) -> (r: Self)
        ensures
            r.rc_spec() == ptr,
    {
        let key = rc_addr(&ptr);
        Strong { ptr, key }
    }

    /// Consumes the adapter and returns the strong pointer it holds.
    pub fn into_rc(self) -> (r: Rc<T>)
        ensures
            r == self.rc_spec(),
    {
        self.ptr
    }

    /// Borrows the strong pointer the adapter holds.
    pub fn rc_ref(&self) -> (r: &Rc<T>)
        ensures
            *r == self.rc_spec(),
    {
        &self.ptr
    }

    /// Returns a second adapter for the same allocation: it holds the same
    /// pointee and shares the identity key.
    pub fn duplicate(&self) -> (r: Self)
        ensures
            r.key_spec() == self.key_spec(),
            r.rc_spec() == self.rc_spec(),
    {
        Strong { ptr: rc_clone(&self.ptr), key: self.key }
    }

    /// Returns a weak adapter for the same allocation: it shares the
    /// identity key but does not keep the pointee alive.
    pub fn downgrade(&self) -> (r: WeakRef<T>)
        ensures
            r.key_spec() == self.key_spec(),
    {
        WeakRef { ptr: rc_downgrade(&self.ptr), key: self.key }
    }
}

impl<T> generic::Weak for Strong<T> {
    type Strong = Strong<T>;

    closed spec fn key_spec(&self) -> usize {
        self.key
    }

    open spec fn strong_key_spec(s: &Strong<T>) -> usize {
        s.key_spec()
    }

    /// A strong adapter keeps the pointee alive, so an upgrade can never
    /// fail: it is a duplicate of the handle already held.
    open spec fn upgrade_always(&self) -> bool {
        true
    }

    fn key(&self) -> (r: usize) {
        self.key
    }

    fn clone_ref(&self) -> (r: Self) {
        self.duplicate()
    }

    fn upgrade(&self) -> (r: Option<Strong<T>>) {
        Some(self.duplicate())
    }
}

/// A weak single-threaded pointer adapter: a weak pointer paired with the
/// identity key of the allocation it refers to. It does not keep the
/// pointee alive; the key outlives the pointee and keeps comparing as
/// before after the pointee is dropped.
#[verifier::reject_recursive_types(T)]
pub struct WeakRef<T> {
    ptr: RcWeak<T>,
    key: usize,
}

impl<T> WeakRef<T> {
    /// Adopts a weak pointer, recording the identity key of the allocation
    /// it refers to.
    pub fn from_weak(ptr: RcWeak<T>) -> Self {
        let key = rc_weak_addr(&ptr);
        WeakRef { ptr, key }
    }

    /// Returns an adapter around a weak pointer that never had an
    /// allocation: upgrading it always fails, and all such adapters share
    /// one identity key.
    pub fn unallocated() -> Self {
        WeakRef::from_weak(rc_weak_new())
    }

    /// Consumes the adapter and returns the weak pointer it holds.
    pub fn into_weak(self) -> RcWeak<T> {
        self.ptr
    }

    /// Borrows the weak pointer the adapter holds.
    pub fn weak_ref(&self) -> &RcWeak<T> {
        &self.ptr
    }
}

impl<T> generic::Weak for WeakRef<T> {
    type Strong = Strong<T>;

    closed spec fn key_spec(&self) -> usize {
        self.key
    }

    open spec fn strong_key_spec(s: &Strong<T>) -> usize {
        s.key_spec()
    }

    /// A weak adapter does not keep the pointee alive, so no success is
    /// promised: an upgrade fails once every strong reference is gone.
    open spec fn upgrade_always(&self) -> bool {
        false
    }

    fn key(&self) -> (r: usize) {
        self.key
    }

    fn clone_ref(&self) -> (r: Self) {
        WeakRef { ptr: rc_weak_clone(&self.ptr), key: self.key }
    }

    fn upgrade(&self) -> (r: Option<Strong<T>>) {
        match rc_weak_upgrade(&self.ptr) {
            Some(p) => Some(Strong { ptr: p, key: self.key }),
            None => None,
        }
    }
}

/// Law: every handle derived from one strong adapter — a duplicate or a
/// downgrade — carries that adapter's identity key, so the wrappers of all
/// such handles are equal as keys and hash alike.
pub proof fn lemma_derived_handles_agree<T>(s: Strong<T>, c: Strong<T>, d: WeakRef<T>)
    requires
        call_ensures(Strong::<T>::duplicate, (&s,), c),
        call_ensures(Strong::<T>::downgrade, (&s,), d),
    ensures
        c.key_spec() == s.key_spec(),
        d.key_spec() == s.key_spec(),
        generic::key_hash(c.key_spec()) == generic::key_hash(d.key_spec()),
{
}

/// A thin wrapper around an [`Rc`] suitable for use as a key.
///
/// Equality and comparisons are defined in terms of the identity key of
/// the allocation, and the hash value agrees with them. This is stable in
/// the presence of interior mutability of the pointee.
pub struct RcKey<T> {
    inner: generic::WeakKey<Strong<T>>,
}

impl<T> RcKey<T> {
    /// The strong adapter this wrapper holds.
    pub closed spec fn strong_spec(&self) -> Strong<T> {
        self.inner.inner_spec()
    }

    /// The identity key this wrapper compares, orders and hashes by.
    pub open spec fn key_spec(&self) -> usize {
        self.strong_spec().key_spec()
    }

    /// The strong pointer this wrapper holds, which the verifier reads as
    /// the pointee's value.
    pub open spec fn rc_spec(&self) -> Rc<T> {
        self.strong_spec().rc_spec()
    }

    /// Returns an [`RcKey`] wrapping the provided [`Rc`]. The pointee is
    /// handed on unchanged; the identity key of its allocation is recorded.
    pub fn new(inner: Rc<T>) -> (r: Self)
        ensures
            r.rc_spec() == inner,
    {
        RcKey { inner: generic::WeakKey::new(Strong::from_rc(inner)) }
    }

    /// Returns the inner [`Rc`], unchanged.
    pub fn into_inner(self) -> (r: Rc<T>)
        ensures
            r == self.rc_spec(),
    {
        self.inner.into_inner().into_rc()
    }

    /// Returns a reference to the inner [`Rc`].
    pub fn inner(&self) -> (r: &Rc<T>)
        ensures
            *r == self.rc_spec(),
    {
        self.inner.inner().rc_ref()
    }

    /// Returns the identity key.
    pub fn key(&self) -> (r: usize)
        ensures
            r == self.key_spec(),
    {
        self.inner.key()
    }

    /// Renders the wrapper for debugging: the identity key in hexadecimal,
    /// and nothing of the pointee.
    pub fn render(&self) -> (s: String)
        ensures
            s@ == generic::render_spec(self.key_spec()),
    {
        self.inner.render()
    }

    /// The hash value of this wrapper: a function of the identity key
    /// alone, so keys that compare equal hash identically.
    pub fn hash_code(&self) -> (r: u64)
        ensures
            r == generic::key_hash(self.key_spec()),
    {
        self.inner.hash_code()
    }
}

impl<T> Clone for RcKey<T> {
    /// The copy holds the same pointee and carries the same identity key,
    /// so it compares equal to the original.
    fn clone(&self) -> (r: Self)
        ensures
            r.key_spec() == self.key_spec(),
            r.rc_spec() == self.rc_spec(),
    {
        RcKey { inner: generic::WeakKey::new(self.inner.inner().duplicate()) }
    }
}

impl<T> PartialEq for RcKey<T> {
    fn eq(&self, other: &Self) -> (r: bool) {
        self.inner == other.inner
    }
}

impl<T> Eq for RcKey<T> {}

impl<T> vstd::std_specs::cmp::PartialEqSpecImpl for RcKey<T> {
    open spec fn obeys_eq_spec() -> bool {
        true
    }

    open spec fn eq_spec(&self, other: &Self) -> bool {
        self.key_spec() == other.key_spec()
    }
}

impl<T> PartialOrd for RcKey<T> {
    fn partial_cmp(&self, other: &Self) -> (r: Option<core::cmp::Ordering>) {
        self.inner.partial_cmp(&other.inner)
    }
}

impl<T> vstd::std_specs::cmp::PartialOrdSpecImpl for RcKey<T> {
    open spec fn obeys_partial_cmp_spec() -> bool {
        true
    }

    open spec fn partial_cmp_spec(&self, other: &Self) -> Option<core::cmp::Ordering> {
        if self.key_spec() < other.key_spec() {
            Some(core::cmp::Ordering::Less)
        } else if self.key_spec() == other.key_spec() {
            Some(core::cmp::Ordering::Equal)
        } else {
            Some(core::cmp::Ordering::Greater)
        }
    }
}

/// A thin wrapper around a weak single-threaded pointer suitable for use
/// as a key.
///
/// Equality and comparisons are defined in terms of the identity key of
/// the allocation, and the hash value agrees with them. This is stable in
/// the presence of interior mutability and when the pointee is dropped:
/// the key keeps its equality and ordering relations to previously derived
/// keys after the allocation is gone.
#[verifier::reject_recursive_types(T)]
pub struct WeakKey<T> {
    inner: generic::WeakKey<WeakRef<T>>,
}

impl<T> WeakKey<T> {
    /// The weak adapter this wrapper holds.
    pub closed spec fn weak_spec(&self) -> WeakRef<T> {
        self.inner.inner_spec()
    }

    /// The identity key this wrapper compares, orders and hashes by.
    pub open spec fn key_spec(&self) -> usize {
        self.weak_spec().key_spec()
    }

    /// Returns a [`WeakKey`] with the inner weak adapter.
    pub fn new(inner: WeakRef<T>) -> (r: Self)
        ensures
            r.weak_spec() == inner,
    {
        WeakKey { inner: generic::WeakKey::new(inner) }
    }

    /// Returns a [`WeakKey`] for the allocation a strong adapter holds, by
    /// downgrading it: the key is equal to the strong adapter's key, and
    /// the wrapper does not keep the pointee alive.
    pub fn from_strong(s: &Strong<T>) -> (r: Self)
        ensures
            r.key_spec() == s.key_spec(),
    {
        WeakKey::new(s.downgrade())
    }

    /// Returns the inner weak adapter, unchanged.
    pub fn into_inner(self) -> (r: WeakRef<T>)
        ensures
            r == self.weak_spec(),
    {
        self.inner.into_inner()
    }

    /// Returns a reference to the inner weak adapter.
    pub fn inner(&self) -> (r: &WeakRef<T>)
        ensures
            *r == self.weak_spec(),
    {
        self.inner.inner()
    }

    /// Attempts to upgrade the weak pointer to a strong adapter, delaying
    /// dropping of the pointee if successful.
    ///
    /// Returns `None` exactly when the pointee had no strong reference
    /// left at the moment of the call; a returned strong adapter shares
    /// the identity key.
    pub fn upgrade(&self) -> (r: Option<Strong<T>>)
        ensures
            r matches Some(s) ==> s.key_spec() == self.key_spec(),
    {
        self.inner.upgrade()
    }

    /// Returns the identity key.
    pub fn key(&self) -> (r: usize)
        ensures
            r == self.key_spec(),
    {
        self.inner.key()
    }

    /// Renders the wrapper for debugging: the identity key in hexadecimal,
    /// and nothing of the pointee.
    pub fn render(&self) -> (s: String)
        ensures
            s@ == generic::render_spec(self.key_spec()),
    {
        self.inner.render()
    }

    /// The hash value of this wrapper: a function of the identity key
    /// alone, so keys that compare equal hash identically.
    pub fn hash_code(&self) -> (r: u64)
        ensures
            r == generic::key_hash(self.key_spec()),
    {
        self.inner.hash_code()
    }
}

impl<T> Clone for WeakKey<T> {
    /// The copy refers to the same allocation and carries the same
    /// identity key, so it compares equal to the original.
    fn clone(&self) -> (r: Self)
        ensures
            r.key_spec() == self.key_spec(),
    {
        WeakKey { inner: self.inner.clone() }
    }
}

impl<T> PartialEq for WeakKey<T> {
    fn eq(&self, other: &Self) -> (r: bool) {
        self.inner == other.inner
    }
}

impl<T> Eq for WeakKey<T> {}

impl<T> vstd::std_specs::cmp::PartialEqSpecImpl for WeakKey<T> {
    open spec fn obeys_eq_spec() -> bool {
        true
    }

    open spec fn eq_spec(&self, other: &Self) -> bool {
        self.key_spec() == other.key_spec()
    }
}

impl<T> PartialOrd for WeakKey<T> {
    fn partial_cmp(&self, other: &Self) -> (r: Option<core::cmp::Ordering>) {
        self.inner.partial_cmp(&other.inner)
    }
}

impl<T> vstd::std_specs::cmp::PartialOrdSpecImpl for WeakKey<T> {
    open spec fn obeys_partial_cmp_spec() -> bool {
        true
    }

    open spec fn partial_cmp_spec(&self, other: &Self) -> Option<core::cmp::Ordering> {
        if self.key_spec() < other.key_spec() {
            Some(core::cmp::Ordering::Less)
        } else if self.key_spec() == other.key_spec() {
            Some(core::cmp::Ordering::Equal)
        } else {
            Some(core::cmp::Ordering::Greater)
        }
    }
}

} // verus!
