//! The identity-key engine: the capability contract a reference-counted
//! pointer kind must satisfy, and the generic wrapper that turns such a
//! pointer into a key for ordered and hashed containers.

use vstd::prelude::*;

verus! {

use core::cmp::Ordering;
use vstd::pervasive::cloned;
use vstd::std_specs::cmp::PartialEqSpec;
use vstd::std_specs::cmp::PartialOrdSpec;
use vstd::string::StringExecFns;

/// The capability contract for a pointer handle that can be used as an
/// identity key.
///
/// An implementor carries one reference-counted pointer (strong or weak)
/// together with its identity key: a value that identifies the backing
/// allocation, not the pointee's value. All handles derived from the same
/// allocation report the same key, whatever their kind and however often
/// they were cloned.
pub trait Weak: Sized {
    /// The strong pointer kind an upgrade attempt yields.
    type Strong;

    /// The identity key of the backing allocation.
    spec fn key_spec(&self) -> usize;

    /// The identity key reported by a strong pointer of the associated kind.
    spec fn strong_key_spec(s: &Self::Strong) -> usize;

    /// Whether an upgrade on this handle is guaranteed to succeed. True for
    /// handles that themselves hold a strong reference: they keep the
    /// pointee alive, so a duplicate strong reference is always available.
    spec fn upgrade_always(&self) -> bool;

    /// Returns the identity key.
    fn key(&self) -> (r: usize)
        ensures
            r == self.key_spec(),
    ;

    /// Returns a second handle to the same allocation. Only the reference
    /// count changes; the identity key is shared.
    fn clone_ref(&self) -> (r: Self)
        ensures
            r.key_spec() == self.key_spec(),
    ;

    /// Attempts to obtain a strong pointer to the allocation. Returns `None`
    /// exactly when no strong reference was left at the moment of the call;
    /// any strong pointer returned shares the identity key.
    fn upgrade(&self) -> (r: Option<Self::Strong>)
        ensures
            r matches Some(s) ==> Self::strong_key_spec(&s) == self.key_spec(),
            self.upgrade_always() ==> r is Some,
    ;
}

/// A thin wrapper around a pointer handle `W`, suitable for use as a key.
///
/// Equality and comparisons are defined in terms of the identity key of the
/// wrapped handle, and the hash value agrees with them. Neither looks at the
/// pointee, so both stay stable under interior mutability and after the
/// pointee has been dropped.
///
/// `WeakKey` must not implement `std::borrow::Borrow<W>`: that trait asks
/// that the borrowed form equal, order and hash as the owner does, and the
/// identity key deliberately disagrees with any value-based notion the
/// pointer kind may carry. The omission is part of the contract.
pub struct WeakKey<W> {
    inner: W,
}

impl<W: Weak> WeakKey<W> {
    /// The wrapped handle.
    pub closed spec fn inner_spec(&self) -> W {
        self.inner
    }

    /// The identity key this wrapper compares, orders and hashes by.
    pub open spec fn key_spec(&self) -> usize {
        self.inner_spec().key_spec()
    }

    /// Wraps a handle. Never fails.
    pub fn new(inner: W) -> (r: Self)
        ensures
            r.inner_spec() == inner,
    {
        WeakKey { inner }
    }

    /// Consumes the wrapper and returns the wrapped handle unchanged.
    pub fn into_inner(self) -> (r: W)
        ensures
            r == self.inner_spec(),
    {
        self.inner
    }

    /// Borrows the wrapped handle.
    pub fn inner(&self) -> (r: &W)
        ensures
            *r == self.inner_spec(),
    {
        &self.inner
    }

    /// Returns the identity key.
    pub fn key(&self) -> (r: usize)
        ensures
            r == self.key_spec(),
    {
        self.inner.key()
    }

    /// The hash value of this wrapper: a function of the identity key alone,
    /// so wrappers that compare equal hash identically.
    pub fn hash_code(&self) -> (r: u64)
        ensures
            r == key_hash(self.key_spec()),
    {
        self.inner.key() as u64
    }

    /// Renders the wrapper for debugging: the identity key in hexadecimal,
    /// and nothing of the pointee, so rendering never touches a pointee
    /// that may already have been dropped.
    pub fn render(&self) -> (s: String)
        ensures
            s@ == render_spec(self.key_spec()),
    {
        let prefix = String::from_str("WeakKey(0x");
        prefix.concat(hex_string(self.inner.key()).as_str()).concat(")")
    }

    /// Attempts to upgrade the wrapped handle to a strong pointer. Returns
    /// `None` exactly when the pointee had no strong reference left at the
    /// moment of the call.
    pub fn upgrade(&self) -> (r: Option<W::Strong>)
        ensures
            r matches Some(s) ==> W::strong_key_spec(&s) == self.key_spec(),
            self.inner_spec().upgrade_always() ==> r is Some,
    {
        self.inner.upgrade()
    }
}

/// The hash value belonging to an identity key. Equal keys give equal hash
/// values, and on the usual targets distinct keys give distinct hash values.
pub open spec fn key_hash(k: usize) -> u64 {
    k as u64
}

/// The hexadecimal digit for a value below sixteen.
pub open spec fn hex_digit(d: nat) -> char {
    if d == 0 {
        '0'
    } else if d == 1 {
        '1'
    } else if d == 2 {
        '2'
    } else if d == 3 {
        '3'
    } else if d == 4 {
        '4'
    } else if d == 5 {
        '5'
    } else if d == 6 {
        '6'
    } else if d == 7 {
        '7'
    } else if d == 8 {
        '8'
    } else if d == 9 {
        '9'
    } else if d == 10 {
        'a'
    } else if d == 11 {
        'b'
    } else if d == 12 {
        'c'
    } else if d == 13 {
        'd'
    } else if d == 14 {
        'e'
    } else {
        'f'
    }
}

/// The hexadecimal digits of a value, most significant first, without
/// leading zeroes (a single digit for zero itself).
pub open spec fn hex_digits(k: nat) -> Seq<char>
    decreases k,
{
    if k < 16 {
        seq![hex_digit(k)]
    } else {
        hex_digits(k / 16) + seq![hex_digit(k % 16)]
    }
}

/// What [`WeakKey::render`] produces for an identity key: the wrapper's
/// name around the key in hexadecimal, and nothing of the pointee.
pub open spec fn render_spec(k: usize) -> Seq<char> {
    "WeakKey(0x"@ + hex_digits(k as nat) + ")"@
}

/// Returns the hexadecimal digit for a value below sixteen.
fn hex_digit_str(d: usize) -> (r: &'static str)
    requires
        d < 16,
    ensures
        r@ == seq![hex_digit(d as nat)],
{
    proof {
        reveal_strlit("0");
        reveal_strlit("1");
        reveal_strlit("2");
        reveal_strlit("3");
        reveal_strlit("4");
        reveal_strlit("5");
        reveal_strlit("6");
        reveal_strlit("7");
        reveal_strlit("8");
        reveal_strlit("9");
        reveal_strlit("a");
        reveal_strlit("b");
        reveal_strlit("c");
        reveal_strlit("d");
        reveal_strlit("e");
        reveal_strlit("f");
    }
    let r: &'static str = if d == 0 {
        "0"
    } else if d == 1 {
        "1"
    } else if d == 2 {
        "2"
    } else if d == 3 {
        "3"
    } else if d == 4 {
        "4"
    } else if d == 5 {
        "5"
    } else if d == 6 {
        "6"
    } else if d == 7 {
        "7"
    } else if d == 8 {
        "8"
    } else if d == 9 {
        "9"
    } else if d == 10 {
        "a"
    } else if d == 11 {
        "b"
    } else if d == 12 {
        "c"
    } else if d == 13 {
        "d"
    } else if d == 14 {
        "e"
    } else {
        "f"
    };
    proof {
        assert(r@ =~= seq![hex_digit(d as nat)]);
    }
    r
}

/// Returns a value's hexadecimal digits, most significant first.
fn hex_string(k: usize) -> (s: String)
    ensures
        s@ == hex_digits(k as nat),
    decreases k,
{
    if k < 16 {
        String::from_str(hex_digit_str(k))
    } else {
        proof {
            assert(k / 16 < k) by (nonlinear_arith)
                requires
                    k >= 16,
            ;
        }
        let high = hex_string(k / 16);
        high.concat(hex_digit_str(k % 16))
    }
}

impl<W: Weak> Clone for WeakKey<W> {
    /// Clones the wrapped handle; the copy carries the same identity key and
    /// so compares equal to the original.
    fn clone(&self) -> (r: Self)
        ensures
            r.key_spec() == self.key_spec(),
    {
        WeakKey { inner: self.inner.clone_ref() }
    }
}

impl<W: Weak> PartialEq for WeakKey<W> {
    fn eq(&self, other: &Self) -> (r: bool) {
        self.inner.key() == other.inner.key()
    }
}

impl<W: Weak> Eq for WeakKey<W> {}

impl<W: Weak> vstd::std_specs::cmp::PartialEqSpecImpl for WeakKey<W> {
    open spec fn obeys_eq_spec() -> bool {
        true
    }

    open spec fn eq_spec(&self, other: &Self) -> bool {
        self.key_spec() == other.key_spec()
    }
}

impl<W: Weak> PartialOrd for WeakKey<W> {
    fn partial_cmp(&self, other: &Self) -> (r: Option<Ordering>) {
        let a = self.inner.key();
        let b = other.inner.key();
        if a < b {
            Some(Ordering::Less)
        } else if a == b {
            Some(Ordering::Equal)
        } else {
            Some(Ordering::Greater)
        }
    }
}

impl<W: Weak> vstd::std_specs::cmp::PartialOrdSpecImpl for WeakKey<W> {
    open spec fn obeys_partial_cmp_spec() -> bool {
        true
    }

    open spec fn partial_cmp_spec(&self, other: &Self) -> Option<Ordering> {
        if self.key_spec() < other.key_spec() {
            Some(Ordering::Less)
        } else if self.key_spec() == other.key_spec() {
            Some(Ordering::Equal)
        } else {
            Some(Ordering::Greater)
        }
    }
}

/// Law: two wrappers are equal exactly when their identity keys are equal,
/// and equal wrappers have equal hash values. Handles derived from one
/// allocation share the identity key — that is the `ensures` of every
/// deriving operation — so their wrappers are equal and hash alike.
pub proof fn lemma_identity_agreement<W: Weak>(a: WeakKey<W>, b: WeakKey<W>)
    ensures
        a.eq_spec(&b) <==> a.key_spec() == b.key_spec(),
        a.eq_spec(&b) ==> key_hash(a.key_spec()) == key_hash(b.key_spec()),
{
}

/// Law: the order on wrappers is a strict total order consistent with
/// equality. Any two wrappers compare, comparison answers `Equal` exactly
/// for equal wrappers, `Less` one way exactly when `Greater` the other
/// way, and a wrapper compares `Equal` — never `Less` — to itself; so of
/// `x < y`, `x == y` and `y < x` exactly one holds.
pub proof fn lemma_total_order<W: Weak>(x: WeakKey<W>, y: WeakKey<W>)
    ensures
        x.partial_cmp_spec(&y) is Some,
        x.partial_cmp_spec(&y) == Some(Ordering::Equal) <==> x.eq_spec(&y),
        x.partial_cmp_spec(&y) == Some(Ordering::Less) <==> y.partial_cmp_spec(&x) == Some(
            Ordering::Greater,
        ),
        x.partial_cmp_spec(&y) == Some(Ordering::Less) || x.eq_spec(&y) || y.partial_cmp_spec(&x)
            == Some(Ordering::Less),
        x.partial_cmp_spec(&x) == Some(Ordering::Equal),
{
}

/// Law: the order on wrappers is transitive, so repeated insertion into an
/// ordered structure places wrappers in one fixed order whatever the
/// insertion sequence.
pub proof fn lemma_order_transitive<W: Weak>(x: WeakKey<W>, y: WeakKey<W>, z: WeakKey<W>)
    requires
        x.partial_cmp_spec(&y) == Some(Ordering::Less),
        y.partial_cmp_spec(&z) == Some(Ordering::Less),
    ensures
        x.partial_cmp_spec(&z) == Some(Ordering::Less),
{
}

/// Law: unwrapping a wrapped handle gives back the very handle, so in
/// particular one with the same identity key.
pub proof fn lemma_round_trip<W: Weak>(p: W, wrapper: WeakKey<W>, q: W)
    requires
        call_ensures(WeakKey::<W>::new, (p,), wrapper),
        call_ensures(WeakKey::<W>::into_inner, (wrapper,), q),
    ensures
        q == p,
        q.key_spec() == p.key_spec(),
{
}

/// Law: upgrading a wrapper whose handle itself holds a strong reference
/// always succeeds, and the strong pointer returned carries the same
/// identity key.
pub proof fn lemma_strong_upgrade<W: Weak>(w: WeakKey<W>, r: Option<W::Strong>)
    requires
        w.inner_spec().upgrade_always(),
        call_ensures(WeakKey::<W>::upgrade, (&w,), r),
    ensures
        r is Some,
        W::strong_key_spec(&r.unwrap()) == w.key_spec(),
{
}

/// Law: the hash function never collides on distinct identity keys, so
/// wrappers of distinct allocations hash differently, not merely with high
/// probability.
pub proof fn lemma_hash_distinct(a: usize, b: usize)
    requires
        a != b,
    ensures
        key_hash(a) != key_hash(b),
{
}

/// Law: a cloned wrapper is equal to the wrapper it was cloned from, and
/// both have the same hash value.
pub proof fn lemma_clone_stability<W: Weak>(w: WeakKey<W>, c: WeakKey<W>)
    requires
        cloned::<WeakKey<W>>(w, c),
    ensures
        c.eq_spec(&w),
        key_hash(c.key_spec()) == key_hash(w.key_spec()),
{
}

} // verus!
