//! Identity-based key wrappers for reference-counted pointers.
//!
//! Reference-counted pointers compare by the value they point at, which makes
//! them awkward keys for maps and sets that should treat "same allocation" as
//! "same key". This crate derives equality, a total order and a hash value
//! from a stable identity key instead: the address of the shared allocation,
//! recorded once when a pointer is adopted and carried unchanged through
//! every clone, downgrade and upgrade. The key never looks at the pointee, so
//! comparisons stay well defined after the pointee has been dropped or
//! mutated through interior mutability.
//!
//! The [`generic`] module holds the core: the capability contract a pointer
//! kind must satisfy ([`generic::Weak`]) and the wrapper that turns any such
//! pointer into a key ([`generic::WeakKey`]). The [`rc`], [`sync`] and
//! [`arc`] modules instantiate the contract for the single-threaded and the
//! atomically reference-counted pointers of the standard library.

pub mod arc;
pub mod generic;
pub mod rc;
pub mod sync;
