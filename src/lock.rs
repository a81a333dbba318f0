use vstd::prelude::*;

verus! {

/// parking_lot's raw read/write lock, which its `RwLock` is built on; opaque here.
#[verifier::external_type_specification]
#[verifier::external_body]
pub struct ExRawRwLock(parking_lot::RawRwLock);

/// The lock type behind `parking_lot::RwLock`; its content is opaque here, and
/// is only ever reached through `with_read` and `with_write`.
#[verifier::external_type_specification]
#[verifier::external_body]
#[verifier::reject_recursive_types(R)]
#[verifier::reject_recursive_types(T)]
pub struct ExRwLock<R, T: ?Sized>(parking_lot::lock_api::RwLock<R, T>);

/// Relies on parking_lot's `RwLock::new`: an unlocked lock holding `value`.
#[verifier::external_body]
pub(crate) fn new_lock<T>(value: T) -> (r: parking_lot::RwLock<T>) {
    parking_lot::RwLock::new(value)
}

/// Relies on parking_lot's `RwLock::read`: runs `f` on the content while a
/// shared lock is held, so other readers may run alongside but no writer.
/// The content is whatever the last writer left, so only what `f` promises
/// for some content is known of the result. The lock does not re-enter: `f`
/// must not take the same lock again.
#[verifier::external_body]
pub(crate) fn with_read<T, U, F: FnOnce(&T) -> U>(lock: &parking_lot::RwLock<T>, f: F) -> (r: U)
    requires
        forall|s: T| f.requires((&s,)),
    ensures
        exists|s: T| f.ensures((&s,), r),
{
    f(&lock.read())
}

/// Relies on parking_lot's `RwLock::write`: runs `f` on the content while the
/// lock is held exclusively, so no other reader or writer runs meanwhile.
/// As with `with_read`, `f` must not take the same lock again.
#[verifier::external_body]
pub(crate) fn with_write<T, U, F: FnOnce(&mut T) -> U>(lock: &parking_lot::RwLock<T>, f: F) -> (r: U)
    requires
        forall|m: &mut T| f.requires((m,)),
    ensures
        exists|m: &mut T| f.ensures((m,), r),
{
    f(&mut lock.write())
}

} // verus!
