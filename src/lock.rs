use std::sync::Arc;
use vstd::prelude::*;

verus! {

/// parking_lot's raw reader-writer lock, carried through as an opaque value.
#[verifier::external_type_specification]
#[verifier::external_body]
pub struct ExRawRwLock(parking_lot::RawRwLock);

/// lock_api's reader-writer lock, which `parking_lot::RwLock<T>` names with
/// parking_lot's raw lock; carried through as an opaque value.
#[verifier::external_type_specification]
#[verifier::external_body]
#[verifier::reject_recursive_types(R)]
#[verifier::reject_recursive_types(T)]
pub struct ExLockApiRwLock<R, T: ?Sized>(parking_lot::lock_api::RwLock<R, T>);

/// Relies on parking_lot::RwLock::new (lock_api::RwLock::new): wraps the value in
/// an unlocked reader-writer lock, shared through an `Arc`.
#[verifier::external_body]
pub(crate) fn new_shared<T>(value: T) -> (r: Arc<parking_lot::RwLock<T>>) {
    Arc::new(parking_lot::RwLock::new(value))
}

/// Relies on lock_api::RwLock::read: blocks until shared access is granted,
/// then hands the protected value to `f` and releases the lock when `f` returns.
#[verifier::external_body]
pub(crate) fn read_with<T, R, F: FnOnce(&T) -> R>(lock: &Arc<parking_lot::RwLock<T>>, f: F) -> (r: R)
    requires
        forall|v: &T| #[trigger] f.requires((v,)),
    ensures
        exists|v: &T| #[trigger] f.ensures((v,), r),
{
    let guard = lock.read();
    f(&*guard)
}

/// Relies on lock_api::RwLock::write: blocks until exclusive access is granted,
/// then hands the protected value to `f` for update and releases the lock when
/// `f` returns.
#[verifier::external_body]
pub(crate) fn write_with<T, R, F: FnOnce(&mut T) -> R>(lock: &Arc<parking_lot::RwLock<T>>, f: F) -> (r: R)
    requires
        forall|v: &mut T| #[trigger] f.requires((v,)),
{
    let mut guard = lock.write();
    f(&mut *guard)
}

} // verus!
