use std::cell::{BorrowError, BorrowMutError, Ref, RefCell, RefMut};
use std::rc::Rc;
use vstd::prelude::*;

verus! {

#[verifier::external_type_specification]
#[verifier::external_body]
#[verifier::reject_recursive_types(T)]
pub struct ExRefCell<T: ?Sized>(RefCell<T>);

#[verifier::external_type_specification]
#[verifier::external_body]
#[verifier::reject_recursive_types(T)]
pub struct ExRef<'b, T: ?Sized>(Ref<'b, T>);

#[verifier::external_type_specification]
#[verifier::external_body]
#[verifier::reject_recursive_types(T)]
pub struct ExRefMut<'b, T: ?Sized + 'b>(RefMut<'b, T>);

#[verifier::external_type_specification]
#[verifier::external_body]
pub struct ExBorrowError(BorrowError);

#[verifier::external_type_specification]
#[verifier::external_body]
pub struct ExBorrowMutError(BorrowMutError);

/// Relies on `RefCell::new`: it wraps the value and never fails.
pub assume_specification<T>[ RefCell::<T>::new ](value: T) -> RefCell<T>;

/// Relies on `RefCell::try_borrow`: it never panics; it fails while the value
/// is mutably borrowed, which Verus cannot observe.
pub assume_specification<T: ?Sized>[ RefCell::<T>::try_borrow ](c: &RefCell<T>) -> Result<
    Ref<'_, T>,
    BorrowError,
>;

/// Relies on `RefCell::try_borrow_mut`: it never panics; it fails while the
/// value is borrowed, which Verus cannot observe.
pub assume_specification<T: ?Sized>[ RefCell::<T>::try_borrow_mut ](c: &RefCell<T>) -> Result<
    RefMut<'_, T>,
    BorrowMutError,
>;

/// A value shared by several owners on one thread, each of which may borrow
/// it mutably while no other borrow is alive.
///
/// To Verus the cell is opaque: which borrows are alive is decided at run
/// time, so the borrowing methods return `None` where `RefCell` would panic.
#[verifier::reject_recursive_types(T)]
pub struct RcCell<T: ?Sized>(pub Rc<RefCell<T>>);

impl<T: ?Sized> Clone for RcCell<T> {
    /// Another handle on the same cell.
    fn clone(&self) -> (r: Self) {
        RcCell(Rc::clone(&self.0))
    }
}

impl<T> RcCell<T> {
    /// A new cell holding `value`, with this handle as its only owner.
    pub fn new(value: T) -> Self {
        RcCell(Rc::new(RefCell::new(value)))
    }
}

impl<T: ?Sized> RcCell<T> {
    /// Shared access to the value; `None` while it is mutably borrowed.
    pub fn borrow(&self) -> Option<Ref<'_, T>> {
        self.bor()
    }

    /// Exclusive access to the value; `None` while it is borrowed.
    pub fn borrow_mut(&self) -> Option<RefMut<'_, T>> {
        self.bor_mut()
    }

    /// Shared access to the value; `None` while it is mutably borrowed.
    pub fn bor(&self) -> Option<Ref<'_, T>> {
        (*self.0).try_borrow().ok()
    }

    /// Exclusive access to the value; `None` while it is borrowed.
    pub fn bor_mut(&self) -> Option<RefMut<'_, T>> {
        (*self.0).try_borrow_mut().ok()
    }
}

} // verus!
