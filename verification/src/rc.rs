//! A shared handle to a value that several owners mutate in turn, such as a
//! socket that is read as a stream and written as a sink.
use vstd::prelude::*;

use std::cell::{RefCell, RefMut};
use std::rc::Rc;

verus! {

#[verifier::external_type_specification]
#[verifier::external_body]
#[verifier::reject_recursive_types(T)]
pub struct ExRefCell<T: ?Sized>(RefCell<T>);

#[verifier::external_type_specification]
#[verifier::external_body]
#[verifier::reject_recursive_types(T)]
pub struct ExRefMut<'b, T: ?Sized + 'b>(RefMut<'b, T>);

/// Calls `RefCell::new`. What the cell holds is invisible to Verus, so
/// nothing is claimed of the result.
#[verifier::external_body]
fn refcell_new<T>(t: T) -> RefCell<T> {
    RefCell::new(t)
}

/// Calls `RefCell::try_borrow_mut`, which fails while the value is
/// borrowed. Whether it is borrowed depends on guards alive at run time,
/// which Verus does not track, so nothing is claimed of the result.
#[verifier::external_body]
fn refcell_try_borrow_mut<'a, T>(cell: &'a RefCell<T>) -> Option<RefMut<'a, T>> {
    match cell.try_borrow_mut() {
        Ok(guard) => Some(guard),
        Err(_) => None,
    }
}

/// Several owning references to one `T`, each able to mutate it while no
/// other holds it.
#[verifier::reject_recursive_types(T)]
pub struct RcObject<T>(Rc<RefCell<T>>);

impl<T> RcObject<T> {
    /// A handle to a new shared cell that holds `t`.
    pub fn new(t: T) -> RcObject<T> {
        RcObject(Rc::new(refcell_new(t)))
    }

    /// Mutable access to the shared value; `None` while another handle
    /// holds it.
    pub fn borrow_mut(&self) -> Option<RefMut<'_, T>> {
        refcell_try_borrow_mut(&*self.0)
    }

    /// The shared cell that the handle refers to.
    pub closed spec fn cell(&self) -> RefCell<T> {
        *self.0
    }
}

impl<T> Clone for RcObject<T> {
    /// Another handle to the same shared value.
    fn clone(&self) -> (r: RcObject<T>)
        ensures
            r.cell() == self.cell(),
    {
        RcObject(self.0.clone())
    }
}

} // verus!
