use vstd::prelude::*;

use std::sync::{Arc, Mutex};

use crate::philosopher::Philosopher;

verus! {

/// `std::sync::Mutex`, known to Verus only by name: nothing inside it is
/// visible, and no method of it is called from verified code.
#[verifier::external_type_specification]
#[verifier::external_body]
#[verifier::reject_recursive_types(T)]
pub struct ExMutex<T: ?Sized>(Mutex<T>);

/// A philosopher's service: its data, shared between the tasks that answer
/// calls and the task that sits at the table.
#[derive(Debug, Clone)]
pub struct Svc {
    pub data: Arc<Mutex<Philosopher>>,
}

} // verus!
