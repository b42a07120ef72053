//! Shared building blocks of the dining-philosophers restaurant: the node
//! states, the wire types, the waiter's bookkeeping and seating plan, and the
//! decisions taken by philosophers and cutlery.

pub mod calls;
pub mod cutlery;
pub mod node;
pub mod philosopher;
pub mod puppet;
pub mod random_names;
pub mod restaurant;
pub mod seat;
pub mod seating;
pub mod states;
pub mod status;
pub mod svc;
pub mod table;

use vstd::prelude::*;

verus! {

/// Every message between nodes travels in a frame of exactly this many bytes.
pub const COMMAND_LEN: usize = 1024;

} // verus!
