use vstd::prelude::*;

use crate::node::Node;

verus! {

/// The states a philosopher goes through.
#[derive(Debug, Clone, Copy, PartialEq, Eq, Structural)]
pub enum PhilosopherStates {
    Initializing,
    Thinking,
    Hungry,
    Eating,
}

/// Whether a piece of cutlery is clean, and who holds it, if anyone.
#[derive(Debug, Clone)]
pub enum CutleryStatus {
    Clean(Option<Node>),
    Dirty(Option<Node>),
}

impl CutleryStatus {
    pub fn is_clean(&self) -> (r: bool)
        ensures
            r == (*self is Clean),
    {
        match self {
            CutleryStatus::Clean(_) => true,
            _ => false,
        }
    }

    pub fn is_dirty(&self) -> (r: bool)
        ensures
            r == !(*self is Clean),
    {
        !self.is_clean()
    }

    /// Returns the node that holds the cutlery, if any.
    pub fn is_used(&self) -> (r: Option<Node>)
        ensures
            r == match *self {
                CutleryStatus::Clean(holder) => holder,
                CutleryStatus::Dirty(holder) => holder,
            },
    {
        match self {
            CutleryStatus::Clean(Some(node)) => Some(node.clone()),
            CutleryStatus::Dirty(Some(node)) => Some(node.clone()),
            _ => None,
        }
    }
}

} // verus!
