use vstd::prelude::*;

use crate::node::Node;

verus! {

/// A seat at the table: its id, the philosophers and the cutlery on either
/// side, and the size of the table.
#[derive(Debug, Clone)]
pub struct Seat {
    own_id: u64,
    philosopher_before: Node,
    philosopher_after: Node,
    cutlery_before: Node,
    cutlery_after: Node,
    total_philosophers: u64,
    total_cutlery: u64,
}

impl Seat {
    pub closed spec fn spec_own_id(&self) -> u64 {
        self.own_id
    }

    pub closed spec fn spec_philosopher_before(&self) -> Node {
        self.philosopher_before
    }

    pub closed spec fn spec_philosopher_after(&self) -> Node {
        self.philosopher_after
    }

    pub closed spec fn spec_cutlery_before(&self) -> Node {
        self.cutlery_before
    }

    pub closed spec fn spec_cutlery_after(&self) -> Node {
        self.cutlery_after
    }

    pub closed spec fn spec_total_philosophers(&self) -> u64 {
        self.total_philosophers
    }

    pub closed spec fn spec_total_cutlery(&self) -> u64 {
        self.total_cutlery
    }

    pub fn new(
        own_id: u64,
        philosopher_before: Node,
        philosopher_after: Node,
        cutlery_before: Node,
        cutlery_after: Node,
        total_philosophers: u64,
        total_cutlery: u64,
    ) -> (r: Self)
        ensures
            r.spec_own_id() == own_id,
            r.spec_philosopher_before() == philosopher_before,
            r.spec_philosopher_after() == philosopher_after,
            r.spec_cutlery_before() == cutlery_before,
            r.spec_cutlery_after() == cutlery_after,
            r.spec_total_philosophers() == total_philosophers,
            r.spec_total_cutlery() == total_cutlery,
    {
        Self {
            own_id,
            philosopher_before,
            philosopher_after,
            cutlery_before,
            cutlery_after,
            total_philosophers,
            total_cutlery,
        }
    }

    pub fn get_own_id(&self) -> (r: u64)
        ensures
            r == self.spec_own_id(),
    {
        self.own_id
    }

    pub fn get_philosopher_before(&self) -> (r: Node)
        ensures
            r == self.spec_philosopher_before(),
    {
        self.philosopher_before.clone()
    }

    pub fn get_philosopher_after(&self) -> (r: Node)
        ensures
            r == self.spec_philosopher_after(),
    {
        self.philosopher_after.clone()
    }

    pub fn get_cutlery_before(&self) -> (r: Node)
        ensures
            r == self.spec_cutlery_before(),
    {
        self.cutlery_before.clone()
    }

    pub fn get_cutlery_after(&self) -> (r: Node)
        ensures
            r == self.spec_cutlery_after(),
    {
        self.cutlery_after.clone()
    }

    pub fn get_total_philosophers(&self) -> (r: u64)
        ensures
            r == self.spec_total_philosophers(),
    {
        self.total_philosophers
    }

    pub fn get_total_cutlery(&self) -> (r: u64)
        ensures
            r == self.spec_total_cutlery(),
    {
        self.total_cutlery
    }
}

} // verus!
