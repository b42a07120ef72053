use vstd::prelude::*;

use crate::node::Node;
use crate::restaurant::Restaurant;

verus! {

/// Where one philosopher sits, by index: the neighbours on either side, the
/// cutlery handed over at the start, and the philosopher's id.
#[derive(Debug, PartialEq, Eq, Structural, Clone, Copy)]
pub struct Placement {
    pub id: usize,
    pub right_neighbor: usize,
    pub left_neighbor: usize,
    pub right_cutlery: Option<usize>,
    pub left_cutlery: Option<usize>,
}

/// The placement of philosopher `i` at a round table of `n` seats.
/// Philosopher `i` sits between `i - 1` on the right and `i + 1` on the left
/// (around the table), and cutlery `c` lies between philosophers `c` and
/// `c + 1`. Odd philosophers start with both their pieces of cutlery; the
/// last philosopher always starts with the piece on the left.
pub open spec fn spec_placement(n: nat, i: nat) -> Placement {
    Placement {
        id: i as usize,
        right_neighbor: (if i == 0 {
            n - 1
        } else {
            i - 1
        }) as usize,
        left_neighbor: (if i + 1 == n {
            0
        } else {
            i + 1
        }) as usize,
        right_cutlery: if i % 2 == 1 {
            Some((i - 1) as usize)
        } else {
            None
        },
        left_cutlery: if i % 2 == 1 || i + 1 == n {
            Some(i as usize)
        } else {
            None
        },
    }
}

/// The seating plan for `visitors` philosophers, one placement per seat in
/// seat order.
pub fn seating_plan(visitors: usize) -> (r: Vec<Placement>)
    requires
        visitors >= 2,
    ensures
        r@.len() == visitors,
        forall|i: int| 0 <= i < visitors ==> #[trigger] r@[i] == spec_placement(visitors as nat, i as nat),
        forall|i: int|
            0 <= i < visitors ==> {
                &&& (#[trigger] r@[i]).id == i
                &&& r@[i].left_neighbor == (i + 1) % (visitors as int)
                &&& r@[i].right_neighbor == (i + visitors - 1) % (visitors as int)
            },
{
    let last_id = visitors - 1;
    let mut plan: Vec<Placement> = Vec::new();
    // The first philosopher starts without cutlery.
    plan.push(Placement {
        id: 0,
        right_neighbor: last_id,
        left_neighbor: 1,
        right_cutlery: None,
        left_cutlery: None,
    });
    let mut i: usize = 1;
    while i < last_id
        invariant
            1 <= i <= last_id,
            last_id == visitors - 1,
            plan@.len() == i,
            forall|j: int| 0 <= j < i ==> #[trigger] plan@[j] == spec_placement(visitors as nat, j as nat),
        decreases last_id - i,
    {
        let (right_cutlery, left_cutlery) = if i % 2 != 0 {
            (Some(i - 1), Some(i))
        } else {
            (None, None)
        };
        plan.push(Placement {
            id: i,
            right_neighbor: i - 1,
            left_neighbor: i + 1,
            right_cutlery,
            left_cutlery,
        });
        i = i + 1;
    }
    let right_cutlery = if last_id % 2 == 0 {
        None
    } else {
        Some(last_id - 1)
    };
    plan.push(Placement {
        id: last_id,
        right_neighbor: last_id - 1,
        left_neighbor: 0,
        right_cutlery,
        left_cutlery: Some(last_id),
    });
    proof {
        assert forall|i: int| 0 <= i < visitors implies {
            &&& (#[trigger] plan@[i]).id == i
            &&& plan@[i].left_neighbor == (i + 1) % (visitors as int)
            &&& plan@[i].right_neighbor == (i + visitors - 1) % (visitors as int)
        } by {
            lemma_round_table(visitors as nat, i as nat);
        }
    }
    plan
}

/// What a philosopher is told when seated: its neighbours, the cutlery it
/// starts with, and its id.
#[derive(Debug, Clone)]
pub struct Invitation {
    pub guest: Node,
    pub right_neighbor: Node,
    pub left_neighbor: Node,
    pub right_cutlery: Option<Node>,
    pub left_cutlery: Option<Node>,
    pub id: usize,
}

/// The node at index `c`, if there is an index.
pub open spec fn pick(nodes: Seq<Node>, c: Option<usize>) -> Option<Node> {
    match c {
        Some(k) => Some(nodes[k as int]),
        None => None,
    }
}

/// The invitation that a placement stands for, given the registered nodes.
pub open spec fn spec_invitation(
    philosophers: Seq<Node>,
    cutlery: Seq<Node>,
    p: Placement,
) -> Invitation {
    Invitation {
        guest: philosophers[p.id as int],
        right_neighbor: philosophers[p.right_neighbor as int],
        left_neighbor: philosophers[p.left_neighbor as int],
        right_cutlery: pick(cutlery, p.right_cutlery),
        left_cutlery: pick(cutlery, p.left_cutlery),
        id: p.id,
    }
}

fn pick_node(nodes: &Vec<Node>, c: Option<usize>) -> (r: Option<Node>)
    requires
        c matches Some(k) ==> k < nodes@.len(),
    ensures
        r == pick(nodes@, c),
{
    match c {
        Some(k) => Some(nodes[k].clone()),
        None => None,
    }
}

impl Restaurant {
    /// The invitations that seat the first `visitors` registered philosophers
    /// at a round table, in seat order.
    pub fn seating(&self, visitors: usize) -> (r: Vec<Invitation>)
        requires
            visitors >= 2,
            self.phillosophers@.len() >= visitors,
            self.cutlery@.len() >= visitors,
        ensures
            r@.len() == visitors,
            forall|i: int|
                0 <= i < visitors ==> #[trigger] r@[i] == spec_invitation(
                    self.phillosophers@,
                    self.cutlery@,
                    spec_placement(visitors as nat, i as nat),
                ),
        forall|i: int|
            0 <= i < visitors ==> {
                &&& (#[trigger] r@[i]).guest == self.phillosophers@[i]
                &&& r@[i].id == i
                &&& r@[i].left_neighbor == self.phillosophers@[(i + 1) % (visitors as int)]
                &&& r@[i].right_neighbor == self.phillosophers@[(i + visitors - 1) % (
                visitors as int)]
                &&& r@[i].right_cutlery == (if i % 2 == 1 {
                    Some(self.cutlery@[i - 1])
                } else {
                    None
                })
                &&& r@[i].left_cutlery == (if i % 2 == 1 || i + 1 == visitors {
                    Some(self.cutlery@[i])
                } else {
                    None
                })
            },
    {
        let plan = seating_plan(visitors);
        let mut invitations: Vec<Invitation> = Vec::new();
        let mut i: usize = 0;
        while i < visitors
            invariant
                i <= visitors,
                plan@.len() == visitors,
                visitors >= 2,
                self.phillosophers@.len() >= visitors,
                self.cutlery@.len() >= visitors,
                forall|j: int| 0 <= j < visitors ==> #[trigger] plan@[j] == spec_placement(visitors as nat, j as nat),
                invitations@.len() == i,
                forall|j: int|
                    0 <= j < i ==> #[trigger] invitations@[j] == spec_invitation(
                        self.phillosophers@,
                        self.cutlery@,
                        spec_placement(visitors as nat, j as nat),
                    ),
            decreases visitors - i,
        {
            let p = plan[i];
            invitations.push(
                Invitation {
                    guest: self.phillosophers[p.id].clone(),
                    right_neighbor: self.phillosophers[p.right_neighbor].clone(),
                    left_neighbor: self.phillosophers[p.left_neighbor].clone(),
                    right_cutlery: pick_node(&self.cutlery, p.right_cutlery),
                    left_cutlery: pick_node(&self.cutlery, p.left_cutlery),
                    id: p.id,
                },
            );
            i = i + 1;
        }
        proof {
            assert forall|i: int| 0 <= i < visitors implies {
                &&& (#[trigger] invitations@[i]).guest == self.phillosophers@[i]
                &&& invitations@[i].id == i
                &&& invitations@[i].left_neighbor == self.phillosophers@[(i + 1) % (visitors as int)]
                &&& invitations@[i].right_neighbor == self.phillosophers@[(i + visitors - 1) % (
                visitors as int)]
                &&& invitations@[i].right_cutlery == (if i % 2 == 1 {
                    Some(self.cutlery@[i - 1])
                } else {
                    None
                })
                &&& invitations@[i].left_cutlery == (if i % 2 == 1 || i + 1 == visitors {
                    Some(self.cutlery@[i])
                } else {
                    None
                })
            } by {
                lemma_round_table(visitors as nat, i as nat);
                lemma_initial_cutlery(visitors as nat, i as nat);
            }
        }
        invitations
    }
}

/// One round table: seat `i` has seat `i + 1` on its left and seat `i - 1`
/// on its right, counting around the table, so that following the left
/// neighbours visits every seat in one cycle.
pub proof fn lemma_round_table(n: nat, i: nat)
    requires
        n >= 2,
        n <= usize::MAX,
        i < n,
    ensures
        spec_placement(n, i).id == i,
        spec_placement(n, i).left_neighbor == ((i as int) + 1) % (n as int),
        spec_placement(n, i).right_neighbor == ((i as int) + (n as int) - 1) % (n as int),
{
    let ii = i as int;
    let nn = n as int;
    if ii + 1 == nn {
        assert((ii + 1) % nn == 0) by (nonlinear_arith)
            requires
                ii + 1 == nn,
                nn >= 2,
        ;
    } else {
        assert((ii + 1) % nn == ii + 1) by (nonlinear_arith)
            requires
                0 <= ii,
                ii + 1 < nn,
        ;
    }
    if ii == 0 {
        assert((ii + nn - 1) % nn == nn - 1) by (nonlinear_arith)
            requires
                ii == 0,
                nn >= 2,
        ;
    } else {
        assert((ii + nn - 1) % nn == ii - 1) by (nonlinear_arith)
            requires
                1 <= ii < nn,
        ;
    }
}

/// Which seats start with cutlery: the first seat none; every odd seat both
/// the piece on its right (numbered like its right neighbour) and the piece
/// on its left (numbered like itself); any other even seat none, except the
/// last seat, which always starts with the piece on its left.
pub proof fn lemma_initial_cutlery(n: nat, i: nat)
    requires
        n >= 2,
        n <= usize::MAX,
        i < n,
    ensures
        i % 2 == 1 ==> spec_placement(n, i).right_cutlery == Some((i - 1) as usize)
            && spec_placement(n, i).left_cutlery == Some(i as usize),
        i % 2 == 0 ==> spec_placement(n, i).right_cutlery is None,
        i % 2 == 0 && i + 1 < n ==> spec_placement(n, i).left_cutlery is None,
        i + 1 == n ==> spec_placement(n, i).left_cutlery == Some(i as usize),
        i == 0 ==> spec_placement(n, i).right_cutlery is None && spec_placement(n, i).left_cutlery
            is None,
{
}

/// The neighbours agree: the philosopher on my left has me on its right.
pub proof fn lemma_neighbors_agree(n: nat, i: nat)
    requires
        n >= 2,
        n <= usize::MAX,
        i < n,
    ensures
        spec_placement(n, i).left_neighbor < n,
        spec_placement(n, i).right_neighbor < n,
        spec_placement(n, spec_placement(n, i).left_neighbor as nat).right_neighbor == i,
        spec_placement(n, spec_placement(n, i).right_neighbor as nat).left_neighbor == i,
{
}

/// The cutlery a seat starts with lies next to it: its left piece is the one
/// numbered like the seat, its right piece the one numbered like its right
/// neighbour.
pub proof fn lemma_cutlery_beside_seat(n: nat, i: nat)
    requires
        n >= 2,
        n <= usize::MAX,
        i < n,
    ensures
        spec_placement(n, i).left_cutlery matches Some(c) ==> c == i,
        spec_placement(n, i).right_cutlery matches Some(c) ==> c
            == spec_placement(n, i).right_neighbor,
{
}

/// The pieces of cutlery a seat starts with, as a set of indices.
pub open spec fn held_at_start(p: Placement) -> Set<nat> {
    Set::new(
        |c: nat|
            p.right_cutlery == Some(c as usize) || p.left_cutlery == Some(c as usize),
    )
}

/// Every piece of cutlery is handed to exactly one philosopher at the start.
pub proof fn lemma_cutlery_handed_once(n: nat, c: nat)
    requires
        n >= 2,
        c < n,
        n <= usize::MAX,
    ensures
        exists|i: nat| i < n && #[trigger] held_at_start(spec_placement(n, i)).contains(c),
        forall|i: nat, j: nat|
            i < n && j < n && #[trigger] held_at_start(spec_placement(n, i)).contains(c)
                && #[trigger] held_at_start(spec_placement(n, j)).contains(c) ==> i == j,
{
    if c % 2 == 1 {
        assert(held_at_start(spec_placement(n, c)).contains(c));
    } else if c + 1 == n {
        assert(held_at_start(spec_placement(n, c)).contains(c));
    } else {
        assert(held_at_start(spec_placement(n, c + 1)).contains(c));
    }
}

} // verus!
