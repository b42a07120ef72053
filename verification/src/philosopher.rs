use vstd::prelude::*;

use crate::calls::Response;
use crate::cutlery::dirty_byte;
use crate::node::Node;
use crate::restaurant::Restaurant;
use crate::states::States;

verus! {

/// A side of a philosopher at the table.
#[derive(Debug, PartialEq, Eq, Structural, Clone, Copy)]
pub enum Side {
    Left,
    Right,
}

/// The name under which a side travels in commands.
pub open spec fn side_text(side: Side) -> Seq<char> {
    match side {
        Side::Left => "left"@,
        Side::Right => "right"@,
    }
}

/// The side named by `side`, if it names one.
pub open spec fn spec_parse_side(side: Seq<char>) -> Option<Side> {
    if side == "left"@ {
        Some(Side::Left)
    } else if side == "right"@ {
        Some(Side::Right)
    } else {
        None
    }
}

/// The side facing `side` at the neighbour's seat.
pub open spec fn opposite(side: Side) -> Side {
    match side {
        Side::Left => Side::Right,
        Side::Right => Side::Left,
    }
}

/// Reads a side name.
pub fn parse_side(side: &String) -> (r: Option<Side>)
    ensures
        r == spec_parse_side(side@),
{
    let left = String::from_str("left");
    let right = String::from_str("right");
    if *side == left {
        Some(Side::Left)
    } else if *side == right {
        Some(Side::Right)
    } else {
        None
    }
}

/// Writes a side name.
pub fn side_name(side: Side) -> (r: String)
    ensures
        r@ == side_text(side),
        spec_parse_side(r@) == Some(side),
{
    proof {
        reveal_strlit("left");
        reveal_strlit("right");
    }
    match side {
        Side::Left => String::from_str("left"),
        Side::Right => String::from_str("right"),
    }
}

/// The two sides are named "left" and "right", each name reads back as its
/// side, any other name names no side, and the neighbour's seat faces us
/// with the other side.
pub proof fn lemma_side_names(other: Seq<char>)
    ensures
        spec_parse_side("left"@) == Some(Side::Left),
        spec_parse_side("right"@) == Some(Side::Right),
        other != "left"@ && other != "right"@ ==> spec_parse_side(other) is None,
        side_text(Side::Left) == "left"@,
        side_text(Side::Right) == "right"@,
        spec_parse_side(side_text(Side::Left)) == Some(Side::Left),
        spec_parse_side(side_text(Side::Right)) == Some(Side::Right),
        opposite(Side::Left) == Side::Right,
        opposite(Side::Right) == Side::Left,
{
    reveal_strlit("left");
    reveal_strlit("right");
    assert("left"@ != "right"@) by {
        assert("left"@.len() != "right"@.len());
    }
}

/// A failure reply carrying `message`.
pub fn failure(message: &str) -> (r: Response)
    ensures
        r matches Response::Failure(m) && m@ == message@,
{
    Response::Failure(String::from_str(message))
}

/// A neighbour at the table, and the request for cutlery it left with us, if
/// any.
#[derive(Debug, Clone)]
pub struct Neighbor {
    pub neighbor: Node,
    pub request: Option<Node>,
}

/// What a philosopher knows: itself, the cutlery in its hands, its
/// neighbours, its seat, the restaurant and the waiter.
#[derive(Debug, Clone)]
pub struct Philosopher {
    pub public_data: Node,
    pub right_hand: Option<Node>,
    pub left_hand: Option<Node>,
    pub right_neighbor: Neighbor,
    pub left_neighbor: Neighbor,
    pub id: usize,
    pub restaurant: Restaurant,
    pub waiter: Node,
}

/// How a philosopher answers a request for the cutlery on one side.
#[derive(Debug, PartialEq, Eq, Structural, Clone, Copy)]
pub enum RequestAction {
    /// Keep the cutlery and remember the request for later.
    Remember,
    /// Clean the cutlery, then pass it on.
    CleanAndPass,
    /// Pass the cutlery on as it is.
    Pass,
}

/// What a philosopher does with a request once it has decided: answer the
/// neighbour right away, or pass the cutlery on (cleaning it first) and
/// answer with how passing went.
#[derive(Debug, PartialEq)]
pub enum RequestAnswer {
    Reply(Response),
    CleanAndPass,
    Pass,
}

/// The answer that stands for a decision: a remembered request is answered
/// with success at once.
pub open spec fn spec_request_answer(action: RequestAction) -> RequestAnswer {
    match action {
        RequestAction::Remember => RequestAnswer::Reply(Response::Success),
        RequestAction::CleanAndPass => RequestAnswer::CleanAndPass,
        RequestAction::Pass => RequestAnswer::Pass,
    }
}

/// Who gets the cutlery: a dirty piece is given away, cleaned, unless its
/// holder is eating; a clean piece only by a thinking philosopher.
pub open spec fn spec_request_action(is_dirty: bool, state: States) -> RequestAction {
    if is_dirty {
        if state == States::PhilosopherEating {
            RequestAction::Remember
        } else {
            RequestAction::CleanAndPass
        }
    } else {
        if state == States::PhilosopherThinking {
            RequestAction::Pass
        } else {
            RequestAction::Remember
        }
    }
}

/// See [`spec_request_action`].
pub fn request_action(is_dirty: bool, state: States) -> (r: RequestAction)
    ensures
        r == spec_request_action(is_dirty, state),
{
    if is_dirty {
        if state == States::PhilosopherEating {
            RequestAction::Remember
        } else {
            RequestAction::CleanAndPass
        }
    } else {
        if state == States::PhilosopherThinking {
            RequestAction::Pass
        } else {
            RequestAction::Remember
        }
    }
}

/// Reads a piece of cutlery's answer to whether it is dirty: the returned
/// byte says dirty when it is 1; any other answer is met with the failure of
/// [`invalid_dirty_reply`].
pub fn read_dirty_reply(reply: &Response) -> (r: Result<bool, Response>)
    requires
        reply matches Response::Return(b) ==> b@.len() > 0,
    ensures
        match reply {
            Response::Return(b) => r == Ok::<bool, Response>(b@[0] == 1),
            _ => r matches Err(Response::Failure(m)) && m@
                == "Didn't receive valid resonse from is_dirty!"@,
        },
{
    match reply {
        Response::Return(bytes) => Ok(bytes[0] == 1),
        _ => Err(invalid_dirty_reply()),
    }
}

/// What a philosopher does at the table in a given state.
#[derive(Debug, PartialEq, Eq, Structural, Clone, Copy)]
pub enum TableAction {
    /// Think a while, then get hungry.
    GetHungry,
    /// Ask the neighbours for missing cutlery, and eat once both hands hold
    /// some.
    RequestCutlery,
    /// Eat a while, hand cutlery to neighbours that asked for it, then think.
    FinishEating,
    /// Nothing to do.
    Wait,
}

/// The philosopher's next step at the table.
pub open spec fn spec_table_action(state: States) -> TableAction {
    match state {
        States::PhilosopherThinking => TableAction::GetHungry,
        States::PhilosopherHungry => TableAction::RequestCutlery,
        States::PhilosopherEating => TableAction::FinishEating,
        _ => TableAction::Wait,
    }
}

/// See [`spec_table_action`].
pub fn table_action(state: States) -> (r: TableAction)
    ensures
        r == spec_table_action(state),
{
    match state {
        States::PhilosopherThinking => TableAction::GetHungry,
        States::PhilosopherHungry => TableAction::RequestCutlery,
        States::PhilosopherEating => TableAction::FinishEating,
        _ => TableAction::Wait,
    }
}

/// The state a philosopher moves to after a step at the table, given
/// whether it holds cutlery in both hands once the step is done.
pub open spec fn spec_state_after_step(state: States, holds_both: bool) -> Option<States> {
    match spec_table_action(state) {
        TableAction::GetHungry => Some(States::PhilosopherHungry),
        TableAction::RequestCutlery => if holds_both {
            Some(States::PhilosopherEating)
        } else {
            None
        },
        TableAction::FinishEating => Some(States::PhilosopherThinking),
        TableAction::Wait => None,
    }
}

/// See [`spec_state_after_step`].
pub fn state_after_step(state: States, holds_both: bool) -> (r: Option<States>)
    ensures
        r == spec_state_after_step(state, holds_both),
{
    match table_action(state) {
        TableAction::GetHungry => Some(States::PhilosopherHungry),
        TableAction::RequestCutlery => if holds_both {
            Some(States::PhilosopherEating)
        } else {
            None
        },
        TableAction::FinishEating => Some(States::PhilosopherThinking),
        TableAction::Wait => None,
    }
}

/// One action of the end of a meal.
#[derive(Debug, PartialEq, Eq, Structural, Clone, Copy)]
pub enum EatingAction {
    /// Eat with the cutlery in the hand on this side.
    Use(Side),
    /// If the neighbour on this side asked for the cutlery, empty that hand,
    /// clean the cutlery and pass it on (see [`Philosopher::hand_over`]).
    HandOver(Side),
}

/// The end of a meal, in order: the right side first, then the left; on
/// each side the cutlery is used, then handed over if it was asked for.
pub open spec fn spec_eating_plan() -> Seq<EatingAction> {
    seq![
        EatingAction::Use(Side::Right),
        EatingAction::HandOver(Side::Right),
        EatingAction::Use(Side::Left),
        EatingAction::HandOver(Side::Left),
    ]
}

/// See [`spec_eating_plan`]; after the last action the philosopher moves to
/// the state [`state_after_step`] gives for eating, thinking.
pub fn eating_plan() -> (r: Vec<EatingAction>)
    ensures
        r@ == spec_eating_plan(),
{
    let mut plan: Vec<EatingAction> = Vec::new();
    plan.push(EatingAction::Use(Side::Right));
    plan.push(EatingAction::HandOver(Side::Right));
    plan.push(EatingAction::Use(Side::Left));
    plan.push(EatingAction::HandOver(Side::Left));
    assert(plan@ =~= spec_eating_plan());
    plan
}

/// The state a philosopher is in once seated and holding the cutlery it was
/// given: thinking. The waiter is told of it like of any other state.
pub fn state_after_seating() -> (r: States)
    ensures
        r == States::PhilosopherThinking,
        spec_table_action(r) == TableAction::GetHungry,
{
    States::PhilosopherThinking
}

impl Philosopher {
    /// A philosopher that has just arrived: no cutlery, not seated yet (both
    /// neighbours are itself), and no news about the restaurant.
    pub fn new(public_data: Node, waiter: Node) -> (r: Self)
        ensures
            r.public_data == public_data,
            r.waiter == waiter,
            r.right_hand is None,
            r.left_hand is None,
            r.right_neighbor.neighbor == public_data,
            r.right_neighbor.request is None,
            r.left_neighbor.neighbor == public_data,
            r.left_neighbor.request is None,
            r.id == 0,
            r.restaurant.phillosophers@.len() == 0,
            r.restaurant.cutlery@.len() == 0,
            r.restaurant.state_stats@ == Map::<States, usize>::empty(),
            r.restaurant.state_times@ == Map::<States, u64>::empty(),
            r.restaurant.max_state_time@ == Map::<States, u64>::empty(),
            r.restaurant.min_state_time@ == Map::<States, u64>::empty(),
    {
        Philosopher {
            right_neighbor: Neighbor { neighbor: public_data.clone(), request: None },
            left_neighbor: Neighbor { neighbor: public_data.clone(), request: None },
            public_data,
            right_hand: None,
            left_hand: None,
            id: 0,
            restaurant: Restaurant::default(),
            waiter,
        }
    }

    /// Everything but the hands is as in `other`: the node itself, the
    /// neighbours with their requests, the id, the restaurant and the waiter.
    pub open spec fn same_seat_as(&self, other: Philosopher) -> bool {
        &&& self.public_data == other.public_data
        &&& self.right_neighbor == other.right_neighbor
        &&& self.left_neighbor == other.left_neighbor
        &&& self.id == other.id
        &&& self.restaurant == other.restaurant
        &&& self.waiter == other.waiter
    }

    /// The cutlery held on `side`.
    pub open spec fn spec_hand(&self, side: Side) -> Option<Node> {
        match side {
            Side::Left => self.left_hand,
            Side::Right => self.right_hand,
        }
    }

    /// The neighbour on `side`.
    pub open spec fn spec_neighbor(&self, side: Side) -> Neighbor {
        match side {
            Side::Left => self.left_neighbor,
            Side::Right => self.right_neighbor,
        }
    }

    /// The cutlery held on `side`.
    pub fn hand(&self, side: Side) -> (r: Option<Node>)
        ensures
            r == self.spec_hand(side),
    {
        match side {
            Side::Left => self.left_hand.clone(),
            Side::Right => self.right_hand.clone(),
        }
    }

    fn set_hand(&mut self, side: Side, cutlery: Option<Node>)
        ensures
            final(self).spec_hand(side) == cutlery,
            final(self).spec_hand(opposite(side)) == old(self).spec_hand(opposite(side)),
            final(self).same_seat_as(*old(self)),
    {
        match side {
            Side::Left => self.left_hand = cutlery,
            Side::Right => self.right_hand = cutlery,
        }
    }

    /// Takes the seat the waiter assigned: the neighbours on either side,
    /// with no requests yet, and the id.
    pub fn seat(&mut self, right: Node, left: Node, id: usize)
        ensures
            final(self).id == id,
            final(self).right_neighbor == (Neighbor { neighbor: right, request: None }),
            final(self).left_neighbor == (Neighbor { neighbor: left, request: None }),
            final(self).right_hand == old(self).right_hand,
            final(self).left_hand == old(self).left_hand,
            final(self).public_data == old(self).public_data,
            final(self).waiter == old(self).waiter,
            final(self).restaurant == old(self).restaurant,
    {
        self.id = id;
        self.right_neighbor = Neighbor { neighbor: right, request: None };
        self.left_neighbor = Neighbor { neighbor: left, request: None };
    }

    /// Keeps the cutlery handed over at seating if picking it up succeeded;
    /// otherwise returns the failure with which seating is answered.
    pub fn take_initial_cutlery(&mut self, side: Side, cutlery: Node, pick_up_reply: &Response) -> (r:
        Option<Response>)
        ensures
            pick_up_reply == Response::Success ==> r is None && final(self).spec_hand(side) == Some(
                cutlery,
            ),
            pick_up_reply != Response::Success ==> (r matches Some(Response::Failure(m)) && m@
                == "Couldn't pick up cutlery during initializing!"@) && final(self).spec_hand(side)
                == old(self).spec_hand(side),
            final(self).spec_hand(opposite(side)) == old(self).spec_hand(opposite(side)),
            final(self).same_seat_as(*old(self)),
    {
        match pick_up_reply {
            Response::Success => {
                self.set_hand(side, Some(cutlery));
                None
            },
            _ => Some(failure("Couldn't pick up cutlery during initializing!")),
        }
    }

    /// Handles cutlery passed by a neighbour, once picking it up was tried:
    /// if that succeeded, the cutlery goes to the hand named by `side`.
    pub fn receive_cutlery(&mut self, pick_up_reply: &Response, cutlery: Node, side: &String) -> (r:
        Response)
        ensures
            pick_up_reply != Response::Success ==> (r matches Response::Failure(m) && m@
                == "Couldn't receive cutlery!"@) && *final(self) == *old(self),
            pick_up_reply == Response::Success ==> match spec_parse_side(side@) {
                Some(s) => r == Response::Success && final(self).spec_hand(s) == Some(cutlery)
                    && final(self).spec_hand(opposite(s)) == old(self).spec_hand(opposite(s)),
                None => r == Response::NotFound && *final(self) == *old(self),
            },
            final(self).same_seat_as(*old(self)),
    {
        match pick_up_reply {
            Response::Success => match parse_side(side) {
                Some(s) => {
                    self.set_hand(s, Some(cutlery));
                    Response::Success
                },
                None => Response::NotFound,
            },
            _ => failure("Couldn't receive cutlery!"),
        }
    }

    /// The side and the cutlery that a request names: `NotFound` for an
    /// unknown side, a failure when that hand is empty.
    pub fn requested_cutlery(&self, side: &String) -> (r: Result<(Side, Node), Response>)
        ensures
            match spec_parse_side(side@) {
                None => r == Err::<(Side, Node), Response>(Response::NotFound),
                Some(s) => match self.spec_hand(s) {
                    Some(c) => r == Ok::<(Side, Node), Response>((s, c)),
                    None => r matches Err(Response::Failure(m)) && m@ == "verloren!"@,
                },
            },
    {
        match parse_side(side) {
            None => Err(Response::NotFound),
            Some(s) => match self.hand(s) {
                Some(c) => Ok((s, c)),
                None => Err(failure("verloren!")),
            },
        }
    }

    /// Answers a neighbour's request for the cutlery on `side`, given whether
    /// it is dirty and the philosopher's own state: a remembered request is
    /// stored with the neighbour on that side, cutlery that is to be passed
    /// leaves the hand.
    pub fn answer_request(&mut self, side: Side, philosopher: Node, is_dirty: bool, state: States) -> (r:
        RequestAnswer)
        ensures
            r == spec_request_answer(spec_request_action(is_dirty, state)),
            is_dirty && state != States::PhilosopherEating ==> r == RequestAnswer::CleanAndPass,
            !is_dirty && state == States::PhilosopherThinking ==> r == RequestAnswer::Pass,
            (is_dirty && state == States::PhilosopherEating) || (!is_dirty && state
                != States::PhilosopherThinking) ==> r == RequestAnswer::Reply(Response::Success),
            final(self).spec_hand(side) is None && old(self).spec_hand(side) is Some ==> (r
                == RequestAnswer::Pass || r == RequestAnswer::CleanAndPass),
            spec_request_action(is_dirty, state) == RequestAction::Remember ==> final(self).spec_neighbor(side).request == Some(
                philosopher,
            ) && final(self).spec_neighbor(side).neighbor == old(self).spec_neighbor(side).neighbor
                && final(self).spec_hand(side) == old(self).spec_hand(side),
            spec_request_action(is_dirty, state) != RequestAction::Remember ==> final(self).spec_hand(side) is None
                && final(self).spec_neighbor(side) == old(self).spec_neighbor(side),
            final(self).spec_hand(opposite(side)) == old(self).spec_hand(opposite(side)),
            final(self).spec_neighbor(opposite(side)) == old(self).spec_neighbor(opposite(side)),
            final(self).public_data == old(self).public_data,
            final(self).id == old(self).id,
            final(self).waiter == old(self).waiter,
            final(self).restaurant == old(self).restaurant,
    {
        match request_action(is_dirty, state) {
            RequestAction::Remember => {
                match side {
                    Side::Left => self.left_neighbor.request = Some(philosopher),
                    Side::Right => self.right_neighbor.request = Some(philosopher),
                }
                RequestAnswer::Reply(Response::Success)
            },
            RequestAction::CleanAndPass => {
                self.set_hand(side, None);
                RequestAnswer::CleanAndPass
            },
            RequestAction::Pass => {
                self.set_hand(side, None);
                RequestAnswer::Pass
            },
        }
    }

    /// Where cutlery from the hand named by `side` goes: to the neighbour on
    /// the left for "left", to the one on the right otherwise, and into the
    /// neighbour's hand facing us.
    pub fn pass_target(&self, side: &String) -> (r: (Node, String))
        ensures
            side@ == "left"@ ==> r.0 == self.left_neighbor.neighbor && r.1@ == "right"@,
            side@ != "left"@ ==> r.0 == self.right_neighbor.neighbor && r.1@ == "left"@,
    {
        proof {
            reveal_strlit("left");
            reveal_strlit("right");
        }
        if parse_side(side) == Some(Side::Left) {
            (self.left_neighbor.neighbor.clone(), side_name(Side::Right))
        } else {
            (self.right_neighbor.neighbor.clone(), side_name(Side::Left))
        }
    }

    /// Settles passing cutlery from the hand named by `side`, once the
    /// neighbour was asked to take it: on failure the cutlery returns to that
    /// hand.
    pub fn finish_pass(&mut self, side: &String, cutlery: Node, handed_over: bool) -> (r: Response)
        ensures
            handed_over ==> r == Response::Success && *final(self) == *old(self),
            !handed_over ==> (r matches Response::Failure(m) && m@
                == "Couldn't pass the cutlery to the neighbor!"@),
            !handed_over && side@ == "left"@ ==> final(self).left_hand == Some(cutlery)
                && final(self).right_hand == old(self).right_hand,
            !handed_over && side@ != "left"@ ==> final(self).right_hand == Some(cutlery)
                && final(self).left_hand == old(self).left_hand,
            final(self).same_seat_as(*old(self)),
    {
        if handed_over {
            Response::Success
        } else {
            proof {
                reveal_strlit("left");
            }
            if parse_side(side) == Some(Side::Left) {
                self.set_hand(Side::Left, Some(cutlery));
            } else {
                self.set_hand(Side::Right, Some(cutlery));
            }
            pass_failure()
        }
    }

    /// The request to send for the cutlery on `side` when that hand is
    /// empty: the neighbour on that side, and the side of the neighbour's
    /// seat on which the cutlery lies.
    pub fn cutlery_request(&self, side: Side) -> (r: Option<(Node, String)>)
        ensures
            self.spec_hand(side) is Some ==> r is None,
            self.spec_hand(side) is None ==> (r matches Some(p) && p.0 == self.spec_neighbor(
                side,
            ).neighbor && p.1@ == side_text(opposite(side))),
    {
        match self.hand(side) {
            Some(_) => None,
            None => {
                let target = match side {
                    Side::Left => self.left_neighbor.neighbor.clone(),
                    Side::Right => self.right_neighbor.neighbor.clone(),
                };
                let other = match side {
                    Side::Left => Side::Right,
                    Side::Right => Side::Left,
                };
                Some((target, side_name(other)))
            },
        }
    }

    /// Both hands hold cutlery, so the philosopher can eat.
    pub fn holds_both(&self) -> (r: bool)
        ensures
            r == (self.right_hand is Some && self.left_hand is Some),
    {
        self.right_hand.is_some() && self.left_hand.is_some()
    }

    /// The neighbour on `side` asked for our cutlery and has not got it.
    pub fn has_request(&self, side: Side) -> (r: bool)
        ensures
            r == self.spec_neighbor(side).request is Some,
    {
        match side {
            Side::Left => self.left_neighbor.request.is_some(),
            Side::Right => self.right_neighbor.request.is_some(),
        }
    }

    /// Empties the hand on `side`, before its cutlery is passed on.
    pub fn release(&mut self, side: Side)
        ensures
            final(self).spec_hand(side) is None,
            final(self).spec_hand(opposite(side)) == old(self).spec_hand(opposite(side)),
            final(self).same_seat_as(*old(self)),
    {
        self.set_hand(side, None);
    }

    /// The hand-over step of a meal on `side`: if the neighbour there asked
    /// for the cutlery, the hand is emptied and its cutlery returned, to be
    /// cleaned and passed on; otherwise nothing changes. The request itself
    /// stays as it is.
    pub fn hand_over(&mut self, side: Side) -> (r: Option<Node>)
        ensures
            old(self).spec_neighbor(side).request is Some ==> r == old(self).spec_hand(side)
                && final(self).spec_hand(side) is None,
            old(self).spec_neighbor(side).request is None ==> r is None && *final(self) == *old(self),
            final(self).spec_hand(opposite(side)) == old(self).spec_hand(opposite(side)),
            final(self).same_seat_as(*old(self)),
    {
        if self.has_request(side) {
            let cutlery = self.hand(side);
            self.release(side);
            cutlery
        } else {
            None
        }
    }
}

/// The failure with which passing cutlery to a neighbour is answered.
pub fn pass_failure() -> (r: Response)
    ensures
        r matches Response::Failure(m) && m@ == "Couldn't pass the cutlery to the neighbor!"@,
{
    failure("Couldn't pass the cutlery to the neighbor!")
}

/// The failure with which a request is answered when the cutlery's reply to
/// whether it is dirty is not a returned value.
pub fn invalid_dirty_reply() -> (r: Response)
    ensures
        r matches Response::Failure(m) && m@ == "Didn't receive valid resonse from is_dirty!"@,
{
    failure("Didn't receive valid resonse from is_dirty!")
}

/// What a philosopher reads from a piece of cutlery's answer to whether it
/// is dirty is what the cutlery's state says.
pub proof fn lemma_dirty_reply_read_back(state: States)
    ensures
        (dirty_byte(state) == 1) == !state.spec_is_clean(),
{
}

/// An eating philosopher never gives cutlery away; a thinking one gives any
/// piece that is asked for; a hungry one gives only dirty pieces; and
/// cutlery always leaves clean: a dirty piece is cleaned before it is
/// passed, a clean piece is passed as it is.
pub proof fn lemma_request_hygiene(is_dirty: bool, state: States)
    ensures
        state == States::PhilosopherEating ==> spec_request_action(is_dirty, state)
            == RequestAction::Remember,
        is_dirty && state != States::PhilosopherEating ==> spec_request_action(is_dirty, state)
            == RequestAction::CleanAndPass,
        !is_dirty && state == States::PhilosopherThinking ==> spec_request_action(is_dirty, state)
            == RequestAction::Pass,
        !is_dirty && state != States::PhilosopherThinking ==> spec_request_action(is_dirty, state)
            == RequestAction::Remember,
        spec_request_action(is_dirty, state) == RequestAction::Pass ==> !is_dirty,
        spec_request_action(is_dirty, state) == RequestAction::CleanAndPass ==> is_dirty,
{
}

/// A request that is not remembered is always answered by passing the
/// cutlery on, cleaned first exactly when the decision says so; only a
/// remembered request is answered at once, with success.
pub proof fn lemma_request_answer(action: RequestAction)
    ensures
        action == RequestAction::Pass ==> spec_request_answer(action) == RequestAnswer::Pass,
        action == RequestAction::CleanAndPass ==> spec_request_answer(action)
            == RequestAnswer::CleanAndPass,
        action == RequestAction::Remember ==> spec_request_answer(action) == RequestAnswer::Reply(
            Response::Success,
        ),
        action != RequestAction::Remember ==> !(spec_request_answer(action) is Reply),
{
}

/// A philosopher cycles from thinking to hungry, from hungry to eating once
/// both hands hold cutlery, and from eating back to thinking; it never starts
/// eating without cutlery in both hands, and in any other state it stays as
/// it is. (`state_after_step` computes the state after each step.)
pub proof fn lemma_table_cycle(state: States, holds_both: bool)
    ensures
        state == States::PhilosopherThinking ==> spec_table_action(state) == TableAction::GetHungry
            && spec_state_after_step(state, holds_both) == Some(States::PhilosopherHungry),
        state == States::PhilosopherHungry ==> spec_table_action(state)
            == TableAction::RequestCutlery && spec_state_after_step(state, holds_both) == (if holds_both {
            Some(States::PhilosopherEating)
        } else {
            None
        }),
        state == States::PhilosopherEating ==> spec_table_action(state) == TableAction::FinishEating
            && spec_state_after_step(state, holds_both) == Some(States::PhilosopherThinking),
        state != States::PhilosopherThinking && state != States::PhilosopherHungry && state
            != States::PhilosopherEating ==> spec_table_action(state) == TableAction::Wait
            && spec_state_after_step(state, holds_both) is None,
        spec_state_after_step(state, holds_both) == Some(States::PhilosopherEating) ==> holds_both,
{
}

/// The end of a meal handles both sides, the right one first; on each side
/// the cutlery is used before it may be handed over.
pub proof fn lemma_eating_order()
    ensures
        spec_eating_plan().len() == 4,
        spec_eating_plan()[0] == EatingAction::Use(Side::Right),
        spec_eating_plan()[1] == EatingAction::HandOver(Side::Right),
        spec_eating_plan()[2] == EatingAction::Use(Side::Left),
        spec_eating_plan()[3] == EatingAction::HandOver(Side::Left),
        forall|i: int, j: int, side: Side|
            0 <= i < spec_eating_plan().len() && 0 <= j < spec_eating_plan().len()
                && spec_eating_plan()[i] == EatingAction::Use(side) && spec_eating_plan()[j]
                == EatingAction::HandOver(side) ==> i < j,
{
}

} // verus!
