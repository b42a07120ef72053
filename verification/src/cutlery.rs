use vstd::prelude::*;

use crate::calls::Response;
use crate::states::States;

verus! {

/// The requests a piece of cutlery answers.
#[derive(Debug, PartialEq, Eq, Structural, Clone, Copy)]
pub enum CutleryRequest {
    /// Clean the cutlery; who holds it does not change.
    Clean,
    /// Eat with the cutlery, making it dirty; who holds it does not change.
    Use,
    /// A philosopher picks the cutlery up.
    PickUp,
    /// The holder puts the cutlery down.
    PutDown,
    /// Ask whether the cutlery is dirty.
    CheckDirty,
}

/// The state of a piece of cutlery after a request, or `None` where the
/// request leaves it as it is.
pub open spec fn spec_cutlery_next(state: States, request: CutleryRequest) -> Option<States> {
    match request {
        CutleryRequest::Clean => Some(States::CutleryClean(state.spec_is_used())),
        CutleryRequest::Use => Some(States::CutleryDirty(state.spec_is_used())),
        CutleryRequest::PickUp => if state.spec_is_used() {
            None
        } else {
            Some(States::CutleryClean(true))
        },
        CutleryRequest::PutDown => Some(States::CutleryClean(false)),
        CutleryRequest::CheckDirty => None,
    }
}

/// The cutlery refuses a request only when it is picked up while someone
/// already holds it.
pub open spec fn spec_cutlery_refuses(state: States, request: CutleryRequest) -> bool {
    request == CutleryRequest::PickUp && state.spec_is_used()
}

/// The byte with which a piece of cutlery answers whether it is dirty.
pub open spec fn dirty_byte(state: States) -> u8 {
    if state.spec_is_clean() {
        0
    } else {
        1
    }
}

/// How a piece of cutlery in `state` answers `request`: the state it moves
/// to, if it moves, and the reply it sends back.
pub fn cutlery_step(state: States, request: CutleryRequest) -> (r: (Option<States>, Response))
    ensures
        r.0 == spec_cutlery_next(state, request),
        spec_cutlery_refuses(state, request) ==> (r.1 matches Response::Failure(m) && m@
            == "No nabbing allowed!"@),
        request == CutleryRequest::CheckDirty ==> (r.1 matches Response::Return(b) && b@ == seq![
            dirty_byte(state),
        ]),
        !spec_cutlery_refuses(state, request) && request != CutleryRequest::CheckDirty ==> r.1
            == Response::Success,
        request == CutleryRequest::PickUp && !state.spec_is_used() ==> r.0 == Some(
            States::CutleryClean(true),
        ),
        request == CutleryRequest::PickUp && state.spec_is_used() ==> r.0 is None,
        request == CutleryRequest::PutDown ==> r.0 == Some(States::CutleryClean(false)),
        request == CutleryRequest::Clean ==> r.0 == Some(States::CutleryClean(state.spec_is_used())),
        request == CutleryRequest::Use ==> r.0 == Some(States::CutleryDirty(state.spec_is_used())),
        request == CutleryRequest::CheckDirty ==> r.0 is None,
{
    match request {
        CutleryRequest::Clean => (Some(States::CutleryClean(state.is_used())), Response::Success),
        CutleryRequest::Use => (Some(States::CutleryDirty(state.is_used())), Response::Success),
        CutleryRequest::PickUp => {
            if state.is_used() {
                (None, Response::Failure(String::from_str("No nabbing allowed!")))
            } else {
                (Some(States::CutleryClean(true)), Response::Success)
            }
        },
        CutleryRequest::PutDown => (Some(States::CutleryClean(false)), Response::Success),
        CutleryRequest::CheckDirty => {
            let byte: u8 = if state.is_dirty() {
                1
            } else {
                0
            };
            let mut reply: Vec<u8> = Vec::new();
            reply.push(byte);
            assert(reply@ =~= seq![dirty_byte(state)]);
            (None, Response::Return(reply))
        },
    }
}

/// The state a piece of cutlery is in after a request.
pub open spec fn state_after(state: States, request: CutleryRequest) -> States {
    match spec_cutlery_next(state, request) {
        Some(s) => s,
        None => state,
    }
}

/// No nabbing: once a philosopher has picked a free piece of cutlery up, any
/// request but putting it down leaves it held, so that nobody else can pick
/// it up; once it is put down, it can be picked up again.
pub proof fn lemma_no_nabbing(state: States, request: CutleryRequest)
    requires
        !spec_cutlery_refuses(state, CutleryRequest::PickUp),
    ensures
        state_after(state, CutleryRequest::PickUp).spec_is_used(),
        request != CutleryRequest::PutDown ==> spec_cutlery_refuses(
            state_after(state_after(state, CutleryRequest::PickUp), request),
            CutleryRequest::PickUp,
        ),
        !spec_cutlery_refuses(
            state_after(state_after(state, CutleryRequest::PickUp), CutleryRequest::PutDown),
            CutleryRequest::PickUp,
        ),
{
}

/// What each request does to a piece of cutlery: picking up a free piece
/// leaves it clean and held; picking up a held piece changes nothing;
/// putting it down leaves it clean and free; cleaning leaves it clean and
/// using it leaves it dirty, both with the same holder; asking whether it is
/// dirty changes nothing, and the answer is 1 exactly for a piece that is not
/// clean.
pub proof fn lemma_cutlery_transitions(state: States)
    ensures
        !state.spec_is_used() ==> spec_cutlery_next(state, CutleryRequest::PickUp) == Some(
            States::CutleryClean(true),
        ),
        state.spec_is_used() ==> spec_cutlery_next(state, CutleryRequest::PickUp) is None,
        spec_cutlery_next(state, CutleryRequest::PutDown) == Some(States::CutleryClean(false)),
        spec_cutlery_next(state, CutleryRequest::Clean) == Some(
            States::CutleryClean(state.spec_is_used()),
        ),
        spec_cutlery_next(state, CutleryRequest::Use) == Some(
            States::CutleryDirty(state.spec_is_used()),
        ),
        spec_cutlery_next(state, CutleryRequest::CheckDirty) is None,
        (dirty_byte(state) == 1) == !(state is CutleryClean),
        (dirty_byte(state) == 0) == (state is CutleryClean),
        spec_cutlery_refuses(state, CutleryRequest::PickUp) == (state == States::CutleryClean(true)
            || state == States::CutleryDirty(true)),
{
}

/// Cleaning a piece of cutlery makes it clean and eating with it makes it
/// dirty, and neither changes who holds it.
pub proof fn lemma_clean_and_use(state: States)
    ensures
        state_after(state, CutleryRequest::Clean).spec_is_clean(),
        !state_after(state, CutleryRequest::Use).spec_is_clean(),
        state_after(state, CutleryRequest::Clean).spec_is_used() == state.spec_is_used(),
        state_after(state, CutleryRequest::Use).spec_is_used() == state.spec_is_used(),
{
}

} // verus!
