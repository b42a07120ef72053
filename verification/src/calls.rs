use vstd::prelude::*;

use crate::node::Node;
use crate::states::States;
use crate::COMMAND_LEN;

verus! {

/// Response from a call
/// - **Success**: The call was successful
/// - **Failure**: The call failed with the given message
/// - **Return**: The call returned the given data, serialized as a byte vector
/// - **NotFound**: The callee does not handle the call
#[derive(Debug, PartialEq)]
pub enum Response {
    Success,
    Failure(String),
    Return(Vec<u8>),
    NotFound,
}

/// Commands that can be sent to a node; each is answered by the matching
/// handler of the receiving node.
#[derive(Debug)]
pub enum Commands {
    /// Register a serialized node with the waiter, or hand a serialized
    /// restaurant to a philosopher.
    Register(Vec<u8>),
    /// Ask the waiter about the restaurant.
    Info,
    /// Seat a philosopher: right and left neighbour, right and left cutlery,
    /// and the philosopher's id.
    Initialize((Node, Node, Option<Node>, Option<Node>), usize),
    /// Clean a piece of cutlery.
    CleanCutlery(Node),
    /// Make a piece of cutlery dirty by eating with it.
    UseCutlery(Node),
    /// Ask a piece of cutlery whether it is dirty.
    IsDirty,
    /// A philosopher receives a piece of cutlery on the given side.
    ReceiveCutlery(Node, String),
    /// A philosopher is asked for the piece of cutlery on the given side.
    ReceiveRequest(Node, String),
    /// A philosopher picks up a piece of cutlery.
    PickUp(Node),
    /// A piece of cutlery is put down.
    PutDown,
    SetState(States),
    GetState,
    /// A node reports its serialized self, including its new state.
    InformStateUpdate(Vec<u8>),
    /// Report how long a state was active.
    ReportStateTime(States, u64),
}

/// A message padded with zeros, or cut, to the frame length.
pub open spec fn spec_frame(bytes: Seq<u8>) -> Seq<u8> {
    Seq::new(
        COMMAND_LEN as nat,
        |i: int|
            if i < bytes.len() {
                bytes[i]
            } else {
                0u8
            },
    )
}

/// Brings a serialized message to the frame length in which it travels:
/// shorter messages are padded with zeros, longer ones are cut.
pub fn frame(bytes: Vec<u8>) -> (r: Vec<u8>)
    ensures
        r@ == spec_frame(bytes@),
        r@.len() == COMMAND_LEN,
        forall|i: int| 0 <= i < COMMAND_LEN && i < bytes@.len() ==> #[trigger] r@[i] == bytes@[i],
        forall|i: int| bytes@.len() <= i < COMMAND_LEN ==> #[trigger] r@[i] == 0,
{
    let mut framed = bytes;
    let ghost original = framed@;
    framed.resize(COMMAND_LEN, 0u8);
    proof {
        if COMMAND_LEN <= original.len() {
            assert(framed@ =~= spec_frame(original));
        } else {
            assert forall|i: int| 0 <= i < COMMAND_LEN implies #[trigger] framed@[i] == spec_frame(
                original,
            )[i] by {
                if i < original.len() {
                    assert(framed@.subrange(0, original.len() as int)[i] == original[i]);
                }
            }
            assert(framed@ =~= spec_frame(original));
        }
    }
    framed
}

/// A message that fits in a frame is found again at the start of its frame,
/// followed only by zeros.
pub proof fn lemma_frame_keeps_message(bytes: Seq<u8>)
    requires
        bytes.len() <= COMMAND_LEN,
    ensures
        spec_frame(bytes).len() == COMMAND_LEN,
        spec_frame(bytes).subrange(0, bytes.len() as int) == bytes,
        forall|i: int| bytes.len() <= i < COMMAND_LEN ==> #[trigger] spec_frame(bytes)[i] == 0,
{
    assert(spec_frame(bytes).subrange(0, bytes.len() as int) =~= bytes);
}

/// A message longer than a frame is cut to its first `COMMAND_LEN` bytes.
pub proof fn lemma_frame_cuts_message(bytes: Seq<u8>)
    requires
        bytes.len() >= COMMAND_LEN,
    ensures
        spec_frame(bytes) == bytes.subrange(0, COMMAND_LEN as int),
{
    assert(spec_frame(bytes) =~= bytes.subrange(0, COMMAND_LEN as int));
}

} // verus!
