use vstd::prelude::*;

use crate::node::{Node, RegisterType};
use crate::states::States;
use crate::table::StateTable;

verus! {

/// The waiter's view of the restaurant: who is seated, and statistics about
/// the states the nodes went through.
#[derive(Debug, Clone)]
pub struct Restaurant {
    pub phillosophers: Vec<Node>,
    pub cutlery: Vec<Node>,
    /// How often each state was reported; cutlery states are counted without
    /// their holder flag.
    pub state_stats: StateTable<usize>,
    /// Total time spent in each state.
    pub state_times: StateTable<u64>,
    /// Longest single time spent in each state.
    pub max_state_time: StateTable<u64>,
    /// Shortest single time spent in each state.
    pub min_state_time: StateTable<u64>,
}

/// The state under which a reported state is counted: cutlery states lose
/// their holder flag, every other state counts as itself.
pub open spec fn spec_stats_state(state: States) -> States {
    match state {
        States::CutleryClean(_) => States::CutleryStatsClean,
        States::CutleryDirty(_) => States::CutleryStatsDirty,
        s => s,
    }
}

/// See [`spec_stats_state`].
pub fn stats_state(state: States) -> (r: States)
    ensures
        r == spec_stats_state(state),
        state is CutleryClean ==> r == States::CutleryStatsClean,
        state is CutleryDirty ==> r == States::CutleryStatsDirty,
        !(state is CutleryClean) && !(state is CutleryDirty) ==> r == state,
{
    match state {
        States::CutleryClean(_) => States::CutleryStatsClean,
        States::CutleryDirty(_) => States::CutleryStatsDirty,
        s => s,
    }
}

/// The value stored for `k`, or zero.
pub open spec fn count_or_zero<V>(m: Map<States, V>, k: States, zero: V) -> V {
    if m.contains_key(k) {
        m[k]
    } else {
        zero
    }
}

/// Reported cutlery states are counted without their holder flag, under the
/// clean or the dirty counting state; every other state is counted under
/// itself, so that two different states other than cutlery states are never
/// counted together.
pub proof fn lemma_stats_state(state: States, other: States)
    ensures
        state is CutleryClean ==> spec_stats_state(state) == States::CutleryStatsClean,
        state is CutleryDirty ==> spec_stats_state(state) == States::CutleryStatsDirty,
        !(state is CutleryClean) && !(state is CutleryDirty) ==> spec_stats_state(state) == state,
        spec_stats_state(spec_stats_state(state)) == spec_stats_state(state),
        !(state is CutleryClean) && !(state is CutleryDirty) && !(other is CutleryClean) && !(
        other is CutleryDirty) && state != other ==> spec_stats_state(state) != spec_stats_state(
            other,
        ),
{
}

/// Replacing by name changes exactly the entries named like the reporting
/// node: those become the node, every other entry stays as it was, and the
/// list keeps its length.
pub proof fn lemma_replace_by_name(nodes: Seq<Node>, node: Node)
    ensures
        replace_by_name(nodes, node).len() == nodes.len(),
        forall|j: int|
            0 <= j < nodes.len() && nodes[j].username@ != node.username@ ==> #[trigger] replace_by_name(
                nodes,
                node,
            )[j] == nodes[j],
        forall|j: int|
            0 <= j < nodes.len() && nodes[j].username@ == node.username@ ==> #[trigger] replace_by_name(
                nodes,
                node,
            )[j] == node,
{
}

/// The list `nodes` where every node named like `node` is replaced by `node`.
pub open spec fn replace_by_name(nodes: Seq<Node>, node: Node) -> Seq<Node> {
    nodes.map_values(|n: Node| if n.username@ == node.username@ { node } else { n })
}

impl Restaurant {
    /// The time statistics agree: a state has a longest time exactly when it
    /// has a shortest one, and then it also has a total, with
    /// shortest <= longest <= total.
    pub open spec fn times_consistent(&self) -> bool {
        forall|k: States|
            (#[trigger] self.max_state_time@.contains_key(k) <==> self.min_state_time@.contains_key(k))
                && (self.max_state_time@.contains_key(k) ==> {
                &&& self.state_times@.contains_key(k)
                &&& self.min_state_time@[k] <= self.max_state_time@[k]
                &&& self.max_state_time@[k] <= self.state_times@[k]
            })
    }

    /// State counts are kept per counted state only: no cutlery state with a
    /// holder flag has a count of its own.
    pub open spec fn counts_normalized(&self) -> bool {
        forall|k: States| #[trigger]
            self.state_stats@.contains_key(k) ==> spec_stats_state(k) == k
    }
}

impl Default for Restaurant {
    fn default() -> (r: Self)
        ensures
            r.phillosophers@.len() == 0,
            r.cutlery@.len() == 0,
            r.state_stats@ == Map::<States, usize>::empty(),
            r.state_times@ == Map::<States, u64>::empty(),
            r.max_state_time@ == Map::<States, u64>::empty(),
            r.min_state_time@ == Map::<States, u64>::empty(),
            r.times_consistent(),
            r.counts_normalized(),
    {
        Restaurant {
            phillosophers: Vec::new(),
            cutlery: Vec::new(),
            state_stats: StateTable::new(),
            state_times: StateTable::new(),
            max_state_time: StateTable::new(),
            min_state_time: StateTable::new(),
        }
    }
}

impl Restaurant {
    /// Adds one observed duration of `state` to the statistics: the total,
    /// the longest and the shortest time spent in it.
    pub fn add_state_time(&mut self, state: States, time: u64)
        requires
            count_or_zero(old(self).state_times@, state, 0u64) + time <= u64::MAX,
        ensures
            final(self).state_times@ == old(self).state_times@.insert(
                state,
                (count_or_zero(old(self).state_times@, state, 0u64) + time) as u64,
            ),
            final(self).max_state_time@ == old(self).max_state_time@.insert(
                state,
                if old(self).max_state_time@.contains_key(state) && old(self).max_state_time@[state]
                    >= time {
                    old(self).max_state_time@[state]
                } else {
                    time
                },
            ),
            final(self).min_state_time@ == old(self).min_state_time@.insert(
                state,
                if old(self).min_state_time@.contains_key(state) && old(self).min_state_time@[state]
                    <= time {
                    old(self).min_state_time@[state]
                } else {
                    time
                },
            ),
            final(self).state_stats@ == old(self).state_stats@,
            final(self).phillosophers@ == old(self).phillosophers@,
            final(self).cutlery@ == old(self).cutlery@,
            old(self).times_consistent() ==> final(self).times_consistent(),
    {
        let previous_time: u64 = match self.state_times.get(&state) {
            Some(t) => *t,
            None => 0,
        };
        self.state_times.insert(state, previous_time + time);

        let max_time: u64 = match self.max_state_time.get(&state) {
            Some(m) => if time > *m {
                time
            } else {
                *m
            },
            None => time,
        };
        self.max_state_time.insert(state, max_time);

        let min_time: u64 = match self.min_state_time.get(&state) {
            Some(m) => if time < *m {
                time
            } else {
                *m
            },
            None => time,
        };
        self.min_state_time.insert(state, min_time);
    }

    /// Counts one more report of `state`.
    pub fn add_state(&mut self, state: States)
        requires
            count_or_zero(old(self).state_stats@, spec_stats_state(state), 0usize) < usize::MAX,
        ensures
            final(self).state_stats@ == old(self).state_stats@.insert(
                spec_stats_state(state),
                (count_or_zero(old(self).state_stats@, spec_stats_state(state), 0usize)
                    + 1) as usize,
            ),
            !(state is CutleryClean) && !(state is CutleryDirty) ==> final(self).state_stats@
                == old(self).state_stats@.insert(
                state,
                (count_or_zero(old(self).state_stats@, state, 0usize) + 1) as usize,
            ),
            final(self).state_times@ == old(self).state_times@,
            final(self).max_state_time@ == old(self).max_state_time@,
            final(self).min_state_time@ == old(self).min_state_time@,
            final(self).phillosophers@ == old(self).phillosophers@,
            final(self).cutlery@ == old(self).cutlery@,
            old(self).counts_normalized() ==> final(self).counts_normalized(),
    {
        let key = stats_state(state);
        let count: usize = match self.state_stats.get(&key) {
            Some(c) => *c,
            None => 0,
        };
        self.state_stats.insert(key, count + 1);
    }

    /// Adds `time` to the total time spent in `state`.
    pub fn report_state_time(&mut self, state: States, time: u64)
        requires
            count_or_zero(old(self).state_times@, state, 0u64) + time <= u64::MAX,
        ensures
            final(self).state_times@ == old(self).state_times@.insert(
                state,
                (count_or_zero(old(self).state_times@, state, 0u64) + time) as u64,
            ),
            final(self).state_stats@ == old(self).state_stats@,
            final(self).max_state_time@ == old(self).max_state_time@,
            final(self).min_state_time@ == old(self).min_state_time@,
            final(self).phillosophers@ == old(self).phillosophers@,
            final(self).cutlery@ == old(self).cutlery@,
            old(self).times_consistent() ==> final(self).times_consistent(),
    {
        let previous_time: u64 = match self.state_times.get(&state) {
            Some(t) => *t,
            None => 0,
        };
        self.state_times.insert(state, previous_time + time);
    }

    /// Seats a newly registered node: philosophers and cutlery join their
    /// lists, a waiter is not seated.
    pub fn register_node(&mut self, node: Node)
        ensures
            final(self).phillosophers@ == (if node.of_type == RegisterType::Philosopher {
                old(self).phillosophers@.push(node)
            } else {
                old(self).phillosophers@
            }),
            final(self).cutlery@ == (if node.of_type == RegisterType::Cutlery {
                old(self).cutlery@.push(node)
            } else {
                old(self).cutlery@
            }),
            final(self).state_stats@ == old(self).state_stats@,
            final(self).state_times@ == old(self).state_times@,
            final(self).max_state_time@ == old(self).max_state_time@,
            final(self).min_state_time@ == old(self).min_state_time@,
    {
        match node.of_type {
            RegisterType::Philosopher => self.phillosophers.push(node),
            RegisterType::Cutlery => self.cutlery.push(node),
            RegisterType::Waiter => {},
        }
    }

    /// Records the new state a node reported: the state is counted, and the
    /// node replaces every entry of the same name in its list.
    pub fn record_state_update(&mut self, node: Node)
        requires
            count_or_zero(old(self).state_stats@, spec_stats_state(node.state), 0usize)
                < usize::MAX,
        ensures
            final(self).state_stats@ == old(self).state_stats@.insert(
                spec_stats_state(node.state),
                (count_or_zero(old(self).state_stats@, spec_stats_state(node.state), 0usize)
                    + 1) as usize,
            ),
            final(self).phillosophers@ == (if node.of_type == RegisterType::Philosopher {
                replace_by_name(old(self).phillosophers@, node)
            } else {
                old(self).phillosophers@
            }),
            final(self).cutlery@ == (if node.of_type == RegisterType::Cutlery {
                replace_by_name(old(self).cutlery@, node)
            } else {
                old(self).cutlery@
            }),
            final(self).state_times@ == old(self).state_times@,
            final(self).max_state_time@ == old(self).max_state_time@,
            final(self).min_state_time@ == old(self).min_state_time@,
            final(self).phillosophers@.len() == old(self).phillosophers@.len(),
            final(self).cutlery@.len() == old(self).cutlery@.len(),
            forall|j: int|
                0 <= j < old(self).phillosophers@.len() ==> #[trigger] final(self).phillosophers@[j]
                    == (if node.of_type == RegisterType::Philosopher
                    && old(self).phillosophers@[j].username@ == node.username@ {
                    node
                } else {
                    old(self).phillosophers@[j]
                }),
            forall|j: int|
                0 <= j < old(self).cutlery@.len() ==> #[trigger] final(self).cutlery@[j] == (if node.of_type
                    == RegisterType::Cutlery && old(self).cutlery@[j].username@ == node.username@ {
                    node
                } else {
                    old(self).cutlery@[j]
                }),
            old(self).counts_normalized() ==> final(self).counts_normalized(),
    {
        self.add_state(node.state);
        match node.of_type {
            RegisterType::Philosopher => replace_named(&mut self.phillosophers, &node),
            RegisterType::Cutlery => replace_named(&mut self.cutlery, &node),
            RegisterType::Waiter => {},
        }
    }

    /// All philosophers and all pieces of cutlery expected have registered.
    pub fn is_complete(&self, visitors: usize) -> (r: bool)
        ensures
            r == (visitors == self.phillosophers@.len() && visitors == self.cutlery@.len()),
    {
        visitors == self.phillosophers.len() && visitors == self.cutlery.len()
    }
}

/// Replaces every node of `nodes` named like `node` by a copy of `node`.
fn replace_named(nodes: &mut Vec<Node>, node: &Node)
    ensures
        final(nodes)@ == replace_by_name(old(nodes)@, *node),
        final(nodes)@.len() == old(nodes)@.len(),
        forall|j: int|
            0 <= j < old(nodes)@.len() ==> #[trigger] final(nodes)@[j] == (if old(nodes)@[j].username@
                == node.username@ {
                *node
            } else {
                old(nodes)@[j]
            }),
{
    let ghost original = nodes@;
    let mut i: usize = 0;
    while i < nodes.len()
        invariant
            i <= nodes@.len(),
            nodes@.len() == original.len(),
            forall|j: int| 0 <= j < i ==> nodes@[j] == replace_by_name(original, *node)[j],
            forall|j: int| i <= j < nodes@.len() ==> nodes@[j] == original[j],
        decreases nodes@.len() - i,
    {
        if nodes[i].username == node.username {
            nodes.set(i, node.clone());
        }
        i = i + 1;
    }
    assert(nodes@ =~= replace_by_name(original, *node));
}

} // verus!
