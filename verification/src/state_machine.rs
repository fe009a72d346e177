//! A finite-state machine over named states: a table of allowed
//! transitions and the state the machine is in.

use vstd::prelude::*;
use vstd::string::StringExecFns;

verus! {

/// The name of the state that stands for "none yet".
pub open spec fn empty_state() -> Seq<char> {
    "empty"@
}

/// Whether no transition stands twice in the table.
pub open spec fn each_once(table: Seq<(String, String)>) -> bool {
    forall|i: int, j: int|
        0 <= i < j < table.len() ==> !((#[trigger] table[i]).0@ == (#[trigger] table[j]).0@
            && table[i].1@ == table[j].1@)
}

/// A machine that moves between named states along registered
/// transitions only.
pub struct StateMachine {
    /// The state the machine is in.
    pub state: String,
    start: String,
    end: String,
    registry: Vec<(String, String)>,
}

impl StateMachine {
    /// The registered transitions, as pairs of a state and a state that
    /// may follow it.
    pub closed spec fn transitions(&self) -> Set<(Seq<char>, Seq<char>)> {
        Set::new(
            |p: (Seq<char>, Seq<char>)|
                exists|i: int|
                    0 <= i < self.registry@.len() && (#[trigger] self.registry@[i]).0@ == p.0
                        && self.registry@[i].1@ == p.1,
        )
    }

    /// The name of the state the machine is in.
    pub closed spec fn state_name(&self) -> Seq<char> {
        self.state@
    }

    /// The start state's name.
    pub closed spec fn start_name(&self) -> Seq<char> {
        self.start@
    }

    /// The end state's name.
    pub closed spec fn end_name(&self) -> Seq<char> {
        self.end@
    }

    /// The table holds each transition once.
    pub closed spec fn wf(&self) -> bool {
        each_once(self.registry@)
    }

    /// A machine with no transitions, whose state, start and end are all
    /// the empty state.
    pub fn new() -> (machine: Self)
        ensures
            machine.wf(),
            machine.state_name() == empty_state(),
            machine.start_name() == empty_state(),
            machine.end_name() == empty_state(),
            machine.transitions() == Set::<(Seq<char>, Seq<char>)>::empty(),
    {
        let machine = StateMachine {
            state: String::from_str("empty"),
            start: String::from_str("empty"),
            end: String::from_str("empty"),
            registry: Vec::new(),
        };
        assert(machine.transitions() =~= Set::<(Seq<char>, Seq<char>)>::empty());
        machine
    }

    /// The start state.
    pub fn start(&self) -> (name: &String)
        ensures
            name@ == self.start_name(),
    {
        &self.start
    }

    /// The end state.
    pub fn end(&self) -> (name: &String)
        ensures
            name@ == self.end_name(),
    {
        &self.end
    }

    /// Sets the start state. A machine that is still in the empty state
    /// moves to it.
    pub fn set_start(&mut self, start: &str)
        ensures
            final(self).start_name() == start@,
            final(self).state_name() == if old(self).state_name() == empty_state() {
                start@
            } else {
                old(self).state_name()
            },
            final(self).end_name() == old(self).end_name(),
            final(self).transitions() == old(self).transitions(),
            final(self).wf() == old(self).wf(),
    {
        self.start = String::from_str(start);
        let empty = String::from_str("empty");
        if self.state == empty {
            self.state = String::from_str(start);
        }
    }

    /// Sets the end state.
    pub fn set_end(&mut self, end: &str)
        ensures
            final(self).end_name() == end@,
            final(self).state_name() == old(self).state_name(),
            final(self).start_name() == old(self).start_name(),
            final(self).transitions() == old(self).transitions(),
            final(self).wf() == old(self).wf(),
    {
        self.end = String::from_str(end);
    }

    /// The line that tells the state the machine is in.
    pub fn print_state(&self) -> (line: String)
        ensures
            line@ == "Current state: "@ + self.state_name(),
    {
        String::from_str("Current state: ").concat(self.state.as_str())
    }

    /// Whether the transition from `from` to `to` is registered.
    pub fn allows(&self, from: &str, to: &str) -> (found: bool)
        ensures
            found == self.transitions().contains((from@, to@)),
    {
        let source = String::from_str(from);
        let target = String::from_str(to);
        let mut i: usize = 0;
        while i < self.registry.len()
            invariant
                0 <= i <= self.registry@.len(),
                source@ == from@,
                target@ == to@,
                forall|k: int|
                    0 <= k < i ==> !((#[trigger] self.registry@[k]).0@ == from@
                        && self.registry@[k].1@ == to@),
            decreases self.registry@.len() - i,
        {
            if self.registry[i].0 == source && self.registry[i].1 == target {
                proof {
                    let p = (from@, to@);
                    assert(self.registry@[i as int].0@ == p.0 && self.registry@[i as int].1@ == p.1);
                }
                return true;
            }
            i += 1;
        }
        false
    }

    /// Registers the transition from `from` to `to`. Registering it
    /// again changes nothing.
    pub fn add_transition(&mut self, from: &str, to: &str)
        ensures
            old(self).wf() ==> final(self).wf(),
            final(self).transitions() == old(self).transitions().insert((from@, to@)),
            final(self).state_name() == old(self).state_name(),
            final(self).start_name() == old(self).start_name(),
            final(self).end_name() == old(self).end_name(),
    {
        if !self.allows(from, to) {
            let ghost before = self.registry@;
            self.registry.push((String::from_str(from), String::from_str(to)));
            assert forall|p: (Seq<char>, Seq<char>)|
                self.transitions().contains(p) <==> old(self).transitions().insert(
                    (from@, to@),
                ).contains(p) by {
                if self.transitions().contains(p) {
                    let i = choose|i: int|
                        0 <= i < self.registry@.len() && (#[trigger] self.registry@[i]).0@ == p.0
                            && self.registry@[i].1@ == p.1;
                    if i < before.len() {
                        assert(before[i] == self.registry@[i]);
                    }
                }
                if old(self).transitions().contains(p) {
                    let i = choose|i: int|
                        0 <= i < before.len() && (#[trigger] before[i]).0@ == p.0 && before[i].1@
                            == p.1;
                    assert(self.registry@[i] == before[i]);
                }
                if p == (from@, to@) {
                    assert(self.registry@[before.len() as int].0@ == from@);
                }
            }
            assert(self.transitions() =~= old(self).transitions().insert((from@, to@)));
            assert forall|i: int, j: int|
                old(self).wf() && 0 <= i < j < self.registry@.len() implies {
                    let a = #[trigger] self.registry@[i];
                    let b = #[trigger] self.registry@[j];
                    !(a.0@ == b.0@ && a.1@ == b.1@)
                } by {
                assert(self.registry@[i] == before[i]);
                if j < before.len() {
                    assert(self.registry@[j] == before[j]);
                } else {
                    assert(!old(self).transitions().contains((from@, to@)));
                }
            }
        } else {
            assert(self.transitions() =~= old(self).transitions().insert((from@, to@)));
        }
    }

    /// Moves to `to` if the transition from the current state to `to` is
    /// registered, and says whether it did; else the machine stays.
    pub fn transit_to(&mut self, to: &str) -> (moved: bool)
        ensures
            moved == old(self).transitions().contains((old(self).state_name(), to@)),
            final(self).state_name() == if moved {
                to@
            } else {
                old(self).state_name()
            },
            final(self).start_name() == old(self).start_name(),
            final(self).end_name() == old(self).end_name(),
            final(self).transitions() == old(self).transitions(),
            final(self).wf() == old(self).wf(),
    {
        if self.allows(self.state.as_str(), to) {
            self.state = String::from_str(to);
            true
        } else {
            false
        }
    }
}

} // verus!
