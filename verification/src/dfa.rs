//! A small deterministic finite automaton over the binary alphabet, kept as
//! a self-contained demonstration beside the monitor.
//!
//! The machine has three states; it accepts exactly the inputs whose run
//! from the start state ends in the single accepting state.

use vstd::prelude::*;

verus! {

/// A state of the demonstration machine.
#[derive(Clone, Copy, Debug, PartialEq, Eq, Structural)]
pub enum MyState {
    S0,
    S1,
    S2,
}

/// An input symbol of the demonstration machine.
#[derive(Clone, Copy, Debug, PartialEq, Eq, Structural)]
pub enum MySymbol {
    Zero,
    One,
}

/// The machine's transition function.
pub open spec fn spec_step(s: MyState, y: MySymbol) -> MyState {
    match (s, y) {
        (MyState::S0, MySymbol::Zero) => MyState::S0,
        (MyState::S0, MySymbol::One) => MyState::S1,
        (MyState::S1, MySymbol::Zero) => MyState::S0,
        (MyState::S1, MySymbol::One) => MyState::S2,
        (MyState::S2, MySymbol::Zero) => MyState::S2,
        (MyState::S2, MySymbol::One) => MyState::S1,
    }
}

/// The state the machine reaches from `s` after consuming `input`.
pub open spec fn spec_run(s: MyState, input: Seq<MySymbol>) -> MyState
    decreases input.len(),
{
    if input.len() == 0 {
        s
    } else {
        spec_run(spec_step(s, input[0]), input.skip(1))
    }
}

/// Whether the machine accepts `input`: the run from the start state ends
/// in the accepting state.
pub open spec fn spec_accepts(input: Seq<MySymbol>) -> bool {
    spec_run(MyState::S0, input) == MyState::S1
}

/// Consuming one more symbol steps the state the run had reached.
proof fn lemma_run_push(s: MyState, u: Seq<MySymbol>, y: MySymbol)
    ensures
        spec_run(s, u.push(y)) == spec_step(spec_run(s, u), y),
    decreases u.len(),
{
    reveal_with_fuel(spec_run, 3);
    if u.len() == 0 {
        assert(u.push(y)[0] == y);
        assert(u.push(y).skip(1) =~= Seq::<MySymbol>::empty());
    } else {
        assert(u.push(y)[0] == u[0]);
        assert(u.push(y).skip(1) =~= u.skip(1).push(y));
        lemma_run_push(spec_step(s, u[0]), u.skip(1), y);
        assert(spec_run(s, u.push(y)) == spec_run(spec_step(s, u[0]), u.skip(1).push(y)));
    }
}

/// The deterministic finite automaton: its states, its start state, and its
/// accepting states. The transition function is `spec_step`.
pub struct Dfa {
    pub states: Vec<MyState>,
    pub initial_state: MyState,
    pub final_states: Vec<MyState>,
}

impl Dfa {
    /// The machine as built: started in `S0`, accepting exactly in `S1`.
    pub open spec fn wf(&self) -> bool {
        &&& self.initial_state == MyState::S0
        &&& self.final_states@ == seq![MyState::S1]
    }

    /// Builds the three-state machine.
    pub fn new() -> (d: Dfa)
        ensures
            d.wf(),
            d.states@ == seq![MyState::S0, MyState::S1, MyState::S2],
    {
        let mut states: Vec<MyState> = Vec::new();
        states.push(MyState::S0);
        states.push(MyState::S1);
        states.push(MyState::S2);
        let mut final_states: Vec<MyState> = Vec::new();
        final_states.push(MyState::S1);
        let d = Dfa { states, initial_state: MyState::S0, final_states };
        proof {
            assert(d.final_states@ =~= seq![MyState::S1]);
        }
        d
    }

    fn step(s: MyState, y: MySymbol) -> (t: MyState)
        ensures
            t == spec_step(s, y),
    {
        match (s, y) {
            (MyState::S0, MySymbol::Zero) => MyState::S0,
            (MyState::S0, MySymbol::One) => MyState::S1,
            (MyState::S1, MySymbol::Zero) => MyState::S0,
            (MyState::S1, MySymbol::One) => MyState::S2,
            (MyState::S2, MySymbol::Zero) => MyState::S2,
            (MyState::S2, MySymbol::One) => MyState::S1,
        }
    }

    /// Runs the machine over `input` and decides acceptance.
    pub fn accepts(&self, input: &[MySymbol]) -> (b: bool)
        requires
            self.wf(),
        ensures
            b == spec_accepts(input@),
    {
        let n = input.len();
        let mut state = self.initial_state;
        let mut i: usize = 0;
        while i < n
            invariant
                i <= n,
                n == input@.len(),
                state == spec_run(MyState::S0, input@.take(i as int)),
            decreases n - i,
        {
            let y = input[i];
            state = Self::step(state, y);
            proof {
                assert(input@.take(i + 1 as int) =~= input@.take(i as int).push(y));
                lemma_run_push(MyState::S0, input@.take(i as int), y);
            }
            i = i + 1;
        }
        proof {
            assert(input@.take(n as int) =~= input@);
        }
        let mut found = false;
        let mut k: usize = 0;
        while k < self.final_states.len()
            invariant
                k <= self.final_states@.len(),
                found == exists|j: int| 0 <= j < k && self.final_states@[j] == state,
            decreases self.final_states@.len() - k,
        {
            if self.final_states[k] == state {
                found = true;
            }
            proof {
                if self.final_states@[k as int] == state {
                    assert(self.final_states@[k as int] == state && 0 <= k < k + 1);
                }
            }
            k = k + 1;
        }
        proof {
            if spec_accepts(input@) {
                assert(self.final_states@[0] == state);
            }
        }
        found
    }
}

} // verus!
