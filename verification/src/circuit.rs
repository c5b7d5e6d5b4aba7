use vstd::prelude::*;

verus! {

/// The step circuit: the one-step transition relation a folding engine is
/// asked to prove.  The state vector has a single component, the
/// accumulated model weight, and one step adds the external input (a
/// gradient contribution) to it: `z_next[0] == z[0] + input`.  The
/// relation is pure addition, with no conditionals, so an engine can
/// compile it to an arithmetic constraint.
#[derive(Clone, Copy, Debug)]
pub struct AdditionFCircuit {
}

impl AdditionFCircuit {
    /// Construct the circuit; the relation has no parameters.
    pub fn new() -> AdditionFCircuit {
        AdditionFCircuit {  }
    }

    /// Arity of the state vector.
    pub fn state_len(&self) -> (n: usize)
        ensures
            n == 1,
    {
        1
    }

    /// The transition relation on plain state values: the next state's
    /// sole component is `z[0] + input`.
    ///
    /// A state vector of the wrong arity is a construction-time fault and
    /// is ruled out by precondition, not handled at run time.  A sum that
    /// leaves the plain model's range is reported as `None`; an engine
    /// treats that as a rejected step.
    pub fn step(&self, z: &Vec<i128>, input: i128) -> (r: Option<Vec<i128>>)
        requires
            z@.len() == 1,
        ensures
            r is Some <==> i128::MIN <= z@[0] + input <= i128::MAX,
            r matches Some(zn) ==> zn@.len() == 1 && zn@[0] == z@[0] + input,
    {
        match z[0].checked_add(input) {
            Some(v) => Some(vec![v]),
            None => None,
        }
    }
}

} // verus!
