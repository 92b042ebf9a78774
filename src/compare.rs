use vstd::prelude::*;
use crate::layout::Error;

verus! {

/// The two integers to compare.
#[derive(Debug, Clone, Copy, PartialEq, Eq, Structural)]
pub struct Input {
    pub x: i64,
    pub y: i64,
}

/// Whether the two integers were equal.
#[derive(Debug, Clone, Copy, PartialEq, Eq, Structural)]
pub struct Output {
    pub equal: bool,
}

/// Compares the two integers of `input`.
pub fn compare_x_y(input: Input) -> (r: Output)
    ensures
        r.equal == (input.x == input.y),
{
    Output { equal: input.x == input.y }
}

/// The modulus of the Goldilocks field, `2^64 - 2^32 + 1`.
pub const GOLDILOCKS: u64 = 18446744069414584321;

/// The two inputs of the connection circuit.
#[derive(Debug, Clone, Copy, PartialEq, Eq, Structural)]
pub struct InputData {
    pub x: u64,
    pub y: u64,
}

/// A statement proved by the connection circuit: its public inputs, the two
/// connected values as Goldilocks elements.
#[derive(Debug, Clone)]
pub struct TemplateStructName {
    pub public_inputs: Vec<u64>,
}

impl TemplateStructName {
    /// Connects `x` and `y` by a copy constraint and registers both as public
    /// inputs. The witness satisfies the circuit exactly when the two values
    /// are the same field element.
    pub fn prove(input: &InputData) -> (r: Result<TemplateStructName, Error>)
        ensures
            input.x % GOLDILOCKS == input.y % GOLDILOCKS ==> r is Ok && r->Ok_0.public_inputs@
                == seq![(input.x % GOLDILOCKS) as u64, (input.y % GOLDILOCKS) as u64],
            input.x % GOLDILOCKS != input.y % GOLDILOCKS ==> r == Err::<TemplateStructName, Error>(
                Error::ConstraintUnsatisfied,
            ),
    {
        let x = input.x % GOLDILOCKS;
        let y = input.y % GOLDILOCKS;
        if x != y {
            return Err(Error::ConstraintUnsatisfied);
        }
        Ok(TemplateStructName { public_inputs: vec![x, y] })
    }
}

/// The inputs of the circuit that flags equality: two field elements.
#[derive(Debug, Clone, Copy, PartialEq, Eq, Structural)]
pub struct CircuitInput {
    pub x: u64,
    pub y: u64,
}

impl Default for CircuitInput {
    fn default() -> (r: CircuitInput)
        ensures
            r.x == 1 && r.y == 1,
    {
        CircuitInput { x: 1, y: 1 }
    }
}

/// The built circuit, known by the public inputs it exposes.
#[derive(Debug, Clone)]
pub struct CircuitBuilder {
    pub instances: Vec<u64>,
}

/// The public inputs of the flagging circuit: `y` and whether `x == y`.
pub open spec fn is_equal_instances(x: u64, y: u64) -> Seq<u64> {
    seq![y, if x == y { 1u64 } else { 0u64 }]
}

impl CircuitInput {
    /// Loads `x` and `y` as witnesses, constrains the flag `x == y` and
    /// exposes `y` and the flag.
    pub fn create_circuit(self) -> (r: CircuitBuilder)
        ensures
            r.instances@ == is_equal_instances(self.x, self.y),
    {
        let flag: u64 = if self.x == self.y { 1 } else { 0 };
        CircuitBuilder { instances: vec![self.y, flag] }
    }
}

impl CircuitBuilder {
    /// The public inputs, in instance order.
    pub fn instance(&self) -> (r: Vec<u64>)
        ensures
            r@ == self.instances@,
    {
        self.instances.clone()
    }
}

} // verus!
