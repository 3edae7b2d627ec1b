//! The instruction stream that code generation produces: an ordered buffer
//! of tagged instructions over quantum and classical bits.

use vstd::prelude::*;

verus! {

/// A quantum bit, named by its zero-based index.
#[derive(Clone, Copy, Debug, PartialEq, Eq, Structural)]
pub struct Qbit(pub u32);

impl Qbit {
    /// The index of this bit, widened for use in outward-facing arrays.
    pub fn index(self) -> (r: usize)
        ensures
            r == self.0,
    {
        self.0 as usize
    }
}

/// The named operation at the core of a quantum gate, without any controls.
#[derive(Clone, Copy, Debug, PartialEq, Eq, Structural)]
pub enum BaseGateQ {
    X(Qbit),
    /// The T rotation; the flag selects its conjugate.
    T(Qbit, bool),
    H(Qbit),
    Z(Qbit),
    TDag(Qbit),
    Cnot { tgt: Qbit, ctrl: Qbit },
    Swap(Qbit, Qbit),
}

/// A quantum gate application: a base gate under a possibly empty set of
/// control qubits.
#[derive(Debug, PartialEq, Eq)]
pub struct GateQ {
    pub base: BaseGateQ,
    pub ctrls: Vec<Qbit>,
}

/// One instruction of a circuit. Only a quantum gate carries operands here:
/// of the other instructions nothing but their kind is ever read.
#[derive(Debug, PartialEq, Eq)]
pub enum Inst {
    /// A classical bit is allocated.
    CInit,
    /// A classical bit is released.
    CFree,
    /// A qubit is allocated.
    QInit,
    /// A qubit is released.
    QFree,
    /// A quantum gate is applied.
    QGate(GateQ),
    /// A classical gate is applied.
    CGate,
    /// A qubit is measured into a classical bit.
    Meas,
    /// A classical value is handed to the host.
    Out,
}

/// The ordered sequence of instructions that code generation produced.
#[derive(Debug, PartialEq, Eq)]
pub struct CircuitBuf {
    insts: Vec<Inst>,
}

impl View for CircuitBuf {
    type V = Seq<Inst>;

    closed spec fn view(&self) -> Seq<Inst> {
        self.insts@
    }
}

impl CircuitBuf {
    /// An empty buffer.
    pub fn new() -> (r: Self)
        ensures
            r@ == Seq::<Inst>::empty(),
    {
        CircuitBuf { insts: Vec::new() }
    }

    /// Appends one instruction at the end.
    pub fn push(&mut self, inst: Inst)
        ensures
            final(self)@ == old(self)@.push(inst),
    {
        self.insts.push(inst);
    }

    /// The number of instructions held.
    pub fn len(&self) -> (r: usize)
        ensures
            r == self@.len(),
    {
        self.insts.len()
    }

    /// The instruction at position `i`.
    pub fn get(&self, i: usize) -> (r: &Inst)
        requires
            i < self@.len(),
        ensures
            *r == self@[i as int],
    {
        &self.insts[i]
    }
}

} // verus!
