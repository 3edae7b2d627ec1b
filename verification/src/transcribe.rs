//! Transcription of a circuit into outward-facing gate objects.

use vstd::prelude::*;
use vstd::string::*;
use crate::circuit::{BaseGateQ, CircuitBuf, GateQ, Inst, Qbit};
use crate::gates::{CXGate, Gate, HGate, SWAPGate, TDagGate, TGate, XGate, ZGate};
use crate::text::{decimal, decimal_string};

verus! {

/// Why an instruction cannot be transcribed.
#[derive(Clone, Copy, Debug, PartialEq, Eq, Structural)]
pub enum DefectKind {
    /// A quantum gate under one or more control qubits.
    ControlledGate,
    /// A classical gate.
    ClassicalGate,
}

/// An instruction that has no gate object: a gap in the vocabulary, not a
/// condition to recover from.
#[derive(Clone, Copy, Debug, PartialEq, Eq, Structural)]
pub struct TranscriptionDefect {
    /// The position of the offending instruction in the circuit.
    pub index: usize,
    pub kind: DefectKind,
}

/// The index of a qubit as it appears in a gate object's array.
pub open spec fn qubit_index(q: Qbit) -> usize {
    q.0 as usize
}

/// What a base gate surfaces as: one gate object. A controlled-NOT lists its
/// control first and its target second.
pub open spec fn base_gate_object(base: BaseGateQ) -> Gate {
    match base {
        BaseGateQ::X(u) => Gate::X(XGate { qbs: [qubit_index(u)] }),
        BaseGateQ::T(u, conj) => Gate::T(TGate { qbs: [qubit_index(u)], flag: conj }),
        BaseGateQ::H(u) => Gate::H(HGate { qbs: [qubit_index(u)] }),
        BaseGateQ::Z(u) => Gate::Z(ZGate { qbs: [qubit_index(u)] }),
        BaseGateQ::TDag(u) => Gate::TDag(TDagGate { qbs: [qubit_index(u)] }),
        BaseGateQ::Cnot { tgt, ctrl } => Gate::CX(
            CXGate { qbs: [qubit_index(ctrl), qubit_index(tgt)] },
        ),
        BaseGateQ::Swap(fst, snd) => Gate::SWAP(
            SWAPGate { qbs: [qubit_index(fst), qubit_index(snd)] },
        ),
    }
}

/// The defect that an instruction raises, if any.
pub open spec fn defect_of(inst: Inst) -> Option<DefectKind> {
    match inst {
        Inst::QGate(g) => if g.ctrls@.len() > 0 {
            Some(DefectKind::ControlledGate)
        } else {
            None
        },
        Inst::CGate => Some(DefectKind::ClassicalGate),
        _ => None,
    }
}

/// What an instruction surfaces as: a gate object, if any.
pub open spec fn gate_of(inst: Inst) -> Option<Gate> {
    match inst {
        Inst::QGate(g) => if g.ctrls@.len() == 0 {
            Some(base_gate_object(g.base))
        } else {
            None
        },
        _ => None,
    }
}

/// Instructions without an outward form: allocation and release of bits,
/// measurement and output.
pub open spec fn is_dropped(inst: Inst) -> bool {
    match inst {
        Inst::CInit => true,
        Inst::CFree => true,
        Inst::QInit => true,
        Inst::QFree => true,
        Inst::Meas => true,
        Inst::Out => true,
        _ => false,
    }
}

/// What a sequence of instructions surfaces as: its gate objects, in the
/// order of the instructions.
pub open spec fn gates_of(insts: Seq<Inst>) -> Seq<Gate>
    decreases insts.len(),
{
    if insts.len() == 0 {
        Seq::empty()
    } else {
        match gate_of(insts.last()) {
            Some(g) => gates_of(insts.drop_last()).push(g),
            None => gates_of(insts.drop_last()),
        }
    }
}

/// Whether every instruction can be transcribed.
pub open spec fn supported(insts: Seq<Inst>) -> bool {
    forall|i: int| 0 <= i < insts.len() ==> defect_of(#[trigger] insts[i]) is None
}

/// Where in the output instruction `i` surfaces: the number of
/// gates that the instructions before it surface.
pub open spec fn output_position(insts: Seq<Inst>, i: int) -> int {
    gates_of(insts.take(i)).len() as int
}

impl TranscriptionDefect {
    /// What the defect says of itself.
    pub open spec fn spec_message(self) -> Seq<char> {
        "instruction "@ + decimal(self.index as nat) + match self.kind {
            DefectKind::ControlledGate => ": controlled gates have no gate object"@,
            DefectKind::ClassicalGate => ": classical gates have no gate object"@,
        }
    }

    /// Renders the defect for a report.
    pub fn message(&self) -> (r: String)
        ensures
            r@ == self.spec_message(),
    {
        let mut out = String::from_str("instruction ");
        let digits = decimal_string(self.index);
        out.append(digits.as_str());
        match self.kind {
            DefectKind::ControlledGate => out.append(": controlled gates have no gate object"),
            DefectKind::ClassicalGate => out.append(": classical gates have no gate object"),
        }
        out
    }
}

/// Maps a base gate to its gate object.
pub fn transcribe_base_gate(base: BaseGateQ) -> (g: Gate)
    ensures
        g == base_gate_object(base),
{
    match base {
        BaseGateQ::X(u) => Gate::X(XGate::new([u.index()])),
        BaseGateQ::T(u, conj) => Gate::T(TGate::new([u.index()], conj)),
        BaseGateQ::H(u) => Gate::H(HGate::new([u.index()])),
        BaseGateQ::Z(u) => Gate::Z(ZGate::new([u.index()])),
        BaseGateQ::TDag(u) => Gate::TDag(TDagGate::new([u.index()])),
        BaseGateQ::Cnot { tgt, ctrl } => Gate::CX(CXGate::new([ctrl.index(), tgt.index()])),
        BaseGateQ::Swap(fst, snd) => Gate::SWAP(SWAPGate::new([fst.index(), snd.index()])),
    }
}

/// Maps a quantum gate to its gate object; a gate under controls has none.
pub fn transcribe_gate(gate: &GateQ) -> (r: Result<Gate, DefectKind>)
    ensures
        match r {
            Ok(g) => gate.ctrls@.len() == 0 && g == base_gate_object(gate.base),
            Err(k) => gate.ctrls@.len() > 0 && k == DefectKind::ControlledGate,
        },
{
    if gate.ctrls.len() == 0 {
        Ok(transcribe_base_gate(gate.base))
    } else {
        Err(DefectKind::ControlledGate)
    }
}

/// Transcribes one instruction: a gate object, nothing for an instruction
/// that is dropped, or the defect that it raises.
pub fn transcribe_inst(inst: &Inst) -> (r: Result<Option<Gate>, DefectKind>)
    ensures
        match r {
            Ok(g) => defect_of(*inst) is None && g == gate_of(*inst),
            Err(k) => defect_of(*inst) == Some(k),
        },
        is_dropped(*inst) ==> r == Ok::<Option<Gate>, DefectKind>(None),
{
    match inst {
        Inst::CInit => Ok(None),
        Inst::CFree => Ok(None),
        Inst::QInit => Ok(None),
        Inst::QFree => Ok(None),
        Inst::QGate(gate) => match transcribe_gate(gate) {
            Ok(g) => Ok(Some(g)),
            Err(k) => Err(k),
        },
        Inst::CGate => Err(DefectKind::ClassicalGate),
        Inst::Meas => Ok(None),
        Inst::Out => Ok(None),
    }
}

/// Transcribes a circuit into gate objects, in the order of its
/// instructions. Instructions without an outward form are dropped. The first
/// instruction that has no gate object ends the transcription with its
/// defect.
pub fn circuit_to_gates(circ: &CircuitBuf) -> (r: Result<Vec<Gate>, TranscriptionDefect>)
    ensures
        r is Ok <==> supported(circ@),
        match r {
            Ok(gates) => gates@ == gates_of(circ@),
            Err(d) => {
                &&& d.index < circ@.len()
                &&& defect_of(circ@[d.index as int]) == Some(d.kind)
                &&& supported(circ@.take(d.index as int))
            },
        },
{
    let mut gates: Vec<Gate> = Vec::new();
    let mut i: usize = 0;
    while i < circ.len()
        invariant
            i <= circ@.len(),
            supported(circ@.take(i as int)),
            gates@ == gates_of(circ@.take(i as int)),
        decreases circ@.len() - i,
    {
        assert(circ@.take(i + 1).drop_last() =~= circ@.take(i as int));
        match transcribe_inst(circ.get(i)) {
            Ok(Some(g)) => {
                gates.push(g);
            },
            Ok(None) => {},
            Err(kind) => {
                return Err(TranscriptionDefect { index: i, kind });
            },
        }
        i = i + 1;
    }
    assert(circ@.take(i as int) =~= circ@);
    Ok(gates)
}

/// The correspondence between base gates and gate objects is one to one:
/// different base gates have different gate objects.
pub proof fn lemma_base_gate_object_is_one_to_one(a: BaseGateQ, b: BaseGateQ)
    ensures
        base_gate_object(a) == base_gate_object(b) <==> a == b,
{
}

/// The gates of a prefix of a circuit open the gates of the whole.
pub proof fn lemma_gates_of_prefix(insts: Seq<Inst>, k: int)
    requires
        0 <= k <= insts.len(),
    ensures
        gates_of(insts.take(k)).is_prefix_of(gates_of(insts)),
    decreases insts.len(),
{
    if k == insts.len() {
        assert(insts.take(k) =~= insts);
    } else {
        assert(insts.drop_last().take(k) =~= insts.take(k));
        lemma_gates_of_prefix(insts.drop_last(), k);
    }
}

/// An instruction that surfaces as a gate stands in the output at its
/// position.
pub proof fn lemma_gate_at_position(insts: Seq<Inst>, i: int)
    requires
        0 <= i < insts.len(),
        gate_of(insts[i]) is Some,
    ensures
        0 <= output_position(insts, i) < gates_of(insts).len(),
        gates_of(insts)[output_position(insts, i)] == gate_of(insts[i])->0,
{
    let upto = insts.take(i + 1);
    assert(upto.drop_last() =~= insts.take(i));
    lemma_gates_of_prefix(insts, i + 1);
    let pos = output_position(insts, i);
    assert(gates_of(insts).subrange(0, gates_of(upto).len() as int)[pos] == gates_of(insts)[pos]);
}

/// Transcription keeps the instructions' order: of two gate instructions,
/// the earlier one's gate object stands earlier in the output.
pub proof fn lemma_order_preserved(insts: Seq<Inst>, i1: int, i2: int)
    requires
        0 <= i1 < i2 < insts.len(),
        gate_of(insts[i1]) is Some,
        gate_of(insts[i2]) is Some,
    ensures
        0 <= output_position(insts, i1) < output_position(insts, i2) < gates_of(insts).len(),
        gates_of(insts)[output_position(insts, i1)] == gate_of(insts[i1])->0,
        gates_of(insts)[output_position(insts, i2)] == gate_of(insts[i2])->0,
{
    lemma_gate_at_position(insts, i1);
    lemma_gate_at_position(insts, i2);
    let upto = insts.take(i2);
    assert(upto.take(i1) =~= insts.take(i1));
    lemma_gate_at_position(upto, i1);
}

/// A circuit of allocation, release, measurement and output instructions
/// alone transcribes to no gate at all.
pub proof fn lemma_dropped_surface_nothing(insts: Seq<Inst>)
    requires
        forall|i: int| 0 <= i < insts.len() ==> is_dropped(#[trigger] insts[i]),
    ensures
        supported(insts),
        gates_of(insts) == Seq::<Gate>::empty(),
    decreases insts.len(),
{
    if insts.len() > 0 {
        lemma_dropped_surface_nothing(insts.drop_last());
    }
}

/// A circuit that holds a quantum gate under controls, or a classical gate,
/// is not transcribed: no gate sequence stands for it.
pub proof fn lemma_defect_blocks_transcription(insts: Seq<Inst>, i: int)
    requires
        0 <= i < insts.len(),
        defect_of(insts[i]) is Some,
    ensures
        !supported(insts),
{
}

} // verus!
