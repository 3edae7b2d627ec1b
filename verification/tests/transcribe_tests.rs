use pycavy::circuit::{BaseGateQ, CircuitBuf, GateQ, Inst, Qbit};
use pycavy::gates::{CXGate, Gate, HGate, SWAPGate, TDagGate, TGate, XGate, ZGate};
use pycavy::transcribe::{
    circuit_to_gates, transcribe_base_gate, transcribe_gate, transcribe_inst, DefectKind,
    TranscriptionDefect,
};

fn plain(base: BaseGateQ) -> Inst {
    Inst::QGate(GateQ { base, ctrls: vec![] })
}

fn controlled(base: BaseGateQ, ctrls: Vec<Qbit>) -> Inst {
    Inst::QGate(GateQ { base, ctrls })
}

fn buffer(insts: Vec<Inst>) -> CircuitBuf {
    let mut circ = CircuitBuf::new();
    for inst in insts {
        circ.push(inst);
    }
    circ
}

#[test]
fn qbit_index_widens() {
    assert_eq!(Qbit(0).index(), 0);
    assert_eq!(Qbit(17).index(), 17);
    assert_eq!(Qbit(u32::MAX).index(), u32::MAX as usize);
}

#[test]
fn base_gates_map_one_to_one() {
    assert_eq!(transcribe_base_gate(BaseGateQ::X(Qbit(1))), Gate::X(XGate::new([1])));
    assert_eq!(transcribe_base_gate(BaseGateQ::H(Qbit(2))), Gate::H(HGate::new([2])));
    assert_eq!(transcribe_base_gate(BaseGateQ::Z(Qbit(3))), Gate::Z(ZGate::new([3])));
    assert_eq!(
        transcribe_base_gate(BaseGateQ::T(Qbit(4), false)),
        Gate::T(TGate::new([4], false))
    );
    assert_eq!(
        transcribe_base_gate(BaseGateQ::T(Qbit(4), true)),
        Gate::T(TGate::new([4], true))
    );
    assert_eq!(transcribe_base_gate(BaseGateQ::TDag(Qbit(5))), Gate::TDag(TDagGate::new([5])));
    assert_eq!(
        transcribe_base_gate(BaseGateQ::Swap(Qbit(6), Qbit(7))),
        Gate::SWAP(SWAPGate::new([6, 7]))
    );
}

#[test]
fn cnot_lists_control_then_target() {
    let gate = transcribe_base_gate(BaseGateQ::Cnot { tgt: Qbit(1), ctrl: Qbit(3) });
    assert_eq!(gate, Gate::CX(CXGate::new([3, 1])));
    assert_eq!(gate.qbs(), &[3, 1]);
    assert_eq!(gate.to_string(), "CX[3, 1]");
}

#[test]
fn cnot_in_a_circuit_lists_control_then_target() {
    let circ = buffer(vec![plain(BaseGateQ::Cnot { tgt: Qbit(1), ctrl: Qbit(3) })]);
    let gates = circuit_to_gates(&circ).unwrap();
    assert_eq!(gates, vec![Gate::CX(CXGate::new([3, 1]))]);
}

#[test]
fn gate_without_controls_is_transcribed() {
    let gate = GateQ { base: BaseGateQ::H(Qbit(0)), ctrls: vec![] };
    assert_eq!(transcribe_gate(&gate), Ok(Gate::H(HGate::new([0]))));
}

#[test]
fn gate_under_controls_is_a_defect() {
    let gate = GateQ { base: BaseGateQ::X(Qbit(0)), ctrls: vec![Qbit(1)] };
    assert_eq!(transcribe_gate(&gate), Err(DefectKind::ControlledGate));
    let gate = GateQ { base: BaseGateQ::X(Qbit(0)), ctrls: vec![Qbit(1), Qbit(2)] };
    assert_eq!(transcribe_gate(&gate), Err(DefectKind::ControlledGate));
}

#[test]
fn instructions_without_outward_form_are_dropped() {
    assert_eq!(transcribe_inst(&Inst::CInit), Ok(None));
    assert_eq!(transcribe_inst(&Inst::CFree), Ok(None));
    assert_eq!(transcribe_inst(&Inst::QInit), Ok(None));
    assert_eq!(transcribe_inst(&Inst::QFree), Ok(None));
    assert_eq!(transcribe_inst(&Inst::Meas), Ok(None));
    assert_eq!(transcribe_inst(&Inst::Out), Ok(None));
}

#[test]
fn gate_instruction_surfaces() {
    assert_eq!(
        transcribe_inst(&plain(BaseGateQ::Z(Qbit(8)))),
        Ok(Some(Gate::Z(ZGate::new([8]))))
    );
}

#[test]
fn classical_gate_is_a_defect() {
    assert_eq!(transcribe_inst(&Inst::CGate), Err(DefectKind::ClassicalGate));
}

#[test]
fn empty_circuit_gives_no_gates() {
    assert_eq!(circuit_to_gates(&CircuitBuf::new()), Ok(vec![]));
}

#[test]
fn circuit_of_dropped_instructions_gives_no_gates() {
    let circ = buffer(vec![
        Inst::QInit,
        Inst::CInit,
        Inst::Meas,
        Inst::Out,
        Inst::QFree,
        Inst::CFree,
    ]);
    assert_eq!(circ.len(), 6);
    assert_eq!(circuit_to_gates(&circ), Ok(vec![]));
}

#[test]
fn transcription_keeps_instruction_order() {
    let circ = buffer(vec![
        Inst::QInit,
        Inst::QInit,
        plain(BaseGateQ::H(Qbit(0))),
        plain(BaseGateQ::Cnot { tgt: Qbit(1), ctrl: Qbit(0) }),
        Inst::CInit,
        plain(BaseGateQ::T(Qbit(1), true)),
        Inst::Meas,
        plain(BaseGateQ::X(Qbit(0))),
        plain(BaseGateQ::Swap(Qbit(0), Qbit(1))),
        Inst::Out,
        plain(BaseGateQ::TDag(Qbit(0))),
        plain(BaseGateQ::Z(Qbit(1))),
        Inst::QFree,
    ]);
    let gates = circuit_to_gates(&circ).unwrap();
    let rendered: Vec<String> = gates.iter().map(|g| g.to_string()).collect();
    assert_eq!(
        rendered,
        vec!["H[0]", "CX[0, 1]", "T+[1]", "X[0]", "SWAP[0, 1]", "TDag[0]", "Z[1]"]
    );
}

#[test]
fn repeated_gates_all_surface() {
    let circ = buffer(vec![
        plain(BaseGateQ::H(Qbit(0))),
        plain(BaseGateQ::H(Qbit(0))),
        plain(BaseGateQ::H(Qbit(1))),
    ]);
    let gates = circuit_to_gates(&circ).unwrap();
    assert_eq!(
        gates,
        vec![Gate::H(HGate::new([0])), Gate::H(HGate::new([0])), Gate::H(HGate::new([1]))]
    );
}

#[test]
fn controlled_gate_fails_the_transcription() {
    let circ = buffer(vec![
        Inst::QInit,
        plain(BaseGateQ::H(Qbit(0))),
        controlled(BaseGateQ::X(Qbit(0)), vec![Qbit(1)]),
        plain(BaseGateQ::Z(Qbit(0))),
    ]);
    assert_eq!(
        circuit_to_gates(&circ),
        Err(TranscriptionDefect { index: 2, kind: DefectKind::ControlledGate })
    );
}

#[test]
fn classical_gate_fails_the_transcription() {
    let circ = buffer(vec![Inst::CGate, plain(BaseGateQ::H(Qbit(0)))]);
    assert_eq!(
        circuit_to_gates(&circ),
        Err(TranscriptionDefect { index: 0, kind: DefectKind::ClassicalGate })
    );
}

#[test]
fn first_defect_is_reported() {
    let circ = buffer(vec![
        plain(BaseGateQ::H(Qbit(0))),
        Inst::Meas,
        Inst::CGate,
        controlled(BaseGateQ::X(Qbit(0)), vec![Qbit(1)]),
    ]);
    assert_eq!(
        circuit_to_gates(&circ),
        Err(TranscriptionDefect { index: 2, kind: DefectKind::ClassicalGate })
    );
    let circ = buffer(vec![
        controlled(BaseGateQ::X(Qbit(0)), vec![Qbit(1)]),
        Inst::CGate,
    ]);
    assert_eq!(
        circuit_to_gates(&circ),
        Err(TranscriptionDefect { index: 0, kind: DefectKind::ControlledGate })
    );
}

#[test]
fn defect_at_the_end_is_found() {
    let circ = buffer(vec![
        plain(BaseGateQ::H(Qbit(0))),
        controlled(BaseGateQ::Swap(Qbit(0), Qbit(1)), vec![Qbit(2)]),
    ]);
    assert_eq!(
        circuit_to_gates(&circ),
        Err(TranscriptionDefect { index: 1, kind: DefectKind::ControlledGate })
    );
}

#[test]
fn defects_describe_themselves() {
    let d = TranscriptionDefect { index: 12, kind: DefectKind::ControlledGate };
    assert_eq!(d.message(), "instruction 12: controlled gates have no gate object");
    let d = TranscriptionDefect { index: 0, kind: DefectKind::ClassicalGate };
    assert_eq!(d.message(), "instruction 0: classical gates have no gate object");
}

#[test]
fn circuit_buffer_keeps_what_is_pushed() {
    let mut circ = CircuitBuf::new();
    assert_eq!(circ.len(), 0);
    circ.push(Inst::QInit);
    circ.push(plain(BaseGateQ::X(Qbit(4))));
    assert_eq!(circ.len(), 2);
    assert_eq!(circ.get(0), &Inst::QInit);
    assert_eq!(circ.get(1), &plain(BaseGateQ::X(Qbit(4))));
}
