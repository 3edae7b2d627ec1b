//! The outward-facing gate objects: one type per named operation, each over a
//! fixed-size array of qubit indices, with a canonical string form.

use vstd::prelude::*;
use vstd::string::*;
use crate::text::{decimal, decimal_string};

verus! {

/// The indices of an array in list notation without the brackets: decimal
/// numbers separated by a comma and a space.
pub open spec fn index_list(qbs: Seq<usize>) -> Seq<char>
    decreases qbs.len(),
{
    if qbs.len() == 0 {
        Seq::empty()
    } else if qbs.len() == 1 {
        decimal(qbs[0] as nat)
    } else {
        index_list(qbs.drop_last()) + seq![',', ' '] + decimal(qbs.last() as nat)
    }
}

/// The marker that follows an operation's name: `+` where the flag is set.
pub open spec fn flag_marker(flag: bool) -> Seq<char> {
    if flag {
        seq!['+']
    } else {
        Seq::empty()
    }
}

/// The canonical string form of a gate: the operation's name, the flag
/// marker, then the qubit indices in square brackets.
pub open spec fn canonical_form(name: Seq<char>, flag: bool, qbs: Seq<usize>) -> Seq<char> {
    name + flag_marker(flag) + seq!['['] + index_list(qbs) + seq![']']
}

/// Renders the canonical string form of a gate from its parts.
pub fn render(name: &str, flag: bool, qbs: &[usize]) -> (r: String)
    ensures
        r@ == canonical_form(name@, flag, qbs@),
{
    let mut out = String::from_str(name);
    proof {
        reveal_strlit("+");
        reveal_strlit("[");
        reveal_strlit("]");
    }
    if flag {
        out.append("+");
    }
    out.append("[");
    let ghost head = out@;
    let mut i: usize = 0;
    while i < qbs.len()
        invariant
            i <= qbs.len(),
            out@ == head + index_list(qbs@.take(i as int)),
        decreases qbs.len() - i,
    {
        if i > 0 {
            out.append(", ");
        }
        let digits = decimal_string(qbs[i]);
        out.append(digits.as_str());
        proof {
            reveal_strlit(", ");
            assert(qbs@.take(i + 1).drop_last() =~= qbs@.take(i as int));
        }
        i = i + 1;
    }
    assert(qbs@.take(i as int) =~= qbs@);
    out.append("]");
    out
}

/// A Hadamard gate.
#[derive(Clone, Copy, Debug, PartialEq, Eq)]
pub struct HGate {
    pub qbs: [usize; 1],
}

impl HGate {
    /// Builds a gate on the given qubits.
    pub fn new(qbs: [usize; 1]) -> (g: Self)
        ensures
            g.qbs == qbs,
    {
        HGate { qbs }
    }

    /// The canonical string form.
    pub open spec fn repr(self) -> Seq<char> {
        canonical_form(seq!['H'], false, self.qbs@)
    }

    /// Renders the canonical string form.
    pub fn to_string(&self) -> (r: String)
        ensures
            r@ == self.repr(),
    {
        proof {
            reveal_strlit("H");
        }
        render("H", false, self.qbs.as_slice())
    }
}

/// A Pauli-Z gate.
#[derive(Clone, Copy, Debug, PartialEq, Eq)]
pub struct ZGate {
    pub qbs: [usize; 1],
}

impl ZGate {
    /// Builds a gate on the given qubits.
    pub fn new(qbs: [usize; 1]) -> (g: Self)
        ensures
            g.qbs == qbs,
    {
        ZGate { qbs }
    }

    /// The canonical string form.
    pub open spec fn repr(self) -> Seq<char> {
        canonical_form(seq!['Z'], false, self.qbs@)
    }

    /// Renders the canonical string form.
    pub fn to_string(&self) -> (r: String)
        ensures
            r@ == self.repr(),
    {
        proof {
            reveal_strlit("Z");
        }
        render("Z", false, self.qbs.as_slice())
    }
}

/// A Pauli-X gate.
#[derive(Clone, Copy, Debug, PartialEq, Eq)]
pub struct XGate {
    pub qbs: [usize; 1],
}

impl XGate {
    /// Builds a gate on the given qubits.
    pub fn new(qbs: [usize; 1]) -> (g: Self)
        ensures
            g.qbs == qbs,
    {
        XGate { qbs }
    }

    /// The canonical string form.
    pub open spec fn repr(self) -> Seq<char> {
        canonical_form(seq!['X'], false, self.qbs@)
    }

    /// Renders the canonical string form.
    pub fn to_string(&self) -> (r: String)
        ensures
            r@ == self.repr(),
    {
        proof {
            reveal_strlit("X");
        }
        render("X", false, self.qbs.as_slice())
    }
}

/// A T gate, or its conjugate where the flag is set.
#[derive(Clone, Copy, Debug, PartialEq, Eq)]
pub struct TGate {
    pub qbs: [usize; 1],
    pub flag: bool,
}

impl TGate {
    /// Builds a gate on the given qubits, conjugated where the flag is set.
    pub fn new(qbs: [usize; 1], flag: bool) -> (g: Self)
        ensures
            g.qbs == qbs,
            g.flag == flag,
    {
        TGate { qbs, flag }
    }

    /// The canonical string form.
    pub open spec fn repr(self) -> Seq<char> {
        canonical_form(seq!['T'], self.flag, self.qbs@)
    }

    /// Renders the canonical string form.
    pub fn to_string(&self) -> (r: String)
        ensures
            r@ == self.repr(),
    {
        proof {
            reveal_strlit("T");
        }
        render("T", self.flag, self.qbs.as_slice())
    }
}

/// A conjugate-T gate.
#[derive(Clone, Copy, Debug, PartialEq, Eq)]
pub struct TDagGate {
    pub qbs: [usize; 1],
}

impl TDagGate {
    /// Builds a gate on the given qubits.
    pub fn new(qbs: [usize; 1]) -> (g: Self)
        ensures
            g.qbs == qbs,
    {
        TDagGate { qbs }
    }

    /// The canonical string form.
    pub open spec fn repr(self) -> Seq<char> {
        canonical_form(seq!['T', 'D', 'a', 'g'], false, self.qbs@)
    }

    /// Renders the canonical string form.
    pub fn to_string(&self) -> (r: String)
        ensures
            r@ == self.repr(),
    {
        proof {
            reveal_strlit("TDag");
        }
        render("TDag", false, self.qbs.as_slice())
    }
}

/// A controlled-X gate: the control qubit first, the target second.
#[derive(Clone, Copy, Debug, PartialEq, Eq)]
pub struct CXGate {
    pub qbs: [usize; 2],
}

impl CXGate {
    /// Builds a gate on the given qubits.
    pub fn new(qbs: [usize; 2]) -> (g: Self)
        ensures
            g.qbs == qbs,
    {
        CXGate { qbs }
    }

    /// The canonical string form.
    pub open spec fn repr(self) -> Seq<char> {
        canonical_form(seq!['C', 'X'], false, self.qbs@)
    }

    /// Renders the canonical string form.
    pub fn to_string(&self) -> (r: String)
        ensures
            r@ == self.repr(),
    {
        proof {
            reveal_strlit("CX");
        }
        render("CX", false, self.qbs.as_slice())
    }
}

/// A gate that exchanges two qubits.
#[derive(Clone, Copy, Debug, PartialEq, Eq)]
pub struct SWAPGate {
    pub qbs: [usize; 2],
}

impl SWAPGate {
    /// Builds a gate on the given qubits.
    pub fn new(qbs: [usize; 2]) -> (g: Self)
        ensures
            g.qbs == qbs,
    {
        SWAPGate { qbs }
    }

    /// The canonical string form.
    pub open spec fn repr(self) -> Seq<char> {
        canonical_form(seq!['S', 'W', 'A', 'P'], false, self.qbs@)
    }

    /// Renders the canonical string form.
    pub fn to_string(&self) -> (r: String)
        ensures
            r@ == self.repr(),
    {
        proof {
            reveal_strlit("SWAP");
        }
        render("SWAP", false, self.qbs.as_slice())
    }
}

/// A gate of any of the supported operations.
#[derive(Clone, Copy, Debug, PartialEq, Eq)]
pub enum Gate {
    H(HGate),
    Z(ZGate),
    X(XGate),
    T(TGate),
    TDag(TDagGate),
    CX(CXGate),
    SWAP(SWAPGate),
}

impl Gate {
    /// The operation's name.
    pub open spec fn spec_name(self) -> Seq<char> {
        match self {
            Gate::H(_) => seq!['H'],
            Gate::Z(_) => seq!['Z'],
            Gate::X(_) => seq!['X'],
            Gate::T(_) => seq!['T'],
            Gate::TDag(_) => seq!['T', 'D', 'a', 'g'],
            Gate::CX(_) => seq!['C', 'X'],
            Gate::SWAP(_) => seq!['S', 'W', 'A', 'P'],
        }
    }

    /// The number of qubits that the operation acts on.
    pub open spec fn spec_arity(self) -> nat {
        match self {
            Gate::CX(_) | Gate::SWAP(_) => 2,
            _ => 1,
        }
    }

    /// The qubit indices, in the order of their array.
    pub open spec fn spec_qbs(self) -> Seq<usize> {
        match self {
            Gate::H(g) => g.qbs@,
            Gate::Z(g) => g.qbs@,
            Gate::X(g) => g.qbs@,
            Gate::T(g) => g.qbs@,
            Gate::TDag(g) => g.qbs@,
            Gate::CX(g) => g.qbs@,
            Gate::SWAP(g) => g.qbs@,
        }
    }

    /// The flag of an operation that has one.
    pub open spec fn spec_flag(self) -> Option<bool> {
        match self {
            Gate::T(g) => Some(g.flag),
            _ => None,
        }
    }

    /// The canonical string form.
    pub open spec fn repr(self) -> Seq<char> {
        canonical_form(
            self.spec_name(),
            self.spec_flag() == Some(true),
            self.spec_qbs(),
        )
    }

    /// The operation's name.
    pub fn name(&self) -> (r: &'static str)
        ensures
            r@ == self.spec_name(),
    {
        proof {
            reveal_strlit("H");
            reveal_strlit("Z");
            reveal_strlit("X");
            reveal_strlit("T");
            reveal_strlit("TDag");
            reveal_strlit("CX");
            reveal_strlit("SWAP");
        }
        match self {
            Gate::H(_) => "H",
            Gate::Z(_) => "Z",
            Gate::X(_) => "X",
            Gate::T(_) => "T",
            Gate::TDag(_) => "TDag",
            Gate::CX(_) => "CX",
            Gate::SWAP(_) => "SWAP",
        }
    }

    /// The number of qubits that the operation acts on.
    pub fn arity(&self) -> (r: usize)
        ensures
            r == self.spec_arity(),
            r == self.spec_qbs().len(),
    {
        match self {
            Gate::CX(_) | Gate::SWAP(_) => 2,
            _ => 1,
        }
    }

    /// The qubit indices, in the order of their array.
    pub fn qbs(&self) -> (r: &[usize])
        ensures
            r@ == self.spec_qbs(),
    {
        match self {
            Gate::H(g) => g.qbs.as_slice(),
            Gate::Z(g) => g.qbs.as_slice(),
            Gate::X(g) => g.qbs.as_slice(),
            Gate::T(g) => g.qbs.as_slice(),
            Gate::TDag(g) => g.qbs.as_slice(),
            Gate::CX(g) => g.qbs.as_slice(),
            Gate::SWAP(g) => g.qbs.as_slice(),
        }
    }

    /// The flag of an operation that has one.
    pub fn flag(&self) -> (r: Option<bool>)
        ensures
            r == self.spec_flag(),
    {
        match self {
            Gate::T(g) => Some(g.flag),
            _ => None,
        }
    }

    /// Renders the canonical string form.
    pub fn to_string(&self) -> (r: String)
        ensures
            r@ == self.repr(),
    {
        let flag = match self.flag() {
            Some(f) => f,
            None => false,
        };
        render(self.name(), flag, self.qbs())
    }
}

/// A gate renders as the type of its operation does.
pub proof fn lemma_gate_repr_agrees(g: Gate)
    ensures
        g.repr() == match g {
            Gate::H(h) => h.repr(),
            Gate::Z(z) => z.repr(),
            Gate::X(x) => x.repr(),
            Gate::T(t) => t.repr(),
            Gate::TDag(t) => t.repr(),
            Gate::CX(c) => c.repr(),
            Gate::SWAP(s) => s.repr(),
        },
{
}

/// On a single qubit the canonical form is the name, the flag marker and the
/// index in brackets.
pub proof fn lemma_single_qubit_form(name: Seq<char>, flag: bool, q: usize)
    ensures
        canonical_form(name, flag, seq![q]) == name + flag_marker(flag) + seq!['['] + decimal(
            q as nat,
        ) + seq![']'],
{
}

/// Every single-qubit gate built on qubit `q` renders as its name, `+`
/// where it has a flag and the flag is set, and `q` in brackets.
pub proof fn lemma_single_qubit_gates_render(q: usize, flag: bool)
    ensures
        (HGate { qbs: [q] }).repr() == seq!['H', '['] + decimal(q as nat) + seq![']'],
        (ZGate { qbs: [q] }).repr() == seq!['Z', '['] + decimal(q as nat) + seq![']'],
        (XGate { qbs: [q] }).repr() == seq!['X', '['] + decimal(q as nat) + seq![']'],
        (TDagGate { qbs: [q] }).repr() == seq!['T', 'D', 'a', 'g', '['] + decimal(q as nat)
            + seq![']'],
        (TGate { qbs: [q], flag }).repr() == seq!['T'] + flag_marker(flag) + seq!['['] + decimal(
            q as nat,
        ) + seq![']'],
{
}

/// On two qubits the canonical form lists both indices, separated by a comma
/// and a space.
pub proof fn lemma_two_qubit_form(name: Seq<char>, flag: bool, a: usize, b: usize)
    ensures
        canonical_form(name, flag, seq![a, b]) == name + flag_marker(flag) + seq!['['] + decimal(
            a as nat,
        ) + seq![',', ' '] + decimal(b as nat) + seq![']'],
{
    assert(seq![a, b].drop_last() =~= seq![a]);
    assert(index_list(seq![a]) == decimal(a as nat));
}

} // verus!
