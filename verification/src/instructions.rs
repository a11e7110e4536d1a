//! The opcode table: one byte selects one operation.

use vstd::prelude::*;

verus! {

/// The operations of the machine. `IGL` stands for every byte that selects no
/// operation; nothing encodes to it.
#[derive(Clone, Copy, Debug, PartialEq, Eq, Structural)]
pub enum Opcode {
    LOAD,
    HLT,
    ADD,
    SUB,
    MUL,
    DIV,
    JMP,
    JMPF,
    JMPB,
    EQ,
    JEQ,
    JNEQ,
    ALOC,
    INC,
    DEC,
    IGL,
}

/// The operation that a byte selects.
pub open spec fn decode(byte: u8) -> Opcode {
    if byte == 0 {
        Opcode::LOAD
    } else if byte == 1 {
        Opcode::HLT
    } else if byte == 2 {
        Opcode::ADD
    } else if byte == 3 {
        Opcode::SUB
    } else if byte == 4 {
        Opcode::MUL
    } else if byte == 5 {
        Opcode::DIV
    } else if byte == 6 {
        Opcode::JMP
    } else if byte == 7 {
        Opcode::JMPF
    } else if byte == 8 {
        Opcode::JMPB
    } else if byte == 9 {
        Opcode::EQ
    } else if byte == 10 {
        Opcode::JEQ
    } else if byte == 11 {
        Opcode::JNEQ
    } else if byte == 12 {
        Opcode::ALOC
    } else if byte == 13 {
        Opcode::INC
    } else if byte == 14 {
        Opcode::DEC
    } else {
        Opcode::IGL
    }
}

/// The byte that selects an operation; `IGL` has none.
pub open spec fn encode(op: Opcode) -> Option<u8> {
    match op {
        Opcode::LOAD => Some(0u8),
        Opcode::HLT => Some(1u8),
        Opcode::ADD => Some(2u8),
        Opcode::SUB => Some(3u8),
        Opcode::MUL => Some(4u8),
        Opcode::DIV => Some(5u8),
        Opcode::JMP => Some(6u8),
        Opcode::JMPF => Some(7u8),
        Opcode::JMPB => Some(8u8),
        Opcode::EQ => Some(9u8),
        Opcode::JEQ => Some(10u8),
        Opcode::JNEQ => Some(11u8),
        Opcode::ALOC => Some(12u8),
        Opcode::INC => Some(13u8),
        Opcode::DEC => Some(14u8),
        Opcode::IGL => None,
    }
}

/// The number of operand bytes that follow an opcode byte.
pub open spec fn operand_width(op: Opcode) -> nat {
    match op {
        Opcode::HLT | Opcode::IGL => 0,
        Opcode::LOAD | Opcode::ADD | Opcode::SUB | Opcode::MUL | Opcode::DIV | Opcode::EQ => 3,
        Opcode::JMP
        | Opcode::JMPF
        | Opcode::JMPB
        | Opcode::JEQ
        | Opcode::JNEQ
        | Opcode::ALOC
        | Opcode::INC
        | Opcode::DEC => 1,
    }
}

/// The name of an operation in assembly text, as ASCII bytes. `IGL` has no
/// name, which the empty sequence stands for.
pub open spec fn mnemonic(op: Opcode) -> Seq<u8> {
    match op {
        Opcode::LOAD => seq![108u8, 111u8, 97u8, 100u8],
        Opcode::HLT => seq![104u8, 108u8, 116u8],
        Opcode::ADD => seq![97u8, 100u8, 100u8],
        Opcode::SUB => seq![115u8, 117u8, 98u8],
        Opcode::MUL => seq![109u8, 117u8, 108u8],
        Opcode::DIV => seq![100u8, 105u8, 118u8],
        Opcode::JMP => seq![106u8, 109u8, 112u8],
        Opcode::JMPF => seq![106u8, 109u8, 112u8, 102u8],
        Opcode::JMPB => seq![106u8, 109u8, 112u8, 98u8],
        Opcode::EQ => seq![101u8, 113u8],
        Opcode::JEQ => seq![106u8, 101u8, 113u8],
        Opcode::JNEQ => seq![106u8, 110u8, 101u8, 113u8],
        Opcode::ALOC => seq![97u8, 108u8, 111u8, 99u8],
        Opcode::INC => seq![105u8, 110u8, 99u8],
        Opcode::DEC => seq![100u8, 101u8, 99u8],
        Opcode::IGL => Seq::<u8>::empty(),
    }
}

/// The operation that a name selects, if any.
pub open spec fn lookup(name: Seq<u8>) -> Option<Opcode> {
    if name == mnemonic(Opcode::LOAD) {
        Some(Opcode::LOAD)
    } else if name == mnemonic(Opcode::HLT) {
        Some(Opcode::HLT)
    } else if name == mnemonic(Opcode::ADD) {
        Some(Opcode::ADD)
    } else if name == mnemonic(Opcode::SUB) {
        Some(Opcode::SUB)
    } else if name == mnemonic(Opcode::MUL) {
        Some(Opcode::MUL)
    } else if name == mnemonic(Opcode::DIV) {
        Some(Opcode::DIV)
    } else if name == mnemonic(Opcode::JMP) {
        Some(Opcode::JMP)
    } else if name == mnemonic(Opcode::JMPF) {
        Some(Opcode::JMPF)
    } else if name == mnemonic(Opcode::JMPB) {
        Some(Opcode::JMPB)
    } else if name == mnemonic(Opcode::EQ) {
        Some(Opcode::EQ)
    } else if name == mnemonic(Opcode::JEQ) {
        Some(Opcode::JEQ)
    } else if name == mnemonic(Opcode::JNEQ) {
        Some(Opcode::JNEQ)
    } else if name == mnemonic(Opcode::ALOC) {
        Some(Opcode::ALOC)
    } else if name == mnemonic(Opcode::INC) {
        Some(Opcode::INC)
    } else if name == mnemonic(Opcode::DEC) {
        Some(Opcode::DEC)
    } else {
        None
    }
}

/// Whether two byte strings hold the same bytes.
fn same_bytes(a: &[u8], b: &[u8]) -> (same: bool)
    ensures
        same == (a@ == b@),
{
    if a.len() != b.len() {
        return false;
    }
    let mut i: usize = 0;
    while i < a.len()
        invariant
            a@.len() == b@.len(),
            i <= a@.len(),
            forall|k: int| 0 <= k < i ==> a@[k] == b@[k],
        decreases a@.len() - i,
    {
        if a[i] != b[i] {
            return false;
        }
        i += 1;
    }
    assert(a@ =~= b@);
    true
}

impl Opcode {
    /// The byte that selects this operation, or `None` for `IGL`.
    pub fn to_byte(self) -> (byte: Option<u8>)
        ensures
            byte == encode(self),
    {
        match self {
            Opcode::LOAD => Some(0),
            Opcode::HLT => Some(1),
            Opcode::ADD => Some(2),
            Opcode::SUB => Some(3),
            Opcode::MUL => Some(4),
            Opcode::DIV => Some(5),
            Opcode::JMP => Some(6),
            Opcode::JMPF => Some(7),
            Opcode::JMPB => Some(8),
            Opcode::EQ => Some(9),
            Opcode::JEQ => Some(10),
            Opcode::JNEQ => Some(11),
            Opcode::ALOC => Some(12),
            Opcode::INC => Some(13),
            Opcode::DEC => Some(14),
            Opcode::IGL => None,
        }
    }

    /// The operation that `name` is the assembly name of, or `None` where it
    /// names none.
    pub fn from_mnemonic(name: &[u8]) -> (op: Option<Opcode>)
        ensures
            op == lookup(name@),
    {
        if same_bytes(name, &[108, 111, 97, 100]) {
            Some(Opcode::LOAD)
        } else if same_bytes(name, &[104, 108, 116]) {
            Some(Opcode::HLT)
        } else if same_bytes(name, &[97, 100, 100]) {
            Some(Opcode::ADD)
        } else if same_bytes(name, &[115, 117, 98]) {
            Some(Opcode::SUB)
        } else if same_bytes(name, &[109, 117, 108]) {
            Some(Opcode::MUL)
        } else if same_bytes(name, &[100, 105, 118]) {
            Some(Opcode::DIV)
        } else if same_bytes(name, &[106, 109, 112]) {
            Some(Opcode::JMP)
        } else if same_bytes(name, &[106, 109, 112, 102]) {
            Some(Opcode::JMPF)
        } else if same_bytes(name, &[106, 109, 112, 98]) {
            Some(Opcode::JMPB)
        } else if same_bytes(name, &[101, 113]) {
            Some(Opcode::EQ)
        } else if same_bytes(name, &[106, 101, 113]) {
            Some(Opcode::JEQ)
        } else if same_bytes(name, &[106, 110, 101, 113]) {
            Some(Opcode::JNEQ)
        } else if same_bytes(name, &[97, 108, 111, 99]) {
            Some(Opcode::ALOC)
        } else if same_bytes(name, &[105, 110, 99]) {
            Some(Opcode::INC)
        } else if same_bytes(name, &[100, 101, 99]) {
            Some(Opcode::DEC)
        } else {
            None
        }
    }

    /// The number of operand bytes that follow this operation's byte.
    pub fn width(self) -> (w: usize)
        ensures
            w == operand_width(self),
    {
        match self {
            Opcode::HLT | Opcode::IGL => 0,
            Opcode::LOAD | Opcode::ADD | Opcode::SUB | Opcode::MUL | Opcode::DIV | Opcode::EQ => 3,
            _ => 1,
        }
    }
}

impl From<u8> for Opcode {
    fn from(byte: u8) -> (op: Opcode) {
        match byte {
            0 => Opcode::LOAD,
            1 => Opcode::HLT,
            2 => Opcode::ADD,
            3 => Opcode::SUB,
            4 => Opcode::MUL,
            5 => Opcode::DIV,
            6 => Opcode::JMP,
            7 => Opcode::JMPF,
            8 => Opcode::JMPB,
            9 => Opcode::EQ,
            10 => Opcode::JEQ,
            11 => Opcode::JNEQ,
            12 => Opcode::ALOC,
            13 => Opcode::INC,
            14 => Opcode::DEC,
            _ => Opcode::IGL,
        }
    }
}

impl vstd::std_specs::convert::FromSpecImpl<u8> for Opcode {
    open spec fn obeys_from_spec() -> bool {
        true
    }

    open spec fn from_spec(byte: u8) -> Opcode {
        decode(byte)
    }
}

/// Decoding undoes encoding: every operation that has a byte is the one that
/// its byte selects.
pub proof fn lemma_decode_encode(op: Opcode)
    requires
        op != Opcode::IGL,
    ensures
        encode(op) is Some,
        decode(encode(op).unwrap()) == op,
{
}

/// No two operations share a name.
pub proof fn lemma_names_differ(a: Opcode, b: Opcode)
    requires
        a != b,
    ensures
        mnemonic(a) != mnemonic(b),
{
    let x = mnemonic(a);
    let y = mnemonic(b);
    if x.len() == y.len() && x.len() > 0 {
        assert(x[0] != y[0] || x[1] != y[1] || (x.len() > 2 && x[2] != y[2]) || (x.len() > 3
            && x[3] != y[3]));
    }
}

/// A name selects an operation exactly when it is that operation's own name:
/// each operation but `IGL` is found under its name, and under no other.
pub proof fn lemma_lookup_mnemonic(name: Seq<u8>, op: Opcode)
    ensures
        lookup(name) == Some(op) <==> op != Opcode::IGL && name == mnemonic(op),
{
    assert forall|other: Opcode| other != op implies #[trigger] mnemonic(other) != mnemonic(
        op,
    ) by {
        lemma_names_differ(other, op);
    }
}

/// A name that selects an operation has two to four letters.
pub proof fn lemma_lookup_length(name: Seq<u8>)
    requires
        lookup(name) is Some,
    ensures
        2 <= name.len() <= 4,
{
}

/// Decoding is total, and a byte selects an operation other than `IGL`
/// exactly when it is that operation's own byte: bytes from 15 up select
/// `IGL`.
pub proof fn lemma_decode_total(byte: u8)
    ensures
        decode(byte) == Opcode::IGL <==> byte >= 15,
        decode(byte) != Opcode::IGL ==> encode(decode(byte)) == Some(byte),
{
}

} // verus!
