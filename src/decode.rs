use vstd::prelude::*;

verus! {

/// The operator number, held in bits [31:28] of a platter.
pub open spec fn opcode_of(platter: u32) -> u32 {
    platter >> 28
}

/// Register selector `a`, bits [8:6].
pub open spec fn reg_a_of(platter: u32) -> u32 {
    (platter >> 6) & 7
}

/// Register selector `b`, bits [5:3].
pub open spec fn reg_b_of(platter: u32) -> u32 {
    (platter >> 3) & 7
}

/// Register selector `c`, bits [2:0].
pub open spec fn reg_c_of(platter: u32) -> u32 {
    platter & 7
}

/// Register selector of the immediate-load operator, bits [27:25].
pub open spec fn orth_reg_of(platter: u32) -> u32 {
    (platter >> 25) & 7
}

/// Immediate value of the immediate-load operator, bits [24:0].
pub open spec fn orth_value_of(platter: u32) -> u32 {
    platter & 0x01FF_FFFF
}

/// The fields of a platter in the three-register layout.
#[derive(Clone, Copy, Debug, PartialEq, Eq, Structural)]
pub struct Instruction {
    pub opcode: u32,
    pub a: usize,
    pub b: usize,
    pub c: usize,
}

/// Splits a platter into its operator number and three register selectors.
/// Every platter decodes; whether the operator exists is judged later.
pub fn decode(platter: u32) -> (r: Instruction)
    ensures
        r.opcode == opcode_of(platter),
        r.a == reg_a_of(platter),
        r.b == reg_b_of(platter),
        r.c == reg_c_of(platter),
        r.opcode < 16,
        r.a < 8,
        r.b < 8,
        r.c < 8,
{
    let opcode = (platter & 0xF000_0000) >> 28;
    let a = (platter & 0b111_000_000) >> 6;
    let b = (platter & 0b000_111_000) >> 3;
    let c = platter & 0b000_000_111;
    assert(opcode == platter >> 28 && opcode < 16) by (bit_vector)
        requires
            opcode == (platter & 0xF000_0000) >> 28,
    ;
    assert(a == (platter >> 6) & 7 && a < 8) by (bit_vector)
        requires
            a == (platter & 0b111_000_000) >> 6,
    ;
    assert(b == (platter >> 3) & 7 && b < 8) by (bit_vector)
        requires
            b == (platter & 0b000_111_000) >> 3,
    ;
    assert(c == platter & 7 && c < 8) by (bit_vector)
        requires
            c == platter & 0b000_000_111,
    ;
    Instruction { opcode, a: a as usize, b: b as usize, c: c as usize }
}

/// Splits an immediate-load platter into its register selector and its 25-bit value.
pub fn decode_orthography(platter: u32) -> (r: (usize, u32))
    ensures
        r.0 == orth_reg_of(platter),
        r.1 == orth_value_of(platter),
        r.0 < 8,
        r.1 < 0x0200_0000,
{
    let reg = (platter & 0x0E00_0000) >> 25;
    let value = platter & 0x01FF_FFFF;
    assert(reg == (platter >> 25) & 7 && reg < 8) by (bit_vector)
        requires
            reg == (platter & 0x0E00_0000) >> 25,
    ;
    assert(value < 0x0200_0000) by (bit_vector)
        requires
            value == platter & 0x01FF_FFFF,
    ;
    (reg as usize, value)
}

/// The mnemonic of each assigned operator number.
pub open spec fn mnemonic(opcode: u32) -> Seq<char> {
    if opcode == 0 {
        "CMOV"@
    } else if opcode == 1 {
        "IDX"@
    } else if opcode == 2 {
        "AMD"@
    } else if opcode == 3 {
        "ADD"@
    } else if opcode == 4 {
        "MUL"@
    } else if opcode == 5 {
        "DIV"@
    } else if opcode == 6 {
        "NAND"@
    } else if opcode == 7 {
        "HALT"@
    } else if opcode == 8 {
        "ALLOC"@
    } else if opcode == 9 {
        "ABND"@
    } else if opcode == 10 {
        "OUTP"@
    } else if opcode == 11 {
        "INP"@
    } else if opcode == 12 {
        "LD"@
    } else if opcode == 13 {
        "ORTH"@
    } else {
        Seq::empty()
    }
}

/// The mnemonic of an operator number, or `None` for the two unassigned numbers
/// and anything above them.
pub fn opcode_name(opcode: u32) -> (r: Option<&'static str>)
    ensures
        r.is_some() <==> opcode < 14,
        r matches Some(name) ==> name@ == mnemonic(opcode),
{
    proof {
        reveal_strlit("CMOV");
        reveal_strlit("IDX");
        reveal_strlit("AMD");
        reveal_strlit("ADD");
        reveal_strlit("MUL");
        reveal_strlit("DIV");
        reveal_strlit("NAND");
        reveal_strlit("HALT");
        reveal_strlit("ALLOC");
        reveal_strlit("ABND");
        reveal_strlit("OUTP");
        reveal_strlit("INP");
        reveal_strlit("LD");
        reveal_strlit("ORTH");
    }
    match opcode {
        0 => Some("CMOV"),
        1 => Some("IDX"),
        2 => Some("AMD"),
        3 => Some("ADD"),
        4 => Some("MUL"),
        5 => Some("DIV"),
        6 => Some("NAND"),
        7 => Some("HALT"),
        8 => Some("ALLOC"),
        9 => Some("ABND"),
        10 => Some("OUTP"),
        11 => Some("INP"),
        12 => Some("LD"),
        13 => Some("ORTH"),
        _ => None,
    }
}

} // verus!
