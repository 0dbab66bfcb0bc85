use vstd::prelude::*;
use crate::decode::{opcode_of, orth_reg_of, orth_value_of, reg_a_of, reg_b_of, reg_c_of};
use crate::machine::{
    abandon_spec, alloc_spec, amend_spec, index_spec, load_spec, output_spec, step, zeros,
    UmError, UmState,
};

verus! {

/// An immediate load writes its one register with its 25-bit value, leaves the
/// other seven registers and the arrays alone, and moves the finger one past it.
pub proof fn lemma_orthography_frame(s: UmState)
    requires
        s.wf(),
        s.can_fetch(),
        opcode_of(s.fetched()) == 13,
    ensures
        ({
            let p = s.fetched();
            let (r, t) = step(s);
            &&& r == Ok::<bool, UmError>(true)
            &&& t.finger == s.finger + 1
            &&& t.regs[orth_reg_of(p) as int] == orth_value_of(p)
            &&& forall|i: int|
                0 <= i < 8 && i != orth_reg_of(p) ==> #[trigger] t.regs[i] == s.regs[i]
            &&& t.program == s.program
            &&& t.heap == s.heap
        }),
{
    let p = s.fetched();
    assert(orth_reg_of(p) < 8) by (bit_vector);
}

/// Addition and multiplication never fail and give their result modulo 2^32.
pub proof fn lemma_add_mul_wrap(s: UmState)
    requires
        s.wf(),
        s.can_fetch(),
        opcode_of(s.fetched()) == 3 || opcode_of(s.fetched()) == 4,
    ensures
        ({
            let p = s.fetched();
            let x = s.regs[reg_b_of(p) as int] as int;
            let y = s.regs[reg_c_of(p) as int] as int;
            let (r, t) = step(s);
            &&& r == Ok::<bool, UmError>(true)
            &&& opcode_of(p) == 3 ==> t.regs[reg_a_of(p) as int] as int == (x + y) % 0x1_0000_0000
            &&& opcode_of(p) == 4 ==> t.regs[reg_a_of(p) as int] as int == (x * y) % 0x1_0000_0000
        }),
{
    let p = s.fetched();
    assert(reg_a_of(p) < 8) by (bit_vector);
}

/// Division by a nonzero register is unsigned integer division; a zero divisor
/// fails with `DivideByZero` whatever the dividend.
pub proof fn lemma_division(s: UmState)
    requires
        s.wf(),
        s.can_fetch(),
        opcode_of(s.fetched()) == 5,
    ensures
        ({
            let p = s.fetched();
            let x = s.regs[reg_b_of(p) as int];
            let y = s.regs[reg_c_of(p) as int];
            let (r, t) = step(s);
            &&& y == 0 ==> r == Err::<bool, UmError>(UmError::DivideByZero)
            &&& y != 0 ==> r == Ok::<bool, UmError>(true) && t.regs[reg_a_of(p) as int] == x / y
        }),
{
    let p = s.fetched();
    assert(reg_a_of(p) < 8) by (bit_vector);
}

/// Not-and sets each of the 32 bits of its target exactly when the two operand
/// bits are not both set.
pub proof fn lemma_not_and_bits(s: UmState)
    requires
        s.wf(),
        s.can_fetch(),
        opcode_of(s.fetched()) == 6,
    ensures
        ({
            let p = s.fetched();
            let x = s.regs[reg_b_of(p) as int];
            let y = s.regs[reg_c_of(p) as int];
            let (r, t) = step(s);
            let z = t.regs[reg_a_of(p) as int];
            &&& r == Ok::<bool, UmError>(true)
            &&& z == !(x & y)
            &&& forall|k: u32|
                k < 32 ==> (#[trigger] ((z >> k) & 1) == 1 <==> !(((x >> k) & 1) == 1 && ((y
                    >> k) & 1) == 1))
        }),
{
    let p = s.fetched();
    assert(reg_a_of(p) < 8) by (bit_vector);
    let x = s.regs[reg_b_of(p) as int];
    let y = s.regs[reg_c_of(p) as int];
    let z = !(x & y);
    assert(forall|k: u32|
        k < 32 ==> (#[trigger] ((z >> k) & 1) == 1 <==> !(((x >> k) & 1) == 1 && ((y >> k) & 1)
            == 1))) by (bit_vector)
        requires
            z == !(x & y),
    ;
}

/// Allocation of `n` words gives an array of `n` zeros under an identifier that
/// is nonzero, not active, and above every identifier issued before; the
/// counter moves past it, so it is never issued again.
pub proof fn lemma_allocation_fresh(s: UmState)
    requires
        s.wf(),
        s.can_fetch(),
        opcode_of(s.fetched()) == 8,
        !s.ids_exhausted(),
    ensures
        ({
            let p = s.fetched();
            let n = s.regs[reg_c_of(p) as int] as nat;
            let (r, t) = step(s);
            let id = t.regs[reg_b_of(p) as int];
            &&& r == Ok::<bool, UmError>(true)
            &&& id != 0
            &&& !s.heap.contains_key(id)
            &&& forall|k: u32| #[trigger] s.heap.contains_key(k) ==> k < id
            &&& t.heap.contains_key(id)
            &&& t.heap[id] == zeros(n)
            &&& t.next_id > id
        }),
{
    let p = s.fetched();
    assert(reg_b_of(p) < 8 && reg_c_of(p) < 8) by (bit_vector);
}

/// No step lowers the identifier counter.
pub proof fn lemma_next_id_monotone(s: UmState)
    requires
        s.wf(),
    ensures
        step(s).1.next_id >= s.next_id,
{
}

/// Every element of a just-allocated array can be read, and reads zero.
pub proof fn lemma_allocated_reads_zero(s: UmState, b: int, c: int, a2: int, c2: int)
    requires
        s.wf(),
        !s.ids_exhausted(),
        0 <= b < 8,
        0 <= c < 8,
        0 <= a2 < 8,
        0 <= c2 < 8,
        c2 != b,
        alloc_spec(s, b, c).1.regs[c2] < s.regs[c],
    ensures
        ({
            let t = alloc_spec(s, b, c).1;
            index_spec(t, a2, b, c2) == (Ok::<bool, UmError>(true), t.set_reg(a2, 0))
        }),
{
}

/// A just-allocated array can be abandoned once; a second abandonment of the
/// same identifier fails.
pub proof fn lemma_abandon_once(s: UmState, b: int, c: int)
    requires
        s.wf(),
        !s.ids_exhausted(),
        0 <= b < 8,
        0 <= c < 8,
    ensures
        ({
            let t = alloc_spec(s, b, c).1;
            let (r1, u) = abandon_spec(t, b);
            &&& r1 == Ok::<bool, UmError>(true)
            &&& abandon_spec(u, b) == (Err::<bool, UmError>(UmError::InvalidArrayAbandonment), u)
        }),
{
}

/// Abandoning identifier 0 always fails and changes nothing.
pub proof fn lemma_abandon_zero(s: UmState, c: int)
    requires
        0 <= c < s.regs.len(),
        s.regs[c] == 0,
    ensures
        abandon_spec(s, c) == (Err::<bool, UmError>(UmError::InvalidArrayAbandonment), s),
{
}

/// Indexing with identifier 0 reads the program array, whatever arrays the heap
/// holds; amending with identifier 0 writes the program array and leaves the
/// heap alone.
pub proof fn lemma_array_zero_is_program(
    s: UmState,
    a: int,
    b: int,
    c: int,
    h: Map<u32, Seq<u32>>,
)
    requires
        s.regs.len() == 8,
        0 <= a < 8,
        0 <= b < 8,
        0 <= c < 8,
    ensures
        s.regs[b] == 0 ==> {
            let other = UmState { heap: h, ..s };
            let i = s.regs[c] as int;
            &&& index_spec(s, a, b, c).0 == index_spec(other, a, b, c).0
            &&& index_spec(s, a, b, c).1.regs == index_spec(other, a, b, c).1.regs
            &&& i < s.program.len() ==> index_spec(s, a, b, c) == (Ok::<bool, UmError>(true), s.set_reg(a, s.program[i]))
            &&& i >= s.program.len() ==> index_spec(s, a, b, c).0 == Err::<bool, UmError>(UmError::InvalidArrayAccess)
        },
        s.regs[a] == 0 ==> {
            let i = s.regs[b] as int;
            &&& amend_spec(s, a, b, c).1.heap == s.heap
            &&& i < s.program.len() ==> amend_spec(s, a, b, c).1.program == s.program.update(i, s.regs[c])
            &&& i >= s.program.len() ==> amend_spec(s, a, b, c).0 == Err::<bool, UmError>(UmError::InvalidArrayAccess)
        },
{
}

/// Loading from an active array makes the program array a copy of it and sets
/// the finger; the array stays active, and amending it afterwards leaves the
/// new program array as it was.
pub proof fn lemma_load_copies(s: UmState, b: int, c: int, a2: int, b2: int, c2: int)
    requires
        s.wf(),
        0 <= b < 8,
        0 <= c < 8,
        0 <= a2 < 8,
        0 <= b2 < 8,
        0 <= c2 < 8,
        s.regs[b] != 0,
        s.heap.contains_key(s.regs[b]),
        s.regs[a2] == s.regs[b],
    ensures
        ({
            let id = s.regs[b];
            let (r, t) = load_spec(s, b, c);
            &&& r == Ok::<bool, UmError>(true)
            &&& t.program == s.heap[id]
            &&& t.finger == s.regs[c] as nat
            &&& t.heap == s.heap
            &&& amend_spec(t, a2, b2, c2).1.program == t.program
        }),
{
}

/// Output fails exactly when the value exceeds 255; otherwise it appends that
/// one byte to what was emitted.
pub proof fn lemma_output(s: UmState, c: int)
    requires
        0 <= c < s.regs.len(),
    ensures
        output_spec(s, c).0 == Err::<bool, UmError>(UmError::InvalidOutput) <==> s.regs[c] > 255,
        s.regs[c] <= 255 ==> output_spec(s, c).0 == Ok::<bool, UmError>(true)
            && output_spec(s, c).1.output == s.output.push(s.regs[c] as u8),
{
}

} // verus!
