use vstd::prelude::*;
use std::collections::HashMap;
use crate::decode::{
    decode, decode_orthography, opcode_of, orth_reg_of, orth_value_of, reg_a_of, reg_b_of,
    reg_c_of,
};

verus! {

broadcast use vstd::std_specs::hash::group_hash_axioms;

/// The ways in which one instruction can fail. Every failure ends the run.
#[derive(Clone, Copy, Debug, PartialEq, Eq, Structural)]
pub enum UmError {
    InvalidInstruction,
    InvalidArrayAccess,
    InvalidArrayAbandonment,
    DivideByZero,
    InvalidLoad,
    InvalidOutput,
    ExecutionFingerOutOfBounds,
}

pub type UmResult<T> = Result<T, UmError>;

/// The name of a failure.
pub open spec fn error_name(e: UmError) -> Seq<char> {
    match e {
        UmError::InvalidInstruction => "InvalidInstruction"@,
        UmError::InvalidArrayAccess => "InvalidArrayAccess"@,
        UmError::InvalidArrayAbandonment => "InvalidArrayAbandonment"@,
        UmError::DivideByZero => "DivideByZero"@,
        UmError::InvalidLoad => "InvalidLoad"@,
        UmError::InvalidOutput => "InvalidOutput"@,
        UmError::ExecutionFingerOutOfBounds => "ExecutionFingerOutOfBounds"@,
    }
}

/// What a failure means, in words.
pub open spec fn error_description(e: UmError) -> Seq<char> {
    match e {
        UmError::InvalidInstruction => "Execution Finger does not indicate a platter that describes a valid instruction"@,
        UmError::InvalidArrayAccess => "Indexed or amended array that is not active"@,
        UmError::InvalidArrayAbandonment => "Abandoned '0' array or an array that was not active"@,
        UmError::DivideByZero => "Divided by zero"@,
        UmError::InvalidLoad => "Loaded program from array that is not active"@,
        UmError::InvalidOutput => "Output a value greater than 255"@,
        UmError::ExecutionFingerOutOfBounds => "Execution Finger aims outside the bounds of the '0' array"@,
    }
}

impl UmError {
    /// The name of the failure.
    pub fn name(&self) -> (r: &'static str)
        ensures
            r@ == error_name(*self),
    {
        proof {
            reveal_strlit("InvalidInstruction");
            reveal_strlit("InvalidArrayAccess");
            reveal_strlit("InvalidArrayAbandonment");
            reveal_strlit("DivideByZero");
            reveal_strlit("InvalidLoad");
            reveal_strlit("InvalidOutput");
            reveal_strlit("ExecutionFingerOutOfBounds");
        }
        match self {
            UmError::InvalidInstruction => "InvalidInstruction",
            UmError::InvalidArrayAccess => "InvalidArrayAccess",
            UmError::InvalidArrayAbandonment => "InvalidArrayAbandonment",
            UmError::DivideByZero => "DivideByZero",
            UmError::InvalidLoad => "InvalidLoad",
            UmError::InvalidOutput => "InvalidOutput",
            UmError::ExecutionFingerOutOfBounds => "ExecutionFingerOutOfBounds",
        }
    }

    /// A sentence that says what went wrong.
    pub fn description(&self) -> (r: &'static str)
        ensures
            r@ == error_description(*self),
    {
        proof {
            reveal_strlit("Execution Finger does not indicate a platter that describes a valid instruction");
            reveal_strlit("Indexed or amended array that is not active");
            reveal_strlit("Abandoned '0' array or an array that was not active");
            reveal_strlit("Divided by zero");
            reveal_strlit("Loaded program from array that is not active");
            reveal_strlit("Output a value greater than 255");
            reveal_strlit("Execution Finger aims outside the bounds of the '0' array");
        }
        match self {
            UmError::InvalidInstruction => "Execution Finger does not indicate a platter that describes a valid instruction",
            UmError::InvalidArrayAccess => "Indexed or amended array that is not active",
            UmError::InvalidArrayAbandonment => "Abandoned '0' array or an array that was not active",
            UmError::DivideByZero => "Divided by zero",
            UmError::InvalidLoad => "Loaded program from array that is not active",
            UmError::InvalidOutput => "Output a value greater than 255",
            UmError::ExecutionFingerOutOfBounds => "Execution Finger aims outside the bounds of the '0' array",
        }
    }
}

/// The mathematical state of a machine.
pub struct UmState {
    /// The eight registers.
    pub regs: Seq<u32>,
    /// The program array, addressed as array 0.
    pub program: Seq<u32>,
    /// The active allocated arrays, by identifier.
    pub heap: Map<u32, Seq<u32>>,
    /// The identifier that the next allocation hands out.
    pub next_id: nat,
    /// The execution finger.
    pub finger: nat,
    /// Bytes that have been supplied and not yet consumed by an input instruction.
    pub input: Seq<u8>,
    /// Bytes emitted by output instructions and not yet taken.
    pub output: Seq<u8>,
}

/// What one instruction reports, together with the state it leaves.
pub type Outcome = (UmResult<bool>, UmState);

impl UmState {
    /// Eight registers; every active identifier is nonzero and was issued before.
    pub open spec fn wf(self) -> bool {
        &&& self.regs.len() == 8
        &&& self.next_id >= 1
        &&& forall|k: u32| #[trigger] self.heap.contains_key(k) ==> 0 < k < self.next_id
    }

    pub open spec fn set_reg(self, r: int, v: u32) -> UmState {
        UmState { regs: self.regs.update(r, v), ..self }
    }

    /// The finger points at a platter of the program array.
    pub open spec fn can_fetch(self) -> bool {
        self.finger < self.program.len()
    }

    /// The platter under the finger.
    pub open spec fn fetched(self) -> u32 {
        self.program[self.finger as int]
    }

    /// No identifier is left to hand out beside the one under way.
    pub open spec fn ids_exhausted(self) -> bool {
        self.next_id >= u32::MAX
    }

    /// The next step does not have to allocate while identifiers are exhausted.
    pub open spec fn can_step(self) -> bool {
        !(self.can_fetch() && opcode_of(self.fetched()) == 8 && self.ids_exhausted())
    }

    /// The next step is an input instruction and no supplied byte waits.
    pub open spec fn awaits_input(self) -> bool {
        self.can_fetch() && opcode_of(self.fetched()) == 11 && self.input.len() == 0
    }
}

pub open spec fn cmov_spec(s: UmState, a: int, b: int, c: int) -> Outcome {
    if s.regs[c] != 0 {
        (Ok(true), s.set_reg(a, s.regs[b]))
    } else {
        (Ok(true), s)
    }
}

pub open spec fn index_spec(s: UmState, a: int, b: int, c: int) -> Outcome {
    let id = s.regs[b];
    let i = s.regs[c] as int;
    if id == 0 {
        if i < s.program.len() {
            (Ok(true), s.set_reg(a, s.program[i]))
        } else {
            (Err(UmError::InvalidArrayAccess), s)
        }
    } else if s.heap.contains_key(id) && i < s.heap[id].len() {
        (Ok(true), s.set_reg(a, s.heap[id][i]))
    } else {
        (Err(UmError::InvalidArrayAccess), s)
    }
}

pub open spec fn amend_spec(s: UmState, a: int, b: int, c: int) -> Outcome {
    let id = s.regs[a];
    let i = s.regs[b] as int;
    let v = s.regs[c];
    if id == 0 {
        if i < s.program.len() {
            (Ok(true), UmState { program: s.program.update(i, v), ..s })
        } else {
            (Err(UmError::InvalidArrayAccess), s)
        }
    } else if s.heap.contains_key(id) && i < s.heap[id].len() {
        (Ok(true), UmState { heap: s.heap.insert(id, s.heap[id].update(i, v)), ..s })
    } else {
        (Err(UmError::InvalidArrayAccess), s)
    }
}

pub open spec fn add_spec(s: UmState, a: int, b: int, c: int) -> Outcome {
    (Ok(true), s.set_reg(a, ((s.regs[b] + s.regs[c]) % 0x1_0000_0000) as u32))
}

pub open spec fn mul_spec(s: UmState, a: int, b: int, c: int) -> Outcome {
    (Ok(true), s.set_reg(a, ((s.regs[b] * s.regs[c]) % 0x1_0000_0000) as u32))
}

pub open spec fn div_spec(s: UmState, a: int, b: int, c: int) -> Outcome {
    if s.regs[c] == 0 {
        (Err(UmError::DivideByZero), s)
    } else {
        (Ok(true), s.set_reg(a, (s.regs[b] / s.regs[c]) as u32))
    }
}

pub open spec fn nand_spec(s: UmState, a: int, b: int, c: int) -> Outcome {
    (Ok(true), s.set_reg(a, !(s.regs[b] & s.regs[c])))
}

pub open spec fn zeros(n: nat) -> Seq<u32> {
    Seq::new(n, |i: int| 0u32)
}

pub open spec fn alloc_spec(s: UmState, b: int, c: int) -> Outcome {
    let id = s.next_id as u32;
    (
        Ok(true),
        UmState {
            regs: s.regs.update(b, id),
            heap: s.heap.insert(id, zeros(s.regs[c] as nat)),
            next_id: s.next_id + 1,
            ..s
        },
    )
}

pub open spec fn abandon_spec(s: UmState, c: int) -> Outcome {
    let id = s.regs[c];
    if id != 0 && s.heap.contains_key(id) {
        (Ok(true), UmState { heap: s.heap.remove(id), ..s })
    } else {
        (Err(UmError::InvalidArrayAbandonment), s)
    }
}

pub open spec fn output_spec(s: UmState, c: int) -> Outcome {
    if s.regs[c] > 255 {
        (Err(UmError::InvalidOutput), s)
    } else {
        (Ok(true), UmState { output: s.output.push(s.regs[c] as u8), ..s })
    }
}

/// With no byte supplied the input stream has ended, and the register keeps its value.
pub open spec fn input_spec(s: UmState, c: int) -> Outcome {
    if s.input.len() > 0 {
        (Ok(true), UmState { regs: s.regs.update(c, s.input[0] as u32), input: s.input.drop_first(), ..s })
    } else {
        (Ok(true), s)
    }
}

pub open spec fn load_spec(s: UmState, b: int, c: int) -> Outcome {
    let id = s.regs[b];
    if id != 0 && !s.heap.contains_key(id) {
        (Err(UmError::InvalidLoad), s)
    } else {
        (
            Ok(true),
            UmState {
                program: if id == 0 { s.program } else { s.heap[id] },
                finger: s.regs[c] as nat,
                ..s
            },
        )
    }
}

pub open spec fn orth_spec(s: UmState, platter: u32) -> Outcome {
    (Ok(true), s.set_reg(orth_reg_of(platter) as int, orth_value_of(platter)))
}

/// Runs the operator of `platter` on `s`, whose finger has already moved past it.
pub open spec fn execute(s: UmState, platter: u32) -> Outcome {
    let op = opcode_of(platter);
    let a = reg_a_of(platter) as int;
    let b = reg_b_of(platter) as int;
    let c = reg_c_of(platter) as int;
    if op == 0 {
        cmov_spec(s, a, b, c)
    } else if op == 1 {
        index_spec(s, a, b, c)
    } else if op == 2 {
        amend_spec(s, a, b, c)
    } else if op == 3 {
        add_spec(s, a, b, c)
    } else if op == 4 {
        mul_spec(s, a, b, c)
    } else if op == 5 {
        div_spec(s, a, b, c)
    } else if op == 6 {
        nand_spec(s, a, b, c)
    } else if op == 7 {
        (Ok(false), s)
    } else if op == 8 {
        alloc_spec(s, b, c)
    } else if op == 9 {
        abandon_spec(s, c)
    } else if op == 10 {
        output_spec(s, c)
    } else if op == 11 {
        input_spec(s, c)
    } else if op == 12 {
        load_spec(s, b, c)
    } else if op == 13 {
        orth_spec(s, platter)
    } else {
        (Err(UmError::InvalidInstruction), s)
    }
}

/// One step: fetch the platter under the finger, advance the finger by one, then execute.
pub open spec fn step(s: UmState) -> Outcome {
    if s.can_fetch() {
        execute(UmState { finger: s.finger + 1, ..s }, s.fetched())
    } else {
        (Err(UmError::ExecutionFingerOutOfBounds), s)
    }
}

/// A step from a well-formed state that may step leaves a well-formed state.
pub proof fn lemma_step_wf(s: UmState)
    requires
        s.wf(),
        s.can_step(),
    ensures
        step(s).1.wf(),
{
    if s.can_fetch() {
        let p = s.fetched();
        let t = UmState { finger: s.finger + 1, ..s };
        let r = step(s).1;
        assert(reg_a_of(p) < 8 && reg_b_of(p) < 8 && reg_c_of(p) < 8) by (bit_vector);
        assert(orth_reg_of(p) < 8) by (bit_vector);
        assert forall|k: u32| #[trigger] r.heap.contains_key(k) implies 0 < k < r.next_id by {
            if k != s.next_id as u32 {
                assert(t.heap.contains_key(k));
            }
        }
    }
}

/// A machine: registers, program array, allocated arrays, identifier counter
/// and finger, with the bytes waiting for input and those emitted by output.
#[derive(Debug)]
pub struct Um {
    regs: [u32; 8],
    zero: Vec<u32>,
    arrays: HashMap<u32, Vec<u32>>,
    next_array: u32,
    execution_finger: usize,
    input: Vec<u8>,
    output: Vec<u8>,
}

impl View for Um {
    type V = UmState;

    closed spec fn view(&self) -> UmState {
        UmState {
            regs: self.regs@,
            program: self.zero@,
            heap: self.arrays@.map_values(|v: Vec<u32>| v@),
            next_id: self.next_array as nat,
            finger: self.execution_finger as nat,
            input: self.input@,
            output: self.output@,
        }
    }
}

impl Um {
    /// A machine with zeroed registers, the given program array, no allocated
    /// arrays, the finger at 0 and the first identifier 1.
    pub fn new(program: Vec<u32>) -> (r: Um)
        ensures
            r@.regs == Seq::new(8, |i: int| 0u32),
            r@.program == program@,
            r@.heap == Map::<u32, Seq<u32>>::empty(),
            r@.next_id == 1,
            r@.finger == 0,
            r@.input == Seq::<u8>::empty(),
            r@.output == Seq::<u8>::empty(),
            r@.wf(),
    {
        let r = Um {
            regs: [0u32; 8],
            zero: program,
            arrays: HashMap::new(),
            next_array: 1,
            execution_finger: 0,
            input: Vec::new(),
            output: Vec::new(),
        };
        assert(r@.regs =~= Seq::new(8, |i: int| 0u32));
        assert(r@.heap =~= Map::<u32, Seq<u32>>::empty());
        r
    }
}

impl Um {
    /// Executes the instruction under the finger. `Ok(true)`: go on; `Ok(false)`: halted.
    pub fn next_op(&mut self) -> (r: UmResult<bool>)
        requires
            old(self)@.wf(),
            old(self)@.can_step(),
        ensures
            (r, final(self)@) == step(old(self)@),
            final(self)@.wf(),
    {
        proof {
            lemma_step_wf(self@);
        }
        if self.execution_finger >= self.zero.len() {
            return Err(UmError::ExecutionFingerOutOfBounds);
        }
        let operator = self.zero[self.execution_finger];
        let ins = decode(operator);
        self.execution_finger = self.execution_finger + 1;
        match ins.opcode {
            0 => self.cmov(ins.a, ins.b, ins.c),
            1 => self.idx(ins.a, ins.b, ins.c),
            2 => self.amd(ins.a, ins.b, ins.c),
            3 => self.add(ins.a, ins.b, ins.c),
            4 => self.mul(ins.a, ins.b, ins.c),
            5 => self.div(ins.a, ins.b, ins.c),
            6 => self.nand(ins.a, ins.b, ins.c),
            7 => self.halt(),
            8 => self.allocate(ins.b, ins.c),
            9 => self.abnd(ins.c),
            10 => self.outp(ins.c),
            11 => self.inp(ins.c),
            12 => self.ld(ins.b, ins.c),
            13 => self.orth(operator),
            _ => Err(UmError::InvalidInstruction),
        }
    }

    fn cmov(&mut self, a: usize, b: usize, c: usize) -> (r: UmResult<bool>)
        requires
            a < 8,
            b < 8,
            c < 8,
        ensures
            (r, final(self)@) == cmov_spec(old(self)@, a as int, b as int, c as int),
    {
        if self.regs[c] != 0 {
            self.regs[a] = self.regs[b];
        }
        Ok(true)
    }

    fn idx(&mut self, a: usize, b: usize, c: usize) -> (r: UmResult<bool>)
        requires
            a < 8,
            b < 8,
            c < 8,
        ensures
            (r, final(self)@) == index_spec(old(self)@, a as int, b as int, c as int),
    {
        let id = self.regs[b];
        let i = self.regs[c] as usize;
        if id == 0 {
            if i < self.zero.len() {
                self.regs[a] = self.zero[i];
                Ok(true)
            } else {
                Err(UmError::InvalidArrayAccess)
            }
        } else {
            let v = match self.arrays.get(&id) {
                Some(arr) => {
                    if i < arr.len() {
                        arr[i]
                    } else {
                        return Err(UmError::InvalidArrayAccess);
                    }
                },
                None => {
                    return Err(UmError::InvalidArrayAccess);
                },
            };
            self.regs[a] = v;
            Ok(true)
        }
    }

    fn amd(&mut self, a: usize, b: usize, c: usize) -> (r: UmResult<bool>)
        requires
            a < 8,
            b < 8,
            c < 8,
        ensures
            (r, final(self)@) == amend_spec(old(self)@, a as int, b as int, c as int),
    {
        let id = self.regs[a];
        let i = self.regs[b] as usize;
        let v = self.regs[c];
        if id == 0 {
            if i < self.zero.len() {
                self.zero[i] = v;
                Ok(true)
            } else {
                Err(UmError::InvalidArrayAccess)
            }
        } else {
            match self.arrays.remove(&id) {
                Some(mut arr) => {
                    assert(arr@ == old(self)@.heap[id]);
                    if i < arr.len() {
                        arr[i] = v;
                        self.arrays.insert(id, arr);
                        assert(self@.heap =~= old(self)@.heap.insert(
                            id,
                            old(self)@.heap[id].update(i as int, v),
                        ));
                        Ok(true)
                    } else {
                        self.arrays.insert(id, arr);
                        assert(self.arrays@ =~= old(self).arrays@);
                        Err(UmError::InvalidArrayAccess)
                    }
                },
                None => {
                    assert(self.arrays@ =~= old(self).arrays@);
                    Err(UmError::InvalidArrayAccess)
                },
            }
        }
    }

    fn add(&mut self, a: usize, b: usize, c: usize) -> (r: UmResult<bool>)
        requires
            a < 8,
            b < 8,
            c < 8,
        ensures
            (r, final(self)@) == add_spec(old(self)@, a as int, b as int, c as int),
    {
        self.regs[a] = self.regs[b].wrapping_add(self.regs[c]);
        Ok(true)
    }

    fn mul(&mut self, a: usize, b: usize, c: usize) -> (r: UmResult<bool>)
        requires
            a < 8,
            b < 8,
            c < 8,
        ensures
            (r, final(self)@) == mul_spec(old(self)@, a as int, b as int, c as int),
    {
        self.regs[a] = self.regs[b].wrapping_mul(self.regs[c]);
        Ok(true)
    }

    fn div(&mut self, a: usize, b: usize, c: usize) -> (r: UmResult<bool>)
        requires
            a < 8,
            b < 8,
            c < 8,
        ensures
            (r, final(self)@) == div_spec(old(self)@, a as int, b as int, c as int),
    {
        if self.regs[c] != 0 {
            self.regs[a] = self.regs[b] / self.regs[c];
            Ok(true)
        } else {
            Err(UmError::DivideByZero)
        }
    }

    fn nand(&mut self, a: usize, b: usize, c: usize) -> (r: UmResult<bool>)
        requires
            a < 8,
            b < 8,
            c < 8,
        ensures
            (r, final(self)@) == nand_spec(old(self)@, a as int, b as int, c as int),
    {
        let x = self.regs[b] & self.regs[c];
        let v = x ^ 0xFFFF_FFFF;
        assert(v == !x) by (bit_vector)
            requires
                v == x ^ 0xFFFF_FFFF,
        ;
        self.regs[a] = v;
        Ok(true)
    }

    fn halt(&mut self) -> (r: UmResult<bool>)
        ensures
            r == Ok::<bool, UmError>(false),
            final(self)@ == old(self)@,
    {
        Ok(false)
    }

    fn allocate(&mut self, b: usize, c: usize) -> (r: UmResult<bool>)
        requires
            b < 8,
            c < 8,
            !old(self)@.ids_exhausted(),
        ensures
            (r, final(self)@) == alloc_spec(old(self)@, b as int, c as int),
    {
        let id = self.next_array;
        let n = self.regs[c] as usize;
        let arr: Vec<u32> = vec![0u32; n];
        assert(arr@ =~= zeros(n as nat));
        self.arrays.insert(id, arr);
        self.regs[b] = id;
        self.next_array = id + 1;
        assert(self@.heap =~= old(self)@.heap.insert(id, zeros(n as nat)));
        Ok(true)
    }

    fn abnd(&mut self, c: usize) -> (r: UmResult<bool>)
        requires
            c < 8,
        ensures
            (r, final(self)@) == abandon_spec(old(self)@, c as int),
    {
        let id = self.regs[c];
        if id != 0 && self.arrays.contains_key(&id) {
            self.arrays.remove(&id);
            assert(self@.heap =~= old(self)@.heap.remove(id));
            Ok(true)
        } else {
            Err(UmError::InvalidArrayAbandonment)
        }
    }

    fn outp(&mut self, c: usize) -> (r: UmResult<bool>)
        requires
            c < 8,
        ensures
            (r, final(self)@) == output_spec(old(self)@, c as int),
    {
        let v = self.regs[c];
        if v < 0x100 {
            self.output.push(v as u8);
            Ok(true)
        } else {
            Err(UmError::InvalidOutput)
        }
    }

    fn inp(&mut self, c: usize) -> (r: UmResult<bool>)
        requires
            c < 8,
        ensures
            (r, final(self)@) == input_spec(old(self)@, c as int),
    {
        if self.input.len() > 0 {
            let byte = self.input.remove(0);
            self.regs[c] = byte as u32;
            assert(self.input@ =~= old(self).input@.drop_first());
        }
        Ok(true)
    }

    fn ld(&mut self, b: usize, c: usize) -> (r: UmResult<bool>)
        requires
            b < 8,
            c < 8,
        ensures
            (r, final(self)@) == load_spec(old(self)@, b as int, c as int),
    {
        let id = self.regs[b];
        if id != 0 {
            match self.arrays.get(&id) {
                Some(arr) => {
                    let copy = arr.clone();
                    assert(copy@ =~= arr@);
                    self.zero = copy;
                },
                None => {
                    return Err(UmError::InvalidLoad);
                },
            }
        }
        self.execution_finger = self.regs[c] as usize;
        Ok(true)
    }

    fn orth(&mut self, platter: u32) -> (r: UmResult<bool>)
        ensures
            (r, final(self)@) == orth_spec(old(self)@, platter),
    {
        let (reg, value) = decode_orthography(platter);
        self.regs[reg] = value;
        Ok(true)
    }
}

impl Um {
    /// False exactly when the next instruction would allocate while no fresh
    /// identifier is left; `next_op` must not be called then.
    pub fn can_step(&self) -> (r: bool)
        ensures
            r == self@.can_step(),
    {
        if self.execution_finger < self.zero.len() {
            let ins = decode(self.zero[self.execution_finger]);
            !(ins.opcode == 8 && self.next_array == u32::MAX)
        } else {
            true
        }
    }

    /// True when the next instruction reads a byte and none has been supplied:
    /// the caller supplies one with `feed_input`, or none at the end of the stream.
    pub fn awaits_input(&self) -> (r: bool)
        ensures
            r == self@.awaits_input(),
    {
        if self.execution_finger < self.zero.len() {
            let ins = decode(self.zero[self.execution_finger]);
            ins.opcode == 11 && self.input.len() == 0
        } else {
            false
        }
    }

    /// Supplies one byte for later input instructions.
    pub fn feed_input(&mut self, byte: u8)
        ensures
            final(self)@ == (UmState { input: old(self)@.input.push(byte), ..old(self)@ }),
    {
        self.input.push(byte);
    }

    /// Hands out the bytes emitted so far, oldest first, and forgets them.
    pub fn take_output(&mut self) -> (r: Vec<u8>)
        ensures
            r@ == old(self)@.output,
            final(self)@ == (UmState { output: Seq::empty(), ..old(self)@ }),
    {
        let mut r: Vec<u8> = Vec::new();
        std::mem::swap(&mut r, &mut self.output);
        assert(self.output@ =~= Seq::<u8>::empty());
        r
    }

    /// The value of register `i`.
    pub fn register(&self, i: usize) -> (r: u32)
        requires
            i < 8,
        ensures
            r == self@.regs[i as int],
    {
        self.regs[i]
    }

    /// The execution finger.
    pub fn execution_finger(&self) -> (r: usize)
        ensures
            r == self@.finger,
    {
        self.execution_finger
    }

    /// The platter under the finger, or `None` when the finger is out of bounds.
    pub fn current_platter(&self) -> (r: Option<u32>)
        ensures
            r == (if self@.can_fetch() { Some(self@.fetched()) } else { None }),
    {
        if self.execution_finger < self.zero.len() {
            Some(self.zero[self.execution_finger])
        } else {
            None
        }
    }
}

} // verus!
