use um::decode::{decode, decode_orthography, opcode_name};
use um::image::program_from_bytes;
use um::machine::{Um, UmError};

fn op(opcode: u32, a: u32, b: u32, c: u32) -> u32 {
    (opcode << 28) | (a << 6) | (b << 3) | c
}

fn orth(reg: u32, value: u32) -> u32 {
    (13 << 28) | (reg << 25) | value
}

fn run(um: &mut Um, steps: usize) {
    for _ in 0..steps {
        assert_eq!(um.next_op(), Ok(true));
    }
}

fn regs(um: &Um) -> Vec<u32> {
    (0..8).map(|i| um.register(i)).collect()
}

#[test]
fn halt_program_has_no_effect() {
    let mut um = Um::new(vec![0x7000_0000]);
    assert_eq!(um.next_op(), Ok(false));
    assert_eq!(regs(&um), vec![0; 8]);
    assert_eq!(um.execution_finger(), 1);
    assert_eq!(um.take_output(), Vec::<u8>::new());
}

#[test]
fn immediate_load_program() {
    let mut um = Um::new(vec![0xD000_002A]);
    assert_eq!(um.next_op(), Ok(true));
    assert_eq!(regs(&um), vec![42, 0, 0, 0, 0, 0, 0, 0]);
    assert_eq!(um.execution_finger(), 1);
}

#[test]
fn load_two_then_add() {
    let mut um = Um::new(vec![orth(0, 5), orth(1, 7), op(3, 2, 0, 1)]);
    assert_eq!(um.current_platter(), Some(0xD000_0005));
    run(&mut um, 3);
    assert_eq!(um.register(2), 12);
}

#[test]
fn divide_by_zero_after_finger_moved() {
    let mut um = Um::new(vec![orth(1, 0), op(5, 0, 0, 1)]);
    run(&mut um, 1);
    assert_eq!(um.next_op(), Err(UmError::DivideByZero));
    assert_eq!(um.execution_finger(), 2);
}

#[test]
fn allocate_then_index_new_array() {
    let mut um = Um::new(vec![orth(2, 4), op(8, 0, 1, 2), op(1, 3, 1, 0)]);
    run(&mut um, 3);
    assert_eq!(um.register(1), 1);
    assert_eq!(um.register(3), 0);
}

#[test]
fn orthography_leaves_other_registers() {
    let mut prog = Vec::new();
    for r in 0..8 {
        prog.push(orth(r, 100 + r));
    }
    prog.push(orth(5, 0x1FF_FFFF));
    let mut um = Um::new(prog);
    run(&mut um, 9);
    assert_eq!(regs(&um), vec![100, 101, 102, 103, 104, 0x1FF_FFFF, 106, 107]);
    assert_eq!(um.execution_finger(), 9);
}

#[test]
fn addition_wraps() {
    // r0 = not-and of two zeros = 0xFFFF_FFFF, then r0 + 2 wraps to 1
    let mut um = Um::new(vec![op(6, 0, 1, 1), orth(2, 2), op(3, 3, 0, 2)]);
    run(&mut um, 3);
    assert_eq!(um.register(0), 0xFFFF_FFFF);
    assert_eq!(um.register(3), 1);
}

#[test]
fn multiplication_wraps() {
    let mut um = Um::new(vec![orth(0, 0x10000), op(4, 1, 0, 0), orth(2, 3), op(4, 3, 0, 2), op(4, 4, 3, 3)]);
    run(&mut um, 5);
    assert_eq!(um.register(1), 0);
    assert_eq!(um.register(3), 0x30000);
    assert_eq!(um.register(4), 0);
}

#[test]
fn division_is_unsigned() {
    // r0 = 0xFFFF_FFFF, r1 = 16, r2 = r0 / r1
    let mut um = Um::new(vec![op(6, 0, 7, 7), orth(1, 16), op(5, 2, 0, 1)]);
    run(&mut um, 3);
    assert_eq!(um.register(2), 0x0FFF_FFFF);
}

#[test]
fn division_by_zero_whatever_the_dividend() {
    let mut um = Um::new(vec![op(6, 0, 7, 7), op(5, 2, 0, 1)]);
    run(&mut um, 1);
    assert_eq!(um.next_op(), Err(UmError::DivideByZero));
    assert_eq!(um.register(2), 0);
}

#[test]
fn not_and_bits() {
    let mut um = Um::new(vec![orth(0, 0x0F0_F0F0), orth(1, 0x1FF_00FF), op(6, 2, 0, 1)]);
    run(&mut um, 3);
    assert_eq!(um.register(2), !(0x0F0_F0F0u32 & 0x1FF_00FF));
    assert_eq!(um.register(2), 0xFF0F_FF0F);
}

#[test]
fn conditional_move() {
    let mut um = Um::new(vec![orth(1, 9), op(0, 0, 1, 2), orth(2, 1), op(0, 0, 1, 2)]);
    run(&mut um, 2);
    assert_eq!(um.register(0), 0);
    run(&mut um, 2);
    assert_eq!(um.register(0), 9);
}

#[test]
fn allocation_identifiers_are_fresh() {
    // allocate, abandon, allocate again: the identifier is not reused
    let mut um = Um::new(vec![orth(2, 3), op(8, 0, 1, 2), op(9, 0, 0, 1), op(8, 0, 3, 2), op(8, 0, 4, 0)]);
    run(&mut um, 5);
    assert_eq!(um.register(1), 1);
    assert_eq!(um.register(3), 2);
    assert_eq!(um.register(4), 3);
}

#[test]
fn allocation_of_size_zero() {
    let mut um = Um::new(vec![op(8, 0, 1, 0), op(1, 2, 1, 0)]);
    run(&mut um, 1);
    assert_eq!(um.register(1), 1);
    assert_eq!(um.next_op(), Err(UmError::InvalidArrayAccess));
}

#[test]
fn allocated_array_reads_zero_everywhere() {
    let mut um = Um::new(vec![orth(2, 3), op(8, 0, 1, 2), orth(5, 2), op(1, 3, 1, 5), orth(5, 3), op(1, 3, 1, 5)]);
    run(&mut um, 4);
    assert_eq!(um.register(3), 0);
    run(&mut um, 1);
    assert_eq!(um.next_op(), Err(UmError::InvalidArrayAccess));
}

#[test]
fn amend_then_index_heap_array() {
    let mut um = Um::new(vec![
        orth(2, 2),
        op(8, 0, 1, 2),
        orth(3, 1),
        orth(4, 77),
        op(2, 1, 3, 4),
        op(1, 5, 1, 3),
        op(2, 1, 2, 4),
    ]);
    run(&mut um, 6);
    assert_eq!(um.register(5), 77);
    assert_eq!(um.next_op(), Err(UmError::InvalidArrayAccess));
}

#[test]
fn abandon_once_then_fails() {
    let mut um = Um::new(vec![op(8, 0, 1, 0), op(9, 0, 0, 1), op(9, 0, 0, 1)]);
    run(&mut um, 2);
    assert_eq!(um.next_op(), Err(UmError::InvalidArrayAbandonment));
}

#[test]
fn abandon_zero_fails() {
    let mut um = Um::new(vec![op(9, 0, 0, 1)]);
    assert_eq!(um.next_op(), Err(UmError::InvalidArrayAbandonment));
}

#[test]
fn index_after_abandon_fails() {
    let mut um = Um::new(vec![orth(2, 1), op(8, 0, 1, 2), op(9, 0, 0, 1), op(1, 3, 1, 0)]);
    run(&mut um, 3);
    assert_eq!(um.next_op(), Err(UmError::InvalidArrayAccess));
}

#[test]
fn array_zero_is_the_program() {
    // read platter 1 of the program, then overwrite platter 4 with a halt
    let mut um = Um::new(vec![
        orth(1, 1),
        op(1, 2, 0, 1),
        orth(3, 4),
        op(2, 0, 3, 5),
        orth(7, 7),
    ]);
    run(&mut um, 4);
    assert_eq!(um.register(2), op(1, 2, 0, 1));
    assert_eq!(um.current_platter(), Some(0));
    assert_eq!(um.next_op(), Ok(true));
}

#[test]
fn array_zero_index_out_of_bounds() {
    let mut um = Um::new(vec![orth(1, 9), op(1, 2, 0, 1), op(2, 0, 1, 1)]);
    run(&mut um, 1);
    assert_eq!(um.next_op(), Err(UmError::InvalidArrayAccess));
    assert_eq!(um.next_op(), Err(UmError::InvalidArrayAccess));
}

#[test]
fn load_program_copies() {
    // copy a four-platter payload from the program into array 1, then load it;
    // the payload amends array 1 and reads both arrays back
    let payload = [op(2, 1, 7, 6), op(1, 5, 0, 7), op(1, 2, 1, 7), op(7, 0, 0, 0)];
    let base: u32 = 40;
    let mut prog = vec![orth(2, 4), op(8, 0, 1, 2)];
    for k in 0..4u32 {
        prog.extend([orth(7, base + k), op(1, 4, 0, 7), orth(3, k), op(2, 1, 3, 4)]);
    }
    prog.extend([orth(6, 99), orth(7, 0), op(12, 0, 1, 7)]);
    while prog.len() < base as usize {
        prog.push(op(7, 0, 0, 0));
    }
    prog.extend(payload);
    let mut um = Um::new(prog);
    run(&mut um, 21);
    assert_eq!(um.execution_finger(), 0);
    assert_eq!(um.current_platter(), Some(payload[0]));
    run(&mut um, 3);
    // the program array kept its copy while array 1 was amended
    assert_eq!(um.register(5), payload[0]);
    assert_eq!(um.register(2), 99);
    assert_eq!(um.next_op(), Ok(false));
}

#[test]
fn load_of_empty_array_leaves_no_platter() {
    let mut um = Um::new(vec![op(8, 0, 1, 0), op(12, 0, 1, 0)]);
    run(&mut um, 2);
    assert_eq!(um.execution_finger(), 0);
    assert_eq!(um.current_platter(), None);
    assert_eq!(um.next_op(), Err(UmError::ExecutionFingerOutOfBounds));
}

#[test]
fn load_with_zero_only_jumps() {
    let mut um = Um::new(vec![orth(1, 3), op(12, 0, 0, 1), orth(2, 1), op(7, 0, 0, 0)]);
    run(&mut um, 2);
    assert_eq!(um.execution_finger(), 3);
    assert_eq!(um.next_op(), Ok(false));
    assert_eq!(um.register(2), 0);
}

#[test]
fn load_from_inactive_fails() {
    let mut um = Um::new(vec![orth(1, 5), op(12, 0, 1, 0)]);
    run(&mut um, 1);
    assert_eq!(um.next_op(), Err(UmError::InvalidLoad));
    assert_eq!(um.execution_finger(), 2);
}

#[test]
fn output_byte_and_failure() {
    let mut um = Um::new(vec![orth(0, 72), op(10, 0, 0, 0), orth(1, 255), op(10, 0, 0, 1), orth(2, 256), op(10, 0, 0, 2)]);
    run(&mut um, 4);
    assert_eq!(um.take_output(), vec![72, 255]);
    assert_eq!(um.take_output(), Vec::<u8>::new());
    run(&mut um, 1);
    assert_eq!(um.next_op(), Err(UmError::InvalidOutput));
    assert_eq!(um.take_output(), Vec::<u8>::new());
}

#[test]
fn input_reads_supplied_bytes_then_end_of_stream() {
    let mut um = Um::new(vec![orth(3, 9), op(11, 0, 0, 3), op(11, 0, 0, 4), op(11, 0, 0, 3)]);
    run(&mut um, 1);
    assert!(um.awaits_input());
    um.feed_input(b'a');
    um.feed_input(b'b');
    assert!(!um.awaits_input());
    run(&mut um, 2);
    assert_eq!(um.register(3), 97);
    assert_eq!(um.register(4), 98);
    assert!(um.awaits_input());
    run(&mut um, 1);
    assert_eq!(um.register(3), 97);
}

#[test]
fn unassigned_opcodes_fail() {
    let mut um = Um::new(vec![0xE000_0000, 0xF000_0000]);
    assert_eq!(um.next_op(), Err(UmError::InvalidInstruction));
    assert_eq!(um.execution_finger(), 1);
    assert_eq!(um.next_op(), Err(UmError::InvalidInstruction));
}

#[test]
fn empty_program_finger_out_of_bounds() {
    let mut um = Um::new(Vec::new());
    assert_eq!(um.current_platter(), None);
    assert_eq!(um.next_op(), Err(UmError::ExecutionFingerOutOfBounds));
    assert_eq!(um.execution_finger(), 0);
}

#[test]
fn can_step_in_ordinary_states() {
    let um = Um::new(vec![op(8, 0, 1, 2)]);
    assert!(um.can_step());
    assert!(!um.awaits_input());
}

#[test]
fn decode_fields() {
    let d = decode(op(12, 5, 6, 7) | 0x0FFF_FE00);
    assert_eq!((d.opcode, d.a, d.b, d.c), (12, 5, 6, 7));
    assert_eq!(decode_orthography(0xDFFF_FFFF), (7, 0x1FF_FFFF));
    assert_eq!(decode_orthography(orth(3, 12345)), (3, 12345));
    assert_eq!(opcode_name(0), Some("CMOV"));
    assert_eq!(opcode_name(13), Some("ORTH"));
    assert_eq!(opcode_name(14), None);
}

#[test]
fn image_big_endian_words() {
    assert_eq!(program_from_bytes(&[0x70, 0, 0, 0, 0xD0, 0, 0, 0x2A]), Some(vec![0x7000_0000, 0xD000_002A]));
    assert_eq!(program_from_bytes(&[1, 2, 3, 4]), Some(vec![0x0102_0304]));
    assert_eq!(program_from_bytes(&[0xFF, 0xFF, 0xFF, 0xFF]), Some(vec![0xFFFF_FFFF]));
}

#[test]
fn image_empty_and_partial() {
    assert_eq!(program_from_bytes(&[]), Some(Vec::new()));
    assert_eq!(program_from_bytes(&[1]), None);
    assert_eq!(program_from_bytes(&[1, 2, 3, 4, 5, 6, 7]), None);
}

#[test]
fn error_texts() {
    assert_eq!(UmError::DivideByZero.name(), "DivideByZero");
    assert_eq!(UmError::ExecutionFingerOutOfBounds.name(), "ExecutionFingerOutOfBounds");
    assert_eq!(UmError::InvalidOutput.description(), "Output a value greater than 255");
    assert_eq!(
        UmError::InvalidArrayAbandonment.description(),
        "Abandoned '0' array or an array that was not active"
    );
}
