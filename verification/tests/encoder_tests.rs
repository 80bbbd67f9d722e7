use msnchat_rs::encoder::{
    make_call_rel32, make_jmp_rel32, mov_eax_instr, mov_edi_instr, push_instr, u32_to_le_bytes,
};

#[test]
fn le_bytes_of_value() {
    assert_eq!(u32_to_le_bytes(0x12345678), vec![0x78, 0x56, 0x34, 0x12]);
    assert_eq!(u32_to_le_bytes(0), vec![0, 0, 0, 0]);
    assert_eq!(u32_to_le_bytes(0xFFFFFFFF), vec![0xFF, 0xFF, 0xFF, 0xFF]);
}

#[test]
fn jmp_forward_displacement() {
    // to - (from + 5) = 0x2000 - 0x1005 = 0x0FFB
    let b = make_jmp_rel32(0x1000, 0x2000);
    assert_eq!(b, vec![0xE9, 0xFB, 0x0F, 0x00, 0x00]);
}

#[test]
fn jmp_negative_displacement() {
    // to - (from + 5) = 0x1000 - 0x2005 = -0x1005 -> 0xFFFFEFFB
    let b = make_jmp_rel32(0x2000, 0x1000);
    assert_eq!(b, vec![0xE9, 0xFB, 0xEF, 0xFF, 0xFF]);
}

#[test]
fn call_uses_its_own_opcode() {
    let b = make_call_rel32(0x1000, 0x2000);
    assert_eq!(b, vec![0xE8, 0xFB, 0x0F, 0x00, 0x00]);
}

#[test]
fn jmp_to_next_instruction_is_zero_displacement() {
    let b = make_jmp_rel32(0x37218743, 0x37218748);
    assert_eq!(b, vec![0xE9, 0x00, 0x00, 0x00, 0x00]);
}

fn simulate_rel32(from: u32, bytes: &[u8]) -> u32 {
    let disp = u32::from_le_bytes([bytes[1], bytes[2], bytes[3], bytes[4]]);
    from.wrapping_add(5).wrapping_add(disp)
}

#[test]
fn simulated_execution_lands_on_target() {
    // Simulated execution: from + 5 + displacement, in 32-bit wrapping
    // arithmetic, must land exactly on the target across the address range.
    let cases = [
        (0x00000000u32, 0x00000000u32),
        (0x00000000, 0xFFFFFFFF),
        (0xFFFFFFFF, 0x00000000),
        (0x37218743, 0x00401000),
        (0x00401000, 0x37218743),
        (0x80000000, 0x7FFFFFFF),
    ];
    for &(from, to) in cases.iter() {
        let b = make_jmp_rel32(from as usize, to as usize);
        assert_eq!(b[0], 0xE9);
        assert_eq!(simulate_rel32(from, &b), to);
        let c = make_call_rel32(from as usize, to as usize);
        assert_eq!(c[0], 0xE8);
        assert_eq!(simulate_rel32(from, &c), to);
    }
}

#[test]
fn immediate_encoders() {
    assert_eq!(
        mov_eax_instr(0x00401000),
        vec![0xB8, 0x00, 0x10, 0x40, 0x00]
    );
    assert_eq!(
        mov_edi_instr(0x00401000),
        vec![0xBF, 0x00, 0x10, 0x40, 0x00]
    );
    assert_eq!(push_instr(0xDEADBEEF), vec![0x68, 0xEF, 0xBE, 0xAD, 0xDE]);
}
