use taskctx::context::{TASKCTX_SIZE, WORD};
use taskctx::machine::{step, Hart, Instr, Memory, Privilege, A0, SP};
use taskctx::trampoline::{trap_entry_program, ENTRY_PROGRAM_LEN};

#[test]
fn entry_program_stores_below_the_stack_pointer() {
    let p = trap_entry_program();
    assert_eq!(p.len(), ENTRY_PROGRAM_LEN);
    assert_eq!(p[0], Instr::Store { src: 1, base: SP, imm: -312 });
    assert_eq!(p[1], Instr::Store { src: 2, base: SP, imm: -304 });
    assert_eq!(p[30], Instr::Store { src: 31, base: SP, imm: -72 });
    for i in 1..32 {
        let expected = ((i - 1) * WORD) as isize - TASKCTX_SIZE as isize;
        assert_eq!(p[i - 1], Instr::Store { src: i, base: SP, imm: expected });
    }
    assert_eq!(p[31], Instr::AddImm { dst: SP, src: SP, imm: -312 });
    assert_eq!(p[32], Instr::AddImm { dst: A0, src: SP, imm: 0 });
}

#[test]
fn single_steps() {
    let mut h = Hart::new(0, Privilege::Supervisor, 0, 0, 0);
    let mut m = Memory::new(0x1000, 8);
    h.set_reg(SP, 0x1040);
    h.set_reg(7, 77);
    step(&mut h, &mut m, Instr::Store { src: 7, base: SP, imm: -16 });
    assert_eq!(m.words[6], 77);
    step(&mut h, &mut m, Instr::Store { src: 7, base: 0, imm: 0x1008 });
    assert_eq!(m.words[1], 77);
    step(&mut h, &mut m, Instr::AddImm { dst: SP, src: SP, imm: -0x40 });
    assert_eq!(h.reg(SP), 0x1000);
    step(&mut h, &mut m, Instr::AddImm { dst: A0, src: SP, imm: 8 });
    assert_eq!(h.reg(A0), 0x1008);
    step(&mut h, &mut m, Instr::AddImm { dst: 0, src: SP, imm: 8 });
    assert_eq!(h.reg(0), 0);
}
