use x68kemu::bus::Bus;
use x68kemu::cpu::Cpu;

fn boot_at(pc: u32) -> Cpu<Bus> {
    let mut cpu = Cpu::new(Bus::new());
    cpu.set_pc(pc);
    cpu
}

#[test]
fn test_clr_and_tst() {
    let mut cpu = boot_at(0x400);
    cpu.set_dreg(0, 0xffffffff);
    cpu.write16(0x400, 0x4200); // clr.b D0
    cpu.step().unwrap();
    assert_eq!(cpu.dreg(0), 0xffffff00);
    cpu.write16(0x402, 0x4a00); // tst.b D0
    cpu.step().unwrap();
    assert_eq!(cpu.sr() & 0xf, 0x4, "Z set, N/V/C clear");
    cpu.write16(0x404, 0x4a40); // tst.w D0
    cpu.step().unwrap();
    assert_eq!(cpu.sr() & 0xf, 0x8, "N set for 0xff00");
}

#[test]
fn test_btst_bclr_bset() {
    let mut cpu = boot_at(0x400);
    cpu.set_dreg(0, 0x4);
    cpu.write16(0x400, 0x0800); // btst #2,D0
    cpu.write16(0x402, 0x0002);
    cpu.step().unwrap();
    assert_eq!(cpu.sr() & 0x4, 0, "bit set, Z clear");
    cpu.write16(0x404, 0x0800); // btst #1,D0
    cpu.write16(0x406, 0x0001);
    cpu.step().unwrap();
    assert_eq!(cpu.sr() & 0x4, 0x4, "bit clear, Z set");
    cpu.write16(0x408, 0x0880); // bclr #2,D0
    cpu.write16(0x40a, 0x0002);
    cpu.step().unwrap();
    assert_eq!(cpu.dreg(0), 0);
    cpu.write16(0x40c, 0x08c1); // bset #31,D1
    cpu.write16(0x40e, 0x001f);
    cpu.step().unwrap();
    assert_eq!(cpu.dreg(1), 0x8000_0000);
    cpu.set_dreg(2, 5);
    cpu.write16(0x410, 0x05c3); // bset D2,D3
    cpu.step().unwrap();
    assert_eq!(cpu.dreg(3), 0x20);
}

#[test]
fn test_shifts_and_rotates() {
    let mut cpu = boot_at(0x400);
    cpu.set_dreg(0, 0xaabbccff);
    cpu.write16(0x400, 0xe100); // asl.b #8,D0
    cpu.step().unwrap();
    assert_eq!(cpu.dreg(0), 0xaabbcc00);
    cpu.set_dreg(0, 0x00001234);
    cpu.write16(0x402, 0xe948); // lsl.w #4,D0
    cpu.step().unwrap();
    assert_eq!(cpu.dreg(0), 0x00002340);
    cpu.set_dreg(2, 0x00001234);
    cpu.write16(0x404, 0xe85a); // ror.w #4,D2
    cpu.step().unwrap();
    assert_eq!(cpu.dreg(2), 0x00004123, "a 16-bit rotate right");
    cpu.set_dreg(3, 0x000000a5);
    cpu.write16(0x406, 0xe11b); // rol.b #8,D3
    cpu.step().unwrap();
    assert_eq!(cpu.dreg(3), 0x000000a5, "rotating a byte by 8 is the identity");
    cpu.set_dreg(4, 3);
    cpu.set_dreg(5, 0x00008001);
    cpu.write16(0x408, 0xe97d); // rol.w D4,D5
    cpu.step().unwrap();
    assert_eq!(cpu.dreg(5), 0x0000000c);
}

#[test]
fn test_lsr_word_flags() {
    let mut cpu = boot_at(0x400);
    cpu.set_dreg(0, 0x00000100);
    cpu.write16(0x400, 0xe048); // lsr.w #8,D0: count field 0 maps to 8
    cpu.step().unwrap();
    assert_eq!(cpu.dreg(0), 0x00000001);
    assert_eq!(cpu.sr() & 0x1, 0, "C clear, last bit out was 0");
    assert_eq!(cpu.sr() & 0x4, 0, "Z clear");
}

#[test]
fn test_lea_forms() {
    let mut cpu = boot_at(0x400);
    cpu.write16(0x400, 0x43f9); // lea $1234.l,A1
    cpu.write32(0x402, 0x00001234);
    cpu.step().unwrap();
    assert_eq!(cpu.areg(1), 0x1234);
    assert_eq!(cpu.pc(), 0x406);

    cpu.set_areg(2, 0x100);
    cpu.write16(0x406, 0x47ea); // lea (8,A2),A3
    cpu.write16(0x408, 0x0008);
    cpu.step().unwrap();
    assert_eq!(cpu.areg(3), 0x108);

    cpu.set_areg(0, 0x100);
    cpu.set_dreg(1, 0x10);
    cpu.write16(0x40a, 0x49f0); // lea (4,A0,D1.w),A4
    cpu.write16(0x40c, 0x1004);
    cpu.step().unwrap();
    assert_eq!(cpu.areg(4), 0x114);

    cpu.write16(0x40e, 0x4bfa); // lea (6,PC),A5
    cpu.write16(0x410, 0x0006);
    cpu.step().unwrap();
    assert_eq!(cpu.areg(5), 0x418, "relative to the PC after the displacement");
}

#[test]
fn test_move_sr_forms() {
    let mut cpu = boot_at(0x400);
    cpu.set_sr(0x001b);
    cpu.set_dreg(0, 0xffff0000);
    cpu.write16(0x400, 0x40c0); // move SR,D0
    cpu.step().unwrap();
    assert_eq!(cpu.dreg(0), 0xffff001b);
    cpu.set_dreg(1, 0x00000015);
    cpu.write16(0x402, 0x46c1); // move D1,SR
    cpu.step().unwrap();
    assert_eq!(cpu.sr(), 0x0015);
    cpu.write16(0x404, 0x46fc); // move #$2700,SR
    cpu.write16(0x406, 0x2700);
    cpu.step().unwrap();
    assert_eq!(cpu.sr(), 0x2700);
    assert_eq!(cpu.pc(), 0x408);
}

#[test]
fn test_jsr_address_indirect() {
    let mut cpu = boot_at(0x400);
    cpu.set_areg(2, 0x3000);
    cpu.set_areg(7, 0x1000);
    cpu.write16(0x400, 0x4e92); // jsr (A2)
    cpu.step().unwrap();
    assert_eq!(cpu.pc(), 0x3000);
    assert_eq!(cpu.areg(7), 0xffc);
    assert_eq!(cpu.read32(0xffc), 0x402);
}

#[test]
fn test_cmpm_postincrements_both() {
    let mut cpu = boot_at(0x400);
    cpu.write8(0x100, 5);
    cpu.write8(0x200, 5);
    cpu.set_areg(0, 0x100);
    cpu.set_areg(1, 0x200);
    cpu.write16(0x400, 0xb308); // cmpm.b (A0)+,(A1)+
    cpu.step().unwrap();
    assert_eq!(cpu.sr() & 0xf, 0x4, "equal operands: Z only");
    assert_eq!(cpu.areg(0), 0x101);
    assert_eq!(cpu.areg(1), 0x201);
}

#[test]
fn test_immediate_ops_on_byte() {
    let mut cpu = boot_at(0x400);
    cpu.set_dreg(0, 0x50);
    cpu.write16(0x400, 0x0600); // addi.b #$10,D0
    cpu.write16(0x402, 0x0010);
    cpu.step().unwrap();
    assert_eq!(cpu.dreg(0), 0x60);
    cpu.write16(0x404, 0x0400); // subi.b #$1,D0
    cpu.write16(0x406, 0x0001);
    cpu.step().unwrap();
    assert_eq!(cpu.dreg(0), 0x5f);
    cpu.write16(0x408, 0x0000); // ori.b #$80,D0
    cpu.write16(0x40a, 0x0080);
    cpu.step().unwrap();
    assert_eq!(cpu.dreg(0), 0xdf);
    cpu.write16(0x40c, 0x0a00); // eori.b #$ff,D0
    cpu.write16(0x40e, 0x00ff);
    cpu.step().unwrap();
    assert_eq!(cpu.dreg(0), 0x20);
    cpu.write16(0x410, 0x0240); // andi.w #$f0,D0
    cpu.write16(0x412, 0x00f0);
    cpu.step().unwrap();
    assert_eq!(cpu.dreg(0), 0x20);
    assert_eq!(cpu.sr() & 0xf, 0, "positive nonzero result clears N/Z/V/C");
}

#[test]
fn test_register_arith_and_logic() {
    let mut cpu = boot_at(0x400);
    cpu.set_dreg(0, 0x0f0f);
    cpu.set_dreg(1, 0x0011);
    cpu.write16(0x400, 0x8041); // or.w D1,D0
    cpu.step().unwrap();
    assert_eq!(cpu.dreg(0), 0x0f1f);
    cpu.write16(0x402, 0x9041); // sub.w D1,D0
    cpu.step().unwrap();
    assert_eq!(cpu.dreg(0), 0x0f0e);
    cpu.write16(0x404, 0xc041); // and.w D1,D0
    cpu.step().unwrap();
    assert_eq!(cpu.dreg(0), 0x0000);
    assert_eq!(cpu.sr() & 0x4, 0x4, "Z from the AND result");
    cpu.set_dreg(2, 0x30);
    cpu.set_areg(0, 0x1000);
    cpu.write16(0x406, 0xd1c2); // adda.l D2,A0
    cpu.step().unwrap();
    assert_eq!(cpu.areg(0), 0x1030);
    cpu.write16(0x408, 0x91c2); // suba.l D2,A0
    cpu.step().unwrap();
    assert_eq!(cpu.areg(0), 0x1000);
}

#[test]
fn test_eor_register_into_memory() {
    let mut cpu = boot_at(0x400);
    cpu.write8(0x3000, 0xf0);
    cpu.set_dreg(1, 0x0f);
    cpu.set_areg(0, 0x3000);
    cpu.write16(0x400, 0xb310); // eor.b D1,(A0)
    cpu.step().unwrap();
    assert_eq!(cpu.read8(0x3000), 0xff);
}

#[test]
fn test_move_word_to_address_register() {
    // A word write to An replaces only the low half in this core.
    let mut cpu = boot_at(0x400);
    cpu.set_areg(1, 0xdead0000);
    cpu.set_dreg(0, 0x1234);
    cpu.write16(0x400, 0x3240); // move.w D0,A1
    cpu.step().unwrap();
    assert_eq!(cpu.areg(1), 0xdead1234);
}

#[test]
fn test_subq_word_zero_flag() {
    let mut cpu = boot_at(0x400);
    cpu.set_dreg(0, 0x0003);
    cpu.write16(0x400, 0x5740); // subq.w #3,D0
    cpu.step().unwrap();
    assert_eq!(cpu.dreg(0), 0);
    assert_eq!(cpu.sr() & 0x4, 0x4, "Z set");
}

#[test]
fn test_postincrement_and_immediate_sources() {
    let mut cpu = boot_at(0x400);
    cpu.write32(0x3000, 0x01020304);
    cpu.set_areg(0, 0x3000);
    cpu.write16(0x400, 0x2018); // move.l (A0)+,D0
    cpu.step().unwrap();
    assert_eq!(cpu.dreg(0), 0x01020304);
    assert_eq!(cpu.areg(0), 0x3004);
    cpu.write16(0x402, 0x303c); // move.w #$abcd,D0
    cpu.write16(0x404, 0xabcd);
    cpu.step().unwrap();
    assert_eq!(cpu.dreg(0), 0x0102abcd);
    assert_eq!(cpu.pc(), 0x406);
}
