use x68kemu::bus::Bus;
use x68kemu::cpu::{Cpu, FaultKind};

fn boot() -> Cpu<Bus> {
    Cpu::new(Bus::new())
}

#[test]
fn test_reset_vectors() {
    let mut cpu = boot();
    let image: [u8; 8] = [0x00, 0x10, 0x00, 0x00, 0x00, 0x00, 0x04, 0x00];
    for (i, b) in image.iter().enumerate() {
        cpu.write8(i as u32, *b);
    }
    cpu.reset();
    assert_eq!(cpu.areg(7), 0x00100000);
    assert_eq!(cpu.pc(), 0x00000400);
    assert_eq!(cpu.sr(), 0);
}

#[test]
fn test_moveq_ccr() {
    let mut cpu = boot();
    cpu.set_pc(0x400);
    cpu.write16(0x400, 0x72ff);
    cpu.step().unwrap();
    assert_eq!(cpu.dreg(1), 0xffffffff);
    let sr = cpu.sr();
    assert_eq!(sr & 0x8, 0x8, "N set");
    assert_eq!(sr & 0x4, 0, "Z clear");
    assert_eq!(sr & 0x2, 0, "V clear");
    assert_eq!(sr & 0x1, 0, "C clear");
    assert_eq!(cpu.pc(), 0x402);
}

#[test]
fn test_addq_wrap() {
    let mut cpu = boot();
    cpu.set_dreg(0, 0xffffffff);
    cpu.set_pc(0x400);
    cpu.write16(0x400, 0x5080);
    cpu.step().unwrap();
    assert_eq!(cpu.dreg(0), 0x00000007);
    assert_eq!(cpu.pc(), 0x402);
}

#[test]
fn test_bsr_rts() {
    let mut cpu = boot();
    cpu.set_areg(7, 0x1000);
    cpu.set_pc(0x400);
    cpu.write16(0x400, 0x6110);
    cpu.write16(0x412, 0x4e75);
    cpu.step().unwrap();
    assert_eq!(cpu.areg(7), 0x0ffc);
    assert_eq!(cpu.read32(0x0ffc), 0x00000402);
    assert_eq!(cpu.pc(), 0x412);
    cpu.step().unwrap();
    assert_eq!(cpu.areg(7), 0x1000);
    assert_eq!(cpu.pc(), 0x00000402);
}

#[test]
fn test_dbra_loop_exit() {
    let mut cpu = boot();
    cpu.set_dreg(2, 0x0000);
    cpu.set_pc(0x400);
    cpu.write16(0x400, 0x51ca);
    cpu.write16(0x402, 0xfffe);
    cpu.step().unwrap();
    assert_eq!(cpu.dreg(2), 0x0000ffff);
    assert_eq!(cpu.pc(), 0x404);
}

#[test]
fn test_dbra_loop_taken() {
    let mut cpu = boot();
    cpu.set_dreg(2, 0x0003);
    cpu.set_pc(0x400);
    cpu.write16(0x400, 0x51ca);
    cpu.write16(0x402, 0xfffe);
    cpu.step().unwrap();
    assert_eq!(cpu.dreg(2), 0x0002);
    assert_eq!(cpu.pc(), 0x400);
}

#[test]
fn test_move_b_with_displacement() {
    let mut cpu = boot();
    cpu.set_areg(0, 0x1000);
    cpu.set_dreg(0, 0xaaaaaa55);
    cpu.set_pc(0x400);
    cpu.write16(0x400, 0x1140);
    cpu.write16(0x402, 0x0010);
    cpu.step().unwrap();
    assert_eq!(cpu.pc(), 0x404);
    assert_eq!(cpu.read8(0x1010), 0x55);
    let sr = cpu.sr();
    assert_eq!(sr & 0x4, 0, "Z clear");
    assert_eq!(sr & 0x8, 0, "N clear");
}

#[test]
fn test_cmpi_w_sets_flags() {
    let mut cpu = boot();
    cpu.set_dreg(3, 0x00001234);
    cpu.set_pc(0x400);
    cpu.write16(0x400, 0x0c43);
    cpu.write16(0x402, 0x1234);
    cpu.step().unwrap();
    let sr = cpu.sr();
    assert_eq!(sr & 0x4, 0x4, "Z set");
    assert_eq!(sr & 0x8, 0, "N clear");
    assert_eq!(sr & 0x1, 0, "C clear");
    assert_eq!(sr & 0x2, 0, "V clear");
    assert_eq!(cpu.pc(), 0x404);
}

#[test]
fn test_cmp_b_borrow_and_negative() {
    // CMP.B D0,D1 with D1 < D0: C set, N from the wrapped difference.
    let mut cpu = boot();
    cpu.set_dreg(0, 0x60);
    cpu.set_dreg(1, 0x20);
    cpu.set_pc(0x400);
    cpu.write16(0x400, 0xb200);
    cpu.step().unwrap();
    let sr = cpu.sr();
    assert_eq!(sr & 0x1, 0x1, "C set (borrow)");
    assert_eq!(sr & 0x4, 0, "Z clear");
    assert_eq!(sr & 0x8, 0x8, "N set (0x20 - 0x60 = 0xc0)");
    assert_eq!(sr & 0x2, 0, "V clear");
}

#[test]
fn test_cmp_b_signed_overflow() {
    // 0x80 - 0x01: signed overflow (-128 - 1), positive result byte 0x7f.
    let mut cpu = boot();
    cpu.set_dreg(0, 0x01);
    cpu.set_dreg(1, 0x80);
    cpu.set_pc(0x400);
    cpu.write16(0x400, 0xb200);
    cpu.step().unwrap();
    let sr = cpu.sr();
    assert_eq!(sr & 0x1, 0, "C clear");
    assert_eq!(sr & 0x2, 0x2, "V set");
    assert_eq!(sr & 0x8, 0, "N clear");
}

#[test]
fn test_movem_ordering() {
    // MOVEM.L D0-D7,-(A0) with mask 0x00ff: D7 lands at the lowest address,
    // D0 at the highest, and A0 steps down by 32.
    let mut cpu = boot();
    for i in 0..8 {
        cpu.set_dreg(i, 0x1111_0000 + i as u32);
    }
    cpu.set_areg(0, 0x2000);
    cpu.set_pc(0x400);
    cpu.write16(0x400, 0x48e0);
    cpu.write16(0x402, 0x00ff);
    cpu.step().unwrap();
    assert_eq!(cpu.areg(0), 0x2000 - 32);
    assert_eq!(cpu.read32(0x2000 - 32), 0x1111_0007, "D7 at the lowest address");
    assert_eq!(cpu.read32(0x2000 - 4), 0x1111_0000, "D0 at the highest address");
    assert_eq!(cpu.pc(), 0x404);
}

#[test]
fn test_movem_restore() {
    // MOVEM.L (A0)+,D0-D1 with mask 0x0003 reads ascending longs.
    let mut cpu = boot();
    cpu.write32(0x3000, 0xcafe0001);
    cpu.write32(0x3004, 0xcafe0002);
    cpu.set_areg(0, 0x3000);
    cpu.set_pc(0x400);
    cpu.write16(0x400, 0x4cd8);
    cpu.write16(0x402, 0x0003);
    cpu.step().unwrap();
    assert_eq!(cpu.dreg(0), 0xcafe0001);
    assert_eq!(cpu.dreg(1), 0xcafe0002);
    assert_eq!(cpu.areg(0), 0x3008);
}

#[test]
fn test_branch_predicates() {
    // Drive the CCR to each low nibble and check taken/not-taken per Bcc.
    // Opcodes: bcc/bcs/bne/beq/bpl/bmi/bge/blt/bgt/ble with inline offset 0x10.
    let kinds: [(u16, &str); 10] = [
        (0x6410, "bcc"),
        (0x6510, "bcs"),
        (0x6610, "bne"),
        (0x6710, "beq"),
        (0x6a10, "bpl"),
        (0x6b10, "bmi"),
        (0x6c10, "bge"),
        (0x6d10, "blt"),
        (0x6e10, "bgt"),
        (0x6f10, "ble"),
    ];
    let mut cpu = boot();
    for (op, name) in kinds.iter() {
        for nib in 0u16..16 {
            let c = nib & 1 != 0;
            let v = nib & 2 != 0;
            let z = nib & 4 != 0;
            let n = nib & 8 != 0;
            let expect = match *name {
                "bcc" => !c,
                "bcs" => c,
                "bne" => !z,
                "beq" => z,
                "bpl" => !n,
                "bmi" => n,
                "bge" => (n && v) || (!n && !v),
                "blt" => (n && !v) || (!n && v),
                "bgt" => !z && ((n && v) || (!n && !v)),
                "ble" => z || (n && !v) || (!n && v),
                _ => unreachable!(),
            };
            cpu.set_pc(0x400);
            cpu.set_sr(nib);
            cpu.write16(0x400, *op);
            cpu.step().unwrap();
            let want = if expect { 0x412 } else { 0x402 };
            assert_eq!(cpu.pc(), want, "{} with ccr {:x}", name, nib);
        }
    }
}

#[test]
fn test_bra_word_offset() {
    let mut cpu = boot();
    cpu.set_pc(0x400);
    cpu.write16(0x400, 0x6000);
    cpu.write16(0x402, 0xff00);
    cpu.step().unwrap();
    assert_eq!(cpu.pc(), 0x402u32.wrapping_add(0xffffff00));
}

#[test]
fn test_unknown_opcode_fault() {
    let mut cpu = boot();
    cpu.set_pc(0x400);
    cpu.write16(0x400, 0xffff);
    let f = cpu.step().unwrap_err();
    assert_eq!(f.kind, FaultKind::UnknownOpcode);
    assert_eq!(f.pc, 0x400);
    assert_eq!(f.op, 0xffff);
}

#[test]
fn test_unsupported_form_fault() {
    // JSR (d16,An) is not implemented by this core.
    let mut cpu = boot();
    cpu.set_pc(0x400);
    cpu.write16(0x400, 0x4e98);
    let f = cpu.step().unwrap_err();
    assert_eq!(f.kind, FaultKind::Unsupported);
    assert_eq!(f.pc, 0x400);
    assert_eq!(f.op, 0x4e98);
}

#[test]
fn test_unsupported_ea_fault() {
    // MOVE.B -(A0),D0: a byte read through predecrement is not implemented.
    let mut cpu = boot();
    cpu.set_pc(0x400);
    cpu.write16(0x400, 0x1020);
    let f = cpu.step().unwrap_err();
    assert_eq!(f.kind, FaultKind::Unsupported);
}

#[test]
fn test_ea_roundtrip_modes() {
    // Write then read through data register direct, address indirect,
    // postincrement, and displacement forms.
    let mut cpu = boot();
    cpu.set_dreg(3, 0xdeadbeef);
    assert!(cpu.write_destination8(0, 3, 0x42));
    assert_eq!(cpu.read_source8(0, 3), Some(0x42));
    assert_eq!(cpu.dreg(3), 0xdeadbe42, "upper bytes preserved");

    cpu.set_areg(0, 0x3000);
    assert!(cpu.write_destination16(2, 0, 0x1234));
    assert_eq!(cpu.read_source16(2, 0), Some(0x1234));

    cpu.set_areg(1, 0x3100);
    assert!(cpu.write_destination32(3, 1, 0xcafef00d));
    assert_eq!(cpu.areg(1), 0x3104);
    cpu.set_areg(1, 0x3100);
    assert_eq!(cpu.read_source32(3, 1), Some(0xcafef00d));
    assert_eq!(cpu.areg(1), 0x3104);

    cpu.set_areg(2, 0x3200);
    cpu.set_pc(0x500);
    cpu.write16(0x500, 0x0010);
    assert!(cpu.write_destination8(5, 2, 0x7f));
    assert_eq!(cpu.pc(), 0x502);
    assert_eq!(cpu.read8(0x3210), 0x7f);
    cpu.set_pc(0x500);
    assert_eq!(cpu.read_source8(5, 2), Some(0x7f));
}

#[test]
fn test_partial_width_preservation() {
    // MOVE.B and MOVE.W into Dn keep the unaffected upper bits.
    let mut cpu = boot();
    cpu.set_dreg(4, 0x11223344);
    cpu.set_dreg(5, 0x55667788);
    cpu.set_pc(0x400);
    cpu.write16(0x400, 0x1805); // move.b D5,D4
    cpu.step().unwrap();
    assert_eq!(cpu.dreg(4), 0x11223388);
    cpu.set_pc(0x402);
    cpu.write16(0x402, 0x3805); // move.w D5,D4
    cpu.step().unwrap();
    assert_eq!(cpu.dreg(4), 0x11227788);
}

#[test]
fn test_mulu_word() {
    let mut cpu = boot();
    cpu.set_dreg(0, 0x0000ffff);
    cpu.set_dreg(1, 0xffff_ffff);
    cpu.set_pc(0x400);
    cpu.write16(0x400, 0xc2c0); // mulu.w D0,D1
    cpu.step().unwrap();
    assert_eq!(cpu.dreg(1), 0xffff * 0xffff);
}

#[test]
fn test_swap_and_ext() {
    let mut cpu = boot();
    cpu.set_dreg(0, 0x12345678);
    cpu.set_pc(0x400);
    cpu.write16(0x400, 0x4840); // swap D0
    cpu.step().unwrap();
    assert_eq!(cpu.dreg(0), 0x56781234);
    cpu.set_dreg(1, 0xaaaa00e5);
    cpu.set_pc(0x402);
    cpu.write16(0x402, 0x4881); // ext.w D1
    cpu.step().unwrap();
    assert_eq!(cpu.dreg(1), 0xaaaaffe5);
}

#[test]
fn test_lsr_byte_flags() {
    let mut cpu = boot();
    cpu.set_dreg(0, 0x00000001);
    cpu.set_pc(0x400);
    cpu.write16(0x400, 0xe208); // lsr.b #1,D0
    cpu.step().unwrap();
    assert_eq!(cpu.dreg(0), 0);
    let sr = cpu.sr();
    assert_eq!(sr & 0x1, 0x1, "C from the shifted-out bit");
    assert_eq!(sr & 0x10, 0x10, "X from the shifted-out bit");
    assert_eq!(sr & 0x4, 0x4, "Z set");
}

#[test]
fn test_trap_vector() {
    let mut cpu = boot();
    cpu.set_areg(7, 0x1000);
    cpu.write32(0x80 + 4 * 5, 0x00002000);
    cpu.set_pc(0x400);
    cpu.write16(0x400, 0x4e45); // trap #5
    cpu.step().unwrap();
    assert_eq!(cpu.pc(), 0x2000);
    assert_eq!(cpu.areg(7), 0xffc);
    assert_eq!(cpu.read32(0xffc), 0x402);
}

#[test]
fn test_run_cycles_batch() {
    let mut cpu = boot();
    cpu.set_pc(0x400);
    cpu.write16(0x400, 0x4e71); // nop
    cpu.write16(0x402, 0x7001); // moveq #1,D0
    cpu.write16(0x404, 0x4e71); // nop
    cpu.run_cycles(3).unwrap();
    assert_eq!(cpu.pc(), 0x406);
    assert_eq!(cpu.dreg(0), 1);
}

#[test]
fn test_andi_to_sr() {
    // ANDI.W #imm,SR through the (7,4) addressing pair.
    let mut cpu = boot();
    cpu.set_sr(0x001f);
    cpu.set_pc(0x400);
    cpu.write16(0x400, 0x027c);
    cpu.write16(0x402, 0x0011);
    cpu.step().unwrap();
    // The masked value 0x11 then has N,Z,V,C rewritten from the result,
    // clearing its low nibble since the result is positive and nonzero.
    assert_eq!(cpu.sr(), 0x0010);
    assert_eq!(cpu.pc(), 0x404);
}

#[test]
fn test_cmp_flag_grid() {
    // CMP across a sampled grid at each size: the CCR equals the reference
    // formulas C = dst <u src, Z = dst == src, N = sign of the difference,
    // V = ((src XOR dst) AND (res XOR dst)) sign bit.
    let grid: [u32; 7] = [0, 1, 0x7f, 0x80, 0xff, 0x7fff_ffff, 0xffff_ffff];
    let mut cpu = boot();
    for &x in grid.iter() {
        for &y in grid.iter() {
            // Byte size.
            cpu.set_dreg(0, x);
            cpu.set_dreg(1, y);
            cpu.set_sr(0);
            cpu.set_pc(0x400);
            cpu.write16(0x400, 0xb200); // cmp.b D0,D1
            cpu.step().unwrap();
            let (src, dst) = ((x & 0xff) as u8, (y & 0xff) as u8);
            let res = dst.wrapping_sub(src);
            let mut want = 0u16;
            if dst < src {
                want |= 1;
            }
            if ((src ^ dst) & (res ^ dst)) >= 0x80 {
                want |= 2;
            }
            if dst == src {
                want |= 4;
            }
            if res >= 0x80 {
                want |= 8;
            }
            assert_eq!(cpu.sr(), want, "cmp.b {:#x} {:#x}", src, dst);

            // Word size.
            cpu.set_sr(0);
            cpu.set_pc(0x400);
            cpu.write16(0x400, 0xb240); // cmp.w D0,D1
            cpu.step().unwrap();
            let (src, dst) = ((x & 0xffff) as u16, (y & 0xffff) as u16);
            let res = dst.wrapping_sub(src);
            let mut want = 0u16;
            if dst < src {
                want |= 1;
            }
            if ((src ^ dst) & (res ^ dst)) >= 0x8000 {
                want |= 2;
            }
            if dst == src {
                want |= 4;
            }
            if res >= 0x8000 {
                want |= 8;
            }
            assert_eq!(cpu.sr(), want, "cmp.w {:#x} {:#x}", src, dst);

            // Long size.
            cpu.set_sr(0);
            cpu.set_pc(0x400);
            cpu.write16(0x400, 0xb280); // cmp.l D0,D1
            cpu.step().unwrap();
            let (src, dst) = (x, y);
            let res = dst.wrapping_sub(src);
            let mut want = 0u16;
            if dst < src {
                want |= 1;
            }
            if ((src ^ dst) & (res ^ dst)) >= 0x8000_0000 {
                want |= 2;
            }
            if dst == src {
                want |= 4;
            }
            if res >= 0x8000_0000 {
                want |= 8;
            }
            assert_eq!(cpu.sr(), want, "cmp.l {:#x} {:#x}", src, dst);
        }
    }
}
