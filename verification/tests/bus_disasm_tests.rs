use x68kemu::bus::{Bus, BusTrait};
use x68kemu::cpu::Cpu;
use x68kemu::disasm::disasm;
use x68kemu::vram::Vram;
use x68kemu::x68k::{new_cpu, X68k};

#[test]
fn test_endian_roundtrip() {
    let mut bus = Bus::new();
    bus.write8(0x1234, 0xab);
    assert_eq!(bus.read8(0x1234), 0xab);
    bus.write16(0x2000, 0xbeef);
    assert_eq!(bus.read16(0x2000), 0xbeef);
    assert_eq!(bus.read8(0x2000), 0xbe, "most significant byte first");
    assert_eq!(bus.read8(0x2001), 0xef);
    bus.write32(0x3000, 0x00100400);
    assert_eq!(bus.read32(0x3000), 0x00100400);
    assert_eq!(bus.read8(0x3000), 0x00);
    assert_eq!(bus.read8(0x3001), 0x10);
    assert_eq!(bus.read8(0x3002), 0x04);
    assert_eq!(bus.read8(0x3003), 0x00);
}

#[test]
fn test_bus_masks_high_address_bits() {
    let mut bus = Bus::new();
    bus.write8(0xff001234, 0x5a);
    assert_eq!(bus.read8(0x00001234), 0x5a);
}

#[test]
fn test_disasm_lengths_match_interpreter() {
    // For each program, the disassembled byte length equals the interpreter's
    // program-counter advance on the fall-through path.
    let mut cpu = Cpu::new(Bus::new());
    let programs: [&[u16]; 6] = [
        &[0x4e71],          // nop
        &[0x72ff],          // moveq #-1,D1
        &[0x5080],          // addq.l #8,D0
        &[0x1140, 0x0010],  // move.b D0,(16,A0)
        &[0x0c43, 0x1234],  // cmpi.w #$1234,D3
        &[0x23c0, 0x0000, 0x5000], // move.l D0,$5000.l
    ];
    let mut at: u32 = 0x400;
    for prog in programs.iter() {
        for (i, w) in prog.iter().enumerate() {
            cpu.write16(at + 2 * i as u32, *w);
        }
        let (len, _text) = disasm(&cpu.bus, at);
        cpu.set_areg(0, 0x1000);
        cpu.set_pc(at);
        cpu.step().unwrap();
        assert_eq!(cpu.pc(), at + len as u32);
        at += 0x100;
    }
}

#[test]
fn test_disasm_text() {
    let mut cpu = Cpu::new(Bus::new());
    cpu.write16(0x400, 0x4e71);
    assert_eq!(disasm(&cpu.bus, 0x400), (2, "nop".to_string()));
    cpu.write16(0x400, 0x72ff);
    assert_eq!(disasm(&cpu.bus, 0x400), (2, "moveq   #-$1, D1".to_string()));
    cpu.write16(0x400, 0x1140);
    cpu.write16(0x402, 0x0010);
    assert_eq!(disasm(&cpu.bus, 0x400), (4, "move.b  D0, ($10,A0)".to_string()));
    cpu.write16(0x400, 0x1180);
    assert_eq!(disasm(&cpu.bus, 0x400), (4, "move.b  D0, ($10,A0,D0.w)".to_string()));
    cpu.write16(0x400, 0x0c43);
    cpu.write16(0x402, 0x1234);
    assert_eq!(disasm(&cpu.bus, 0x400), (4, "cmpi.w  #$1234, D3".to_string()));
    cpu.write16(0x400, 0x48e0);
    cpu.write16(0x402, 0x00ff);
    assert_eq!(disasm(&cpu.bus, 0x400), (4, "movem.l D0-D7, -(A0)".to_string()));
    cpu.write16(0x400, 0x4cd8);
    cpu.write16(0x402, 0x0f0f);
    assert_eq!(disasm(&cpu.bus, 0x400), (4, "movem.l (A0)+, D0-D3/A0-A3".to_string()));
    cpu.write16(0x400, 0x4e45);
    assert_eq!(disasm(&cpu.bus, 0x400), (2, "trap    #$5".to_string()));
    cpu.write16(0x400, 0xffff);
    assert_eq!(disasm(&cpu.bus, 0x400).1, "**Unknown**".to_string());
}

#[test]
fn test_vram_planes() {
    let mut v = Vram::new();
    assert_eq!(v.read_graphic(0x1000), 0);
    v.write_graphic(0x1000, 0x7e);
    assert_eq!(v.read_graphic(0x1000), 0x7e);
    v.write_text(0x42, 0x99);
    assert_eq!(v.read_text(0x42), 0x99);
    assert_eq!(v.read_graphic(0x42), 0);
}

#[test]
fn test_new_cpu_boots_from_image() {
    // Reset vectors at the head of the image: A7 then PC, then a moveq.
    let mut rom: Vec<u8> = vec![
        0x00, 0x10, 0x00, 0x00, // initial A7
        0x00, 0x00, 0x00, 0x08, // initial PC
        0x72, 0x2a, // moveq #$2a,D1
    ];
    rom.push(0x4e);
    rom.push(0x71);
    let mut cpu = new_cpu(rom);
    assert_eq!(cpu.areg(7), 0x00100000);
    assert_eq!(cpu.pc(), 0x8);
    cpu.step().unwrap();
    assert_eq!(cpu.dreg(1), 0x2a);
}

#[test]
fn test_x68k_update() {
    let rom: Vec<u8> = vec![
        0x00, 0x10, 0x00, 0x00, // initial A7
        0x00, 0x00, 0x00, 0x08, // initial PC
        0x70, 0x07, // moveq #7,D0
        0x4e, 0x71, // nop
    ];
    let mut m = X68k::new(rom);
    m.update(2).unwrap();
    assert_eq!(m.cpu.dreg(0), 7);
    assert_eq!(m.cpu.pc(), 0xc);
}
