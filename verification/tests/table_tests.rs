use x68kemu::opcode::{classify, Opcode, OpTable};

#[test]
fn test_classify_selected_encodings() {
    assert_eq!(classify(0x4e71), Opcode::Nop);
    assert_eq!(classify(0x4e70), Opcode::Reset);
    assert_eq!(classify(0x4e73), Opcode::Rte);
    assert_eq!(classify(0x4e75), Opcode::Rts);
    assert_eq!(classify(0x46fc), Opcode::MoveToSr);
    assert_eq!(classify(0x1000), Opcode::MoveByte);
    assert_eq!(classify(0x2000), Opcode::MoveLong);
    assert_eq!(classify(0x3000), Opcode::MoveWord);
    assert_eq!(classify(0x7000), Opcode::Moveq);
    assert_eq!(classify(0x7100), Opcode::Unknown);
    assert_eq!(classify(0x48e0), Opcode::MovemFrom);
    assert_eq!(classify(0x4cd8), Opcode::MovemTo);
    assert_eq!(classify(0x41f9), Opcode::LeaDirect);
    assert_eq!(classify(0x43f9), Opcode::LeaDirect);
    assert_eq!(classify(0x41e8), Opcode::LeaOffset);
    assert_eq!(classify(0x41f0), Opcode::LeaOffsetD);
    assert_eq!(classify(0x41fa), Opcode::LeaOffsetPc);
    assert_eq!(classify(0x5080), Opcode::AddqLong);
    assert_eq!(classify(0x503a), Opcode::Unknown);
    assert_eq!(classify(0x51c8), Opcode::Dbra);
    assert_eq!(classify(0x6000), Opcode::Bra);
    assert_eq!(classify(0x6100), Opcode::Bsr);
    assert_eq!(classify(0x6700), Opcode::Beq);
    assert_eq!(classify(0x6200), Opcode::Unknown);
    assert_eq!(classify(0xb108), Opcode::CmpmByte);
    assert_eq!(classify(0xb100), Opcode::EorByte);
    assert_eq!(classify(0xb1c0), Opcode::CmpaLong);
    assert_eq!(classify(0xc0c0), Opcode::MuluWord);
    assert_eq!(classify(0xd1c0), Opcode::AddaLong);
    assert_eq!(classify(0xe058), Opcode::RorImWord);
    assert_eq!(classify(0xe008), Opcode::LsrImByte);
    assert_eq!(classify(0xe178), Opcode::RolWord);
    assert_eq!(classify(0x00e8), Opcode::Cmp2Byte);
    assert_eq!(classify(0x0c43), Opcode::CmpiWord);
    assert_eq!(classify(0xf000), Opcode::Unknown);
    assert_eq!(classify(0xa000), Opcode::Unknown);
}

#[test]
fn test_table_matches_classify() {
    let t = OpTable::new();
    for op in [0u16, 0x4e71, 0x72ff, 0x5080, 0x6110, 0x51ca, 0x1180, 0x0c43, 0xffff] {
        assert_eq!(t.lookup(op), classify(op));
    }
}

#[test]
fn test_every_tag_has_an_encoding() {
    // One witness per implemented family, through the table itself.
    let t = OpTable::new();
    let witnesses: [(u16, Opcode); 12] = [
        (0x0000, Opcode::OriByte),
        (0x0240, Opcode::AndiWord),
        (0x01c0, Opcode::Bset),
        (0x0800, Opcode::BtstIm),
        (0x4200, Opcode::ClrByte),
        (0x4840, Opcode::Swap),
        (0x4880, Opcode::ExtWord),
        (0x4a00, Opcode::TstByte),
        (0x4e40, Opcode::Trap),
        (0x4e90, Opcode::JsrA),
        (0x9000, Opcode::SubByte),
        (0xe148, Opcode::LslImWord),
    ];
    for (op, tag) in witnesses.iter() {
        assert_eq!(t.lookup(*op), *tag);
    }
}
