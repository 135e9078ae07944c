use x68kemu::arith::{glue16, glue32, replace_byte, replace_word, sign_extend8, sign_extend16, split16, split32};
use x68kemu::util::conv07to18;

#[test]
fn test_shift_byte() {
    let b: u8 = 0xa5;
    assert_eq!(0x28 as u8, b << 3);
    assert_eq!(0x29 as u8, b >> 2);
}

#[test]
fn test_replace_byte() {
    assert_eq!(0x123456ab, replace_byte(0x12345678, 0xab));
}

#[test]
fn test_replace_word() {
    assert_eq!(0x1234abcd, replace_word(0x12345678, 0xabcd));
}

#[test]
fn test_conv07to18() {
    assert_eq!(8, conv07to18(0));
    assert_eq!(1, conv07to18(1));
    assert_eq!(7, conv07to18(7));
}

#[test]
fn test_split_glue_roundtrip() {
    let (hi, lo) = split16(0xbeef);
    assert_eq!(hi, 0xbe);
    assert_eq!(lo, 0xef);
    assert_eq!(glue16(hi, lo), 0xbeef);
    let (b3, b2, b1, b0) = split32(0x00100400);
    assert_eq!((b3, b2, b1, b0), (0x00, 0x10, 0x04, 0x00));
    assert_eq!(glue32(b3, b2, b1, b0), 0x00100400);
}

#[test]
fn test_sign_extension() {
    assert_eq!(sign_extend8(0x7f), 0x0000007f);
    assert_eq!(sign_extend8(0x80), 0xffffff80);
    assert_eq!(sign_extend8(0xff), 0xffffffff);
    assert_eq!(sign_extend16(0x7fff), 0x00007fff);
    assert_eq!(sign_extend16(0xfffe), 0xfffffffe);
}
