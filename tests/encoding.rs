use riscy_rust::bits::match_mask;
use riscy_rust::ext::decode::{enumerate_extension, DecodeCycle, Found};
use riscy_rust::ext::encoding::{
    BType, GenInstruction, IType, ImmediateMode, JType, RType, SType, UType,
};
use riscy_rust::ext::i::{ExtensionI, IMM, LUI, SHIFTI};
use riscy_rust::ext::m::{ExtensionM, MULW};
use riscy_rust::ext::z::{ExtensionZ, CSRRW};
use riscy_rust::helpers::sext;

#[test]
fn sext_widens_negative_values() {
    assert_eq!(sext(0x800, 12), 0xFFFF_F800);
    assert_eq!(sext(0xFFF, 12), 0xFFFF_FFFF);
    assert_eq!(sext(0x7FF, 12), 0x7FF);
    assert_eq!(sext(0x8_0000, 20), 0xFFF8_0000);
    assert_eq!(sext(0x80, 8), 0xFFFF_FF80);
    assert_eq!(sext(1, 1), 0xFFFF_FFFF);
    assert_eq!(sext(2, 1), 0);
}

#[test]
fn sext_drops_bits_above_the_width() {
    assert_eq!(sext(0xABC0_0123, 12), 0x123);
    assert_eq!(sext(0xABC0_0923, 12), 0xFFFF_F923);
}

#[test]
fn sext_is_idempotent_and_full_width_is_identity() {
    for &v in &[0u32, 1, 0x7FF, 0x800, 0xFFFF_FFFF, 0x8000_0000, 0x1234_5678] {
        for len in 1..=32usize {
            let once = sext(v, len);
            assert_eq!(sext(once, len), once);
        }
        assert_eq!(sext(v, 32), v);
    }
}

#[test]
fn all_wildcard_template_matches_everything() {
    let t = "xxxxxxxxxxxxxxxxxxxxxxxxxxxxxxxx";
    for &w in &[0u32, 0xFFFF_FFFF, 0x1234_5678, 0x8000_0001] {
        assert!(match_mask(w, t));
    }
}

#[test]
fn template_literals_must_agree() {
    let t = "xxxxxxxxxxxxxxxxxxxxxxxxx0110111";
    assert!(match_mask(0x1234_52B7, t));
    assert!(!match_mask(0x1234_52B3, t));
    let t2 = "1xxxxxxxxxxxxxxxxxxxxxxxxxxxxxx0";
    assert!(match_mask(0x8000_0000, t2));
    assert!(!match_mask(0x8000_0001, t2));
    assert!(!match_mask(0x0000_0000, t2));
}

#[test]
fn template_ignores_wildcard_bits() {
    let t = "0x00000xxxxxxxxxx001xxxxx0010011";
    let base: u32 = 0x0010_1093;
    assert!(match_mask(base, t));
    assert!(match_mask(base | 0x4000_0000, t));
    assert!(match_mask(base ^ 0x000F_8F80, t));
    assert!(!match_mask(base | 0x8000_0000, t));
}

#[test]
fn first_declared_variant_wins_within_extension() {
    // ADDI matches IMM; SLLI matches SHIFTI; their templates are disjoint.
    assert_eq!(enumerate_extension::<ExtensionI>(0x00A0_8113), Some(ExtensionI::IMM(IMM)));
    assert_eq!(enumerate_extension::<ExtensionI>(0x0030_9093), Some(ExtensionI::SHIFTI(SHIFTI)));
    assert_eq!(enumerate_extension::<ExtensionI>(0), None);
}

#[test]
fn search_goes_through_extensions_in_order() {
    let mul: u32 = 0x0220_81B3; // mul x3, x1, x2
    let csrrw: u32 = 0x3403_12F3; // csrrw x5, mscratch, x6
    let lui: u32 = 0x1234_52B7;
    let d = DecodeCycle::new(vec!['z', 'm', 'i']);
    assert_eq!(d.find(mul), Some(Found::M(ExtensionM::MULW(MULW))));
    assert_eq!(d.find(csrrw), Some(Found::Z(ExtensionZ::CSRRW(CSRRW))));
    assert_eq!(d.find(lui), Some(Found::I(ExtensionI::LUI(LUI))));
    let base_only = DecodeCycle::new(vec!['i']);
    assert_eq!(base_only.find(mul), None);
    assert_eq!(base_only.find(csrrw), None);
}

#[test]
fn unknown_extensions_are_skipped() {
    let d = DecodeCycle::new(vec!['q', 'i']);
    assert_eq!(d.find(0x1234_52B7), Some(Found::I(ExtensionI::LUI(LUI))));
    let none = DecodeCycle::new(vec!['q', 'f']);
    assert_eq!(none.find(0x1234_52B7), None);
}

#[test]
fn r_and_i_fields() {
    // add x3, x1, x2
    let r = RType(0x0020_81B3);
    assert_eq!((r.opcode(), r.rd(), r.funct3(), r.rs1(), r.rs2(), r.funct7()), (0x33, 3, 0, 1, 2, 0));
    // addi x2, x1, -1
    let i = IType(0xFFF0_8113);
    assert_eq!((i.opcode(), i.rd(), i.funct3(), i.rs1(), i.imm()), (0x13, 2, 0, 1, 0xFFF));
    assert_eq!(i.full_imm(), 0xFFF);
    assert_eq!(i.sext_imm(), 0xFFFF_FFFF);
}

#[test]
fn s_immediate_reassembles() {
    // sw x2, -8(x1)
    let s = SType(0xFE20_AC23);
    assert_eq!((s.funct3(), s.rs1(), s.rs2()), (2, 1, 2));
    assert_eq!(s.full_imm(), 0xFF8);
    assert_eq!(s.sext_imm(), (-8i32) as u32);
}

#[test]
fn b_immediate_reassembles() {
    // beq x1, x2, 8
    let b = BType(0x0020_8463);
    assert_eq!(b.full_imm(), 4);
    assert_eq!(b.sext_imm() << 1, 8);
    // beq x0, x0, -4
    let back = BType(0xFE00_0EE3);
    assert_eq!(back.sext_imm() << 1, (-4i32) as u32);
    // bne x1, x2, 2048 (imm[11] set)
    let far = BType(0x0020_90E3);
    assert_eq!(far.sext_imm() << 1, 2048);
}

#[test]
fn u_and_j_immediates() {
    let u = UType(0x1234_52B7);
    assert_eq!((u.opcode(), u.rd(), u.full_imm()), (0x37, 5, 0x12345));
    // jal x1, 8
    let j = JType(0x0080_00EF);
    assert_eq!((j.rd(), j.full_imm()), (1, 4));
    // jal x0, -8
    let back = JType(0xFF9F_F06F);
    assert_eq!(back.sext_imm() << 1, (-8i32) as u32);
    // jal x0, 0x800 (imm[11] set)
    let mid = JType(0x0010_006F);
    assert_eq!(mid.sext_imm() << 1, 0x800);
}

#[test]
fn views_alias_one_word() {
    let g = GenInstruction { inst: 0x0020_81B3 };
    assert_eq!(g.r().0, g.i().0);
    assert_eq!(g.null().opcode(), 0x33);
    assert_eq!(g.u().0, 0x0020_81B3);
    assert_eq!(g.s().rs2(), 2);
    assert_eq!(g.b().rs1(), 1);
    assert_eq!(g.j().rd(), 3);
}
