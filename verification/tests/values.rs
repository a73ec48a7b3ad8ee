use bad64::Condition;
use bad64::FlagEffect;
use bad64::Imm;
use bad64::Reg;
use bad64::Shift;
use bad64::dec_string;
use bad64::hex_string;

#[test]
fn digit_strings() {
    assert_eq!(dec_string(0), "0");
    assert_eq!(dec_string(7), "7");
    assert_eq!(dec_string(30), "30");
    assert_eq!(dec_string(4294967295), "4294967295");
    assert_eq!(hex_string(0), "0");
    assert_eq!(hex_string(255), "ff");
    assert_eq!(hex_string(0x41), "41");
    assert_eq!(hex_string(0xdeadbeef), "deadbeef");
    assert_eq!(hex_string(u64::MAX), "ffffffffffffffff");
}

#[test]
fn reg_names_general() {
    assert_eq!(Reg { ord: 1 }.name(), "w0");
    assert_eq!(Reg { ord: 31 }.name(), "w30");
    assert_eq!(Reg { ord: 32 }.name(), "wzr");
    assert_eq!(Reg { ord: 33 }.name(), "wsp");
    assert_eq!(Reg { ord: 34 }.name(), "x0");
    assert_eq!(Reg { ord: 62 }.name(), "x28");
    assert_eq!(Reg { ord: 63 }.name(), "fp");
    assert_eq!(Reg { ord: 64 }.name(), "lr");
    assert_eq!(Reg { ord: 65 }.name(), "xzr");
    assert_eq!(Reg { ord: 66 }.name(), "sp");
}

#[test]
fn reg_names_vector() {
    assert_eq!(Reg { ord: 67 }.name(), "v0");
    assert_eq!(Reg { ord: 98 }.name(), "v31");
    assert_eq!(Reg { ord: 99 }.name(), "b0");
    assert_eq!(Reg { ord: 162 }.name(), "h31");
    assert_eq!(Reg { ord: 163 }.name(), "s0");
    assert_eq!(Reg { ord: 226 }.name(), "d31");
    assert_eq!(Reg { ord: 227 }.name(), "q0");
    assert_eq!(Reg { ord: 258 }.name(), "q31");
    // byte elements start at 259, sixteen per vector
    assert_eq!(Reg { ord: 259 }.name(), "v0.b[0]");
    assert_eq!(Reg { ord: 259 + 16 * 3 + 7 }.name(), "v3.b[7]");
    assert_eq!(Reg { ord: 770 }.name(), "v31.b[15]");
    assert_eq!(Reg { ord: 771 }.name(), "v0.h[0]");
    assert_eq!(Reg { ord: 1027 }.name(), "v0.s[0]");
    assert_eq!(Reg { ord: 1155 }.name(), "v0.d[0]");
    assert_eq!(Reg { ord: 1218 }.name(), "v31.d[1]");
    assert_eq!(Reg { ord: 1219 }.name(), "z0");
    assert_eq!(Reg { ord: 1250 }.name(), "z31");
    assert_eq!(Reg { ord: 1251 }.name(), "p0");
    assert_eq!(Reg { ord: 1282 }.name(), "p31");
    assert_eq!(Reg { ord: 1315 }.name(), "zt0");
}

#[test]
fn reg_names_prefetch() {
    assert_eq!(Reg { ord: 1283 }.name(), "pldl1keep");
    assert_eq!(Reg { ord: 1284 }.name(), "pldl1strm");
    assert_eq!(Reg { ord: 1285 }.name(), "pldl2keep");
    assert_eq!(Reg { ord: 1288 }.name(), "pldl3strm");
    assert_eq!(Reg { ord: 1289 }.name(), "#0x6");
    assert_eq!(Reg { ord: 1290 }.name(), "#0x7");
    assert_eq!(Reg { ord: 1291 }.name(), "plil1keep");
    assert_eq!(Reg { ord: 1299 }.name(), "pstl1keep");
    assert_eq!(Reg { ord: 1304 }.name(), "pstl3strm");
    assert_eq!(Reg { ord: 1305 }.name(), "#0x16");
    assert_eq!(Reg { ord: 1314 }.name(), "#0x1f");
}

#[test]
fn reg_names_out_of_range() {
    assert_eq!(Reg { ord: 0 }.name(), "");
    assert_eq!(Reg { ord: 1316 }.name(), "");
    assert_eq!(Reg { ord: 99999 }.name(), "");
}

#[test]
fn reg_sizes() {
    assert_eq!(Reg { ord: 34 }.size(), 8); // x0
    assert_eq!(Reg { ord: 66 }.size(), 8); // sp
    assert_eq!(Reg { ord: 1 }.size(), 4); // w0
    assert_eq!(Reg { ord: 67 }.size(), 16); // v0
    assert_eq!(Reg { ord: 99 }.size(), 1); // b0
    assert_eq!(Reg { ord: 131 }.size(), 2); // h0
    assert_eq!(Reg { ord: 163 }.size(), 4); // s0
    assert_eq!(Reg { ord: 195 }.size(), 8); // d0
    assert_eq!(Reg { ord: 227 }.size(), 16); // q0
    assert_eq!(Reg { ord: 259 }.size(), 1); // v0.b[0]
    assert_eq!(Reg { ord: 1219 }.size(), 0); // z0: the width table leaves it unsized
    assert_eq!(Reg { ord: 1251 }.size(), 0); // p0
    assert_eq!(Reg { ord: 1315 }.size(), 64); // zt0
    assert_eq!(Reg { ord: 0 }.size(), 0);
}

#[test]
fn reg_class_predicates() {
    assert_eq!(Reg { ord: 67 }.is_simd(), true); // v0
    assert_eq!(Reg { ord: 195 }.is_simd(), false); // d0
    assert_eq!(Reg { ord: 34 }.is_simd(), false); // x0
    assert_eq!(Reg { ord: 1219 }.is_simd(), false); // z0
    assert_eq!(Reg { ord: 1251 }.is_simd(), false); // p0
    assert_eq!(Reg { ord: 1219 }.is_sve(), true);
    assert_eq!(Reg { ord: 67 }.is_sve(), false);
    assert_eq!(Reg { ord: 1251 }.is_pred(), true);
    assert_eq!(Reg { ord: 1282 }.is_pred(), true);
    assert_eq!(Reg { ord: 1283 }.is_pred(), false); // first prefetch ordinal
    assert_eq!(Reg { ord: 1219 }.is_pred(), false);
}

#[test]
fn reg_from_u32_bounds() {
    assert_eq!(Reg::from_u32(0), None);
    assert_eq!(Reg::from_u32(1), Some(Reg { ord: 1 }));
    assert_eq!(Reg::from_u32(1315), Some(Reg { ord: 1315 }));
    assert_eq!(Reg::from_u32(1316), None);
}

#[test]
fn shift_render() {
    assert_eq!(Shift::LSL(0).render(), "lsl #0x0");
    assert_eq!(Shift::LSL(12).render(), "lsl #0xc");
    assert_eq!(Shift::LSR(2).render(), "lsr #0x2");
    assert_eq!(Shift::ASR(63).render(), "asr #0x3f");
    assert_eq!(Shift::ROR(1).render(), "ror #0x1");
    assert_eq!(Shift::UXTW(4).render(), "uxtw #0x4");
    assert_eq!(Shift::SXTW(0).render(), "sxtw #0x0");
    assert_eq!(Shift::SXTX(3).render(), "sxtx #0x3");
    assert_eq!(Shift::UXTX(0).render(), "uxtx #0x0");
    assert_eq!(Shift::SXTB(0).render(), "sxtb #0x0");
    assert_eq!(Shift::SXTH(0).render(), "sxth #0x0");
    assert_eq!(Shift::UXTH(0).render(), "uxth #0x0");
    assert_eq!(Shift::UXTB(0).render(), "uxtb #0x0");
    assert_eq!(Shift::MSL(8).render(), "msl #0x8");
}

#[test]
fn condition_codes() {
    assert_eq!(Condition::from_u32(0), Some(Condition::EQ));
    assert_eq!(Condition::from_u32(1), Some(Condition::NE));
    assert_eq!(Condition::from_u32(15), Some(Condition::NV));
    assert_eq!(Condition::from_u32(16), None);
    assert_eq!(Condition::EQ.render(), "eq");
    assert_eq!(Condition::CC.render(), "cc");
    assert_eq!(Condition::GT.render(), "gt");
    assert_eq!(Condition::NV.render(), "nv");
}

#[test]
fn imm_construction() {
    assert_eq!(Imm::from_raw(0x41, false), Imm { neg: false, val: 0x41 });
    assert_eq!(Imm::from_raw(0x41, true), Imm { neg: false, val: 0x41 });
    // two's-complement -16
    assert_eq!(
        Imm::from_raw(0xffff_ffff_ffff_fff0, true),
        Imm { neg: true, val: 0x10 }
    );
    // the same pattern unsigned keeps its value
    assert_eq!(
        Imm::from_raw(0xffff_ffff_ffff_fff0, false),
        Imm { neg: false, val: 0xffff_ffff_ffff_fff0 }
    );
    // zero stays non-negative whatever the flag says
    assert_eq!(Imm::from_raw(0, true), Imm { neg: false, val: 0 });
    // the most negative value is its own negation
    assert_eq!(
        Imm::from_raw(0x8000_0000_0000_0000, true),
        Imm { neg: true, val: 0x8000_0000_0000_0000 }
    );
}

#[test]
fn imm_render() {
    assert_eq!(Imm { neg: false, val: 0x41 }.render(), "0x41");
    assert_eq!(Imm { neg: true, val: 0x10 }.render(), "-0x10");
    assert_eq!(Imm { neg: false, val: 0 }.render(), "0x0");
    assert_eq!(
        Imm { neg: true, val: 0x8000_0000_0000_0000 }.render(),
        "-0x8000000000000000"
    );
}

#[test]
fn shift_codes() {
    assert_eq!(Shift::from_raw(0, 4), None);
    assert_eq!(Shift::from_raw(1, 12), Some(Shift::LSL(12)));
    assert_eq!(Shift::from_raw(2, 2), Some(Shift::LSR(2)));
    assert_eq!(Shift::from_raw(3, 1), Some(Shift::ASR(1)));
    assert_eq!(Shift::from_raw(4, 0), Some(Shift::ROR(0)));
    assert_eq!(Shift::from_raw(5, 0), Some(Shift::UXTW(0)));
    assert_eq!(Shift::from_raw(6, 0), Some(Shift::SXTW(0)));
    assert_eq!(Shift::from_raw(7, 0), Some(Shift::SXTX(0)));
    assert_eq!(Shift::from_raw(8, 0), Some(Shift::UXTX(0)));
    assert_eq!(Shift::from_raw(9, 0), Some(Shift::SXTB(0)));
    assert_eq!(Shift::from_raw(10, 0), Some(Shift::SXTH(0)));
    assert_eq!(Shift::from_raw(11, 0), Some(Shift::UXTH(0)));
    assert_eq!(Shift::from_raw(12, 0), Some(Shift::UXTB(0)));
    assert_eq!(Shift::from_raw(13, 8), Some(Shift::MSL(8)));
    assert_eq!(Shift::from_raw(14, 0), None);
}

#[test]
fn flag_effect_codes() {
    assert_eq!(FlagEffect::from_code(0), None);
    assert_eq!(FlagEffect::from_code(1), Some(FlagEffect::Sets));
    assert_eq!(FlagEffect::from_code(2), Some(FlagEffect::Integer));
    assert_eq!(FlagEffect::from_code(3), Some(FlagEffect::Float));
    assert_eq!(FlagEffect::from_code(7), None);
}
