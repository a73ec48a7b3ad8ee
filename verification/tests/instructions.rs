use bad64::DecodeError;
use bad64::Imm;
use bad64::Op;
use bad64::Operand;
use bad64::RawClass;
use bad64::RawInstruction;
use bad64::RawOperand;
use bad64::Reg;
use bad64::decode_record;
use bad64::frame_buffer;
use bad64::status_known;

fn blank() -> RawOperand {
    RawOperand {
        class: RawClass::Sentinel,
        regs: [0; 5],
        imm: 0,
        signed: false,
        shift: None,
        arr: None,
        lane_used: false,
        lane: 0,
        mul_vl: false,
        pred_qual: 0,
        sysreg: 0,
        sysreg_name: [0; 32],
        cond: 0,
        name: [0; 16],
        implspec: [0; 5],
        tile: 0,
        slice: None,
    }
}

fn record(insword: u32, operation: u32, mnemonic: &str, slots: &[RawOperand]) -> RawInstruction {
    let mut operands = [blank(); 5];
    for (i, s) in slots.iter().enumerate() {
        operands[i] = *s;
    }
    RawInstruction {
        insword,
        operation,
        mnemonic: mnemonic.to_string(),
        setflags: 0,
        operands,
    }
}

fn reg_slot(ord: u32) -> RawOperand {
    let mut r = blank();
    r.class = RawClass::Reg;
    r.regs[0] = ord;
    r
}

fn imm64_slot(imm: u64) -> RawOperand {
    let mut r = blank();
    r.class = RawClass::Imm64;
    r.imm = imm;
    r
}

const X0: u32 = 34;
const X1: u32 = 35;

#[test]
fn decode_nop_record() {
    // nop: no operands; the word 0xd503201f at 0x1000
    let raw = record(0xd503201f, 1, "nop", &[]);
    assert!(raw.check_wf());
    let ins = decode_record(0, &raw, 0x1000).unwrap();
    assert_eq!(ins.address(), 0x1000);
    assert_eq!(ins.opcode(), 0xd503201f);
    assert_eq!(ins.op(), Op(1));
    assert_eq!(ins.mnem(), "nop");
    assert_eq!(ins.operands().len(), 0);
    assert_eq!(ins.render(), "nop");
}

#[test]
fn decode_add_record() {
    // add x0, x1, #0x41: the word 0x91010420
    let raw = record(
        0x91010420,
        6,
        "add",
        &[reg_slot(X0), reg_slot(X1), imm64_slot(0x41)],
    );
    assert!(raw.check_wf());
    let ins = decode_record(0, &raw, 0x1000).unwrap();
    assert_eq!(ins.operands().len(), 3);

    let o0 = ins.operands()[0];
    let o1 = ins.operands()[1];
    let o2 = ins.operands()[2];
    assert_eq!(ins.operands().get(3), None);
    assert_eq!(ins.operands().get(5), None);

    assert_eq!(o0, Operand::Reg { reg: Reg { ord: X0 }, arrspec: None });
    assert_eq!(o1, Operand::Reg { reg: Reg { ord: X1 }, arrspec: None });
    assert_eq!(
        o2,
        Operand::Imm64 { imm: Imm { neg: false, val: 0x41 }, shift: None }
    );
    assert_eq!(ins.render(), "add x0, x1, #0x41");
}

#[test]
fn operand_slots_follow_count() {
    let raw = record(0, 0, "add", &[reg_slot(X0), reg_slot(X1), imm64_slot(1)]);
    let ins = decode_record(0, &raw, 0).unwrap();
    assert!(ins.operand(0).is_some());
    assert!(ins.operand(1).is_some());
    assert!(ins.operand(2).is_some());
    assert_eq!(ins.operand(3), None);
    assert_eq!(ins.operand(4), None);
    assert_eq!(ins.operand(5), None);
    assert_eq!(
        ins.operand(2),
        Some(&Operand::Imm64 { imm: Imm { neg: false, val: 1 }, shift: None })
    );
}

#[test]
fn sentinel_ends_operand_list() {
    // a sentinel in slot 1 hides the later slots entirely
    let mut operands = [blank(); 5];
    operands[0] = reg_slot(X0);
    operands[2] = imm64_slot(7);
    let raw = RawInstruction {
        insword: 0,
        operation: 0,
        mnemonic: "mov".to_string(),
        setflags: 0,
        operands,
    };
    let ins = decode_record(0, &raw, 0).unwrap();
    assert_eq!(ins.operands().len(), 1);
    assert_eq!(ins.render(), "mov x0");
}

#[test]
fn decode_push_pop_records() {
    // str x0, [sp, #-16]! then ldr x0, [sp], #16
    let mut pre = blank();
    pre.class = RawClass::MemPreIdx;
    pre.regs[0] = 66; // sp
    pre.imm = (-16i64) as u64;
    pre.signed = true;
    let push = record(0xf81f0fe0, 2, "str", &[reg_slot(X0), pre]);
    let ins = decode_record(0, &push, 0x1000).unwrap();
    assert_eq!(ins.operands().len(), 2);
    assert_eq!(
        ins.operands()[1],
        Operand::MemPreIdx { reg: Reg { ord: 66 }, imm: Imm { neg: true, val: 16 } }
    );
    assert_eq!(ins.render(), "str x0, [sp, #-0x10]!");

    let mut post = blank();
    post.class = RawClass::MemPostIdx;
    post.regs[0] = 66;
    post.imm = 16;
    post.signed = true;
    let pop = record(0xf84107e0, 3, "ldr", &[reg_slot(X0), post]);
    let ins = decode_record(0, &pop, 0x1004).unwrap();
    assert_eq!(
        ins.operands()[1],
        Operand::MemPostIdxImm { reg: Reg { ord: 66 }, imm: Imm { neg: false, val: 16 } }
    );
    assert_eq!(ins.render(), "ldr x0, [sp], #0x10");
}

#[test]
fn decode_failure_status() {
    let raw = record(0x41414141, 0, "", &[]);
    assert_eq!(
        decode_record(-3, &raw, 0),
        Err(DecodeError::Unallocated(0))
    );
    assert_eq!(
        decode_record(-1, &raw, 0x20),
        Err(DecodeError::Reserved(0x20))
    );
    assert_eq!(
        decode_record(-9, &raw, 4),
        Err(DecodeError::ErrorOperands(4))
    );
}

#[test]
fn error_addresses() {
    assert_eq!(DecodeError::new(-3, 0x40), DecodeError::Unallocated(0x40));
    assert_eq!(DecodeError::new(-5, 1), DecodeError::EndOfInstruction(1));
    assert_eq!(DecodeError::Unallocated(0x40).address(), 0x40);
    assert_eq!(DecodeError::Short(0x8).address(), 0x8);
    assert_eq!(DecodeError::Lost(9).address(), 9);
}

#[test]
fn error_render() {
    assert_eq!(
        DecodeError::Unallocated(0x41414141).render(),
        "Unallocated: 0x41414141"
    );
    assert_eq!(DecodeError::Short(0).render(), "Short: 0x0");
    assert_eq!(DecodeError::Reserved(0x1000).render(), "Reserved: 0x1000");
}

#[test]
fn status_codes_known() {
    for code in [-1, -2, -3, -4, -5, -6, -7, -9] {
        assert!(status_known(code));
    }
    assert!(!status_known(0));
    assert!(!status_known(-8));
    assert!(!status_known(1));
    assert!(!status_known(-10));
}

#[test]
fn instruction_equality() {
    let raw = record(0xd503201f, 1, "nop", &[]);
    let a = decode_record(0, &raw, 0).unwrap();
    let b = decode_record(0, &raw, 0).unwrap();
    let c = decode_record(0, &raw, 4).unwrap();
    assert_eq!(a, b);
    assert_ne!(a, c);
    let with_ops = record(0, 1, "nop", &[reg_slot(X0)]);
    let d = decode_record(0, &with_ops, 0).unwrap();
    assert_ne!(a, d);
    // equality is over the logical content; the mnemonic text, being the
    // operation table's rendering of the operation, carries no identity
    let other_text = record(0xd503201f, 1, "hint", &[]);
    let e = decode_record(0, &other_text, 0).unwrap();
    assert_eq!(a, e);
    // a different operation ordinal separates them even under one text
    let other_op = record(0xd503201f, 2, "nop", &[]);
    let f = decode_record(0, &other_op, 0).unwrap();
    assert_ne!(a, f);
}

#[test]
fn frame_words_and_addresses() {
    // nop twice: \x1f\x20\x03\xd5 is 0xd503201f little-endian
    let code: &[u8] = b"\x1f\x20\x03\xd5\x1f\x20\x03\xd5";
    let v = frame_buffer(code, 0x1000);
    assert_eq!(v.len(), 2);
    assert_eq!(v[0], (0x1000, Some(0xd503201f)));
    assert_eq!(v[1], (0x1004, Some(0xd503201f)));
}

#[test]
fn frame_error_window_addresses() {
    let v = frame_buffer(&[0x41; 8], 0);
    assert_eq!(v.len(), 2);
    assert_eq!(v[0], (0, Some(0x41414141)));
    assert_eq!(v[1], (4, Some(0x41414141)));
}

#[test]
fn frame_short_trailing_fragment() {
    let v = frame_buffer(&[0x41; 3], 0);
    assert_eq!(v.len(), 1);
    assert_eq!(v[0], (0, None));

    let v = frame_buffer(&[0x41; 6], 0x100);
    assert_eq!(v.len(), 2);
    assert_eq!(v[0], (0x100, Some(0x41414141)));
    assert_eq!(v[1], (0x104, None));

    let v = frame_buffer(&[], 0);
    assert_eq!(v.len(), 0);

    // one whole window for each length from one to four
    for len in 1..=4usize {
        let buf = vec![0u8; len];
        let v = frame_buffer(&buf, 0);
        assert_eq!(v.len(), 1);
        if len == 4 {
            assert_eq!(v[0], (0, Some(0)));
        } else {
            assert_eq!(v[0], (0, None));
        }
    }
}

#[test]
fn frame_then_decode() {
    // framing followed by per-window decoding keeps every address aligned
    let code: &[u8] = b"\x1f\x20\x03\xd5\x41\x41";
    let v = frame_buffer(code, 0x2000);
    assert_eq!(v.len(), 2);
    let raw = record(0xd503201f, 1, "nop", &[]);
    let mut results: Vec<Result<bad64::Instruction, DecodeError>> = Vec::new();
    for (addr, word) in v {
        match word {
            Some(w) => {
                assert_eq!(w, 0xd503201f);
                results.push(decode_record(0, &raw, addr));
            }
            None => results.push(Err(DecodeError::Short(addr))),
        }
    }
    assert_eq!(results.len(), 2);
    assert_eq!(results[0].as_ref().unwrap().address(), 0x2000);
    assert_eq!(results[1], Err(DecodeError::Short(0x2004)));
}
