use mod_ardain::ffi::context::{CaptureContext, REGISTER_COUNT};
use mod_ardain::ffi::{Register, RegisterValue};

fn context() -> CaptureContext {
    let mut registers = [0u64; 31];
    registers[3] = 0x0000_0001_2345_6789;
    registers[4] = 0xffff_ffff_ffff_ffff;
    CaptureContext::new(registers)
}

#[test]
fn context_has_thirty_one_registers() {
    assert_eq!(REGISTER_COUNT, 31);
    assert_eq!(context().registers().len(), 31);
}

#[test]
fn x_reads_all_sixty_four_bits() {
    let register = Register::parse('x', 3).unwrap();
    assert_eq!(register.get(&context()), 0x0000_0001_2345_6789);
}

#[test]
fn w_and_r_read_the_low_thirty_two_bits() {
    let ctx = context();
    assert_eq!(Register::parse('w', 3).unwrap().get(&ctx), 0x2345_6789);
    assert_eq!(Register::parse('r', 3).unwrap().get(&ctx), 0x2345_6789);
    assert_eq!(Register::parse('w', 4).unwrap().get(&ctx), 0xffff_ffff);
}

#[test]
fn set_x_stores_the_whole_value() {
    let mut ctx = context();
    Register::parse('x', 5).unwrap().set(&mut ctx, RegisterValue::X(0xdead_beef_0000_0001));
    assert_eq!(ctx.read(5), 0xdead_beef_0000_0001);
    assert_eq!(ctx.read(3), 0x0000_0001_2345_6789);
    assert_eq!(ctx.read(4), 0xffff_ffff_ffff_ffff);
}

#[test]
fn set_w_zero_extends() {
    let mut ctx = context();
    Register::parse('w', 4).unwrap().set(&mut ctx, RegisterValue::RW(7));
    assert_eq!(ctx.read(4), 7);
    Register::parse('r', 3).unwrap().set(&mut ctx, RegisterValue::RW(0xffff_ffff));
    assert_eq!(ctx.read(3), 0xffff_ffff);
}

#[test]
fn set_changes_no_other_register() {
    let mut ctx = context();
    let before = ctx.registers();
    Register::parse('w', 10).unwrap().set(&mut ctx, RegisterValue::RW(1));
    let after = ctx.registers();
    for i in 0..31 {
        if i == 10 {
            assert_eq!(after[i], 1);
        } else {
            assert_eq!(after[i], before[i]);
        }
    }
}

#[test]
fn width_of_value_must_match_class_of_register() {
    let x = Register::parse('x', 0).unwrap();
    let w = Register::parse('w', 0).unwrap();
    let r = Register::parse('r', 0).unwrap();
    assert!(x.accepts(&RegisterValue::X(1)));
    assert!(!x.accepts(&RegisterValue::RW(1)));
    assert!(w.accepts(&RegisterValue::RW(1)));
    assert!(!w.accepts(&RegisterValue::X(1)));
    assert!(r.accepts(&RegisterValue::RW(1)));
    assert!(!r.accepts(&RegisterValue::X(1)));
}

#[test]
fn write_then_read_gives_the_value_back() {
    let mut ctx = CaptureContext::new([0u64; 31]);
    ctx.write(30, 42);
    assert_eq!(ctx.read(30), 42);
    assert_eq!(ctx.read(0), 0);
}
