use ilemu::expression::{eval_expression, Arithmetic, Cmp, Expr, Load, Undef};
use ilemu::state::State;

fn x64_state() -> State {
    State::new("x86_64".to_owned())
}

fn val(v: u64) -> Expr {
    Expr::Value(v)
}

fn reg(name: &str) -> Expr {
    Expr::Reg(ilemu::expression::Reg { name: name.to_owned() })
}

fn arith(l: Expr, r: Expr) -> Arithmetic {
    Arithmetic { left: Box::new(l), right: Box::new(r) }
}

fn cmp(l: Expr, r: Expr) -> Cmp {
    Cmp { left: Box::new(l), right: Box::new(r) }
}

#[test]
fn constant_evaluates_to_itself() {
    let s = x64_state();
    assert_eq!(eval_expression(&val(0), &s), 0);
    assert_eq!(eval_expression(&val(5), &s), 5);
    assert_eq!(eval_expression(&val(u64::MAX), &s), u64::MAX);
}

#[test]
fn add_wraps_modulo_two_to_the_64() {
    let s = x64_state();
    assert_eq!(eval_expression(&Expr::Add(arith(val(u64::MAX), val(1))), &s), 0);
    assert_eq!(eval_expression(&Expr::Add(arith(val(2), val(3))), &s), 5);
}

#[test]
fn sub_wraps_modulo_two_to_the_64() {
    let s = x64_state();
    assert_eq!(eval_expression(&Expr::Sub(arith(val(0), val(1))), &s), u64::MAX);
    assert_eq!(eval_expression(&Expr::Sub(arith(val(9), val(4))), &s), 5);
}

#[test]
fn mul_wraps_modulo_two_to_the_64() {
    let s = x64_state();
    assert_eq!(eval_expression(&Expr::Mul(arith(val(1u64 << 63), val(2))), &s), 0);
    assert_eq!(eval_expression(&Expr::Mul(arith(val(6), val(7))), &s), 42);
}

#[test]
fn unsigned_and_signed_comparison_differ_on_same_pattern() {
    let s = x64_state();
    let a = 0xFFFF_FFFF_FFFF_FFFFu64;
    // unsigned: a is the largest value, so a < 0 is false
    assert_eq!(eval_expression(&Expr::CmpUlt(cmp(val(a), val(0))), &s), 0);
    // signed: the same pattern reads as -1, so a < 0 is true
    assert_eq!(eval_expression(&Expr::CmpSlt(cmp(val(a), val(0))), &s), 1);
}

#[test]
fn equality_comparisons() {
    let s = x64_state();
    assert_eq!(eval_expression(&Expr::CmpE(cmp(val(4), val(4))), &s), 1);
    assert_eq!(eval_expression(&Expr::CmpE(cmp(val(4), val(5))), &s), 0);
    assert_eq!(eval_expression(&Expr::CmpNe(cmp(val(4), val(5))), &s), 1);
    assert_eq!(eval_expression(&Expr::CmpNe(cmp(val(4), val(4))), &s), 0);
}

#[test]
fn unsigned_order_comparisons() {
    let s = x64_state();
    assert_eq!(eval_expression(&Expr::CmpUle(cmp(val(3), val(3))), &s), 1);
    assert_eq!(eval_expression(&Expr::CmpUge(cmp(val(2), val(3))), &s), 0);
    assert_eq!(eval_expression(&Expr::CmpUgt(cmp(val(4), val(3))), &s), 1);
}

#[test]
fn signed_order_comparisons() {
    let s = x64_state();
    let minus_one = u64::MAX;
    assert_eq!(eval_expression(&Expr::CmpSle(cmp(val(minus_one), val(0))), &s), 1);
    assert_eq!(eval_expression(&Expr::CmpSge(cmp(val(0), val(minus_one))), &s), 1);
    assert_eq!(eval_expression(&Expr::CmpSgt(cmp(val(0), val(minus_one))), &s), 1);
    assert_eq!(eval_expression(&Expr::CmpSgt(cmp(val(minus_one), val(0))), &s), 0);
}

#[test]
fn division_is_total_with_zero_divisor() {
    let s = x64_state();
    assert_eq!(eval_expression(&Expr::Divu(arith(val(7), val(2))), &s), 3);
    assert_eq!(eval_expression(&Expr::Divu(arith(val(7), val(0))), &s), 0);
    assert_eq!(eval_expression(&Expr::Divs(arith(val(7), val(2))), &s), 3);
    assert_eq!(eval_expression(&Expr::Modu(arith(val(7), val(2))), &s), 1);
    assert_eq!(eval_expression(&Expr::Modu(arith(val(7), val(0))), &s), 0);
    assert_eq!(eval_expression(&Expr::Mods(arith(val(9), val(4))), &s), 1);
}

#[test]
fn shifts_and_rotate_spellings() {
    let s = x64_state();
    assert_eq!(eval_expression(&Expr::Lsl(arith(val(1), val(3))), &s), 8);
    assert_eq!(eval_expression(&Expr::Lsr(arith(val(8), val(3))), &s), 1);
    // amounts are not masked to the width: shifting everything out clears
    assert_eq!(eval_expression(&Expr::Lsl(arith(val(1), val(64))), &s), 0);
    assert_eq!(eval_expression(&Expr::Lsr(arith(val(1), val(200))), &s), 0);
    // Asr and Rol reduce to a left shift, Ror to a right shift
    assert_eq!(eval_expression(&Expr::Asr(arith(val(1), val(3))), &s), 8);
    assert_eq!(eval_expression(&Expr::Rol(arith(val(1), val(3))), &s), 8);
    assert_eq!(eval_expression(&Expr::Ror(arith(val(8), val(3))), &s), 1);
}

#[test]
fn bitwise_operations() {
    let s = x64_state();
    assert_eq!(eval_expression(&Expr::And(arith(val(0b1100), val(0b1010))), &s), 0b1000);
    assert_eq!(eval_expression(&Expr::Or(arith(val(0b1100), val(0b1010))), &s), 0b1110);
    assert_eq!(eval_expression(&Expr::Xor(arith(val(0b1100), val(0b1010))), &s), 0b0110);
}

#[test]
fn double_width_multiplies_wrap() {
    let s = x64_state();
    assert_eq!(eval_expression(&Expr::MulsDp(arith(val(6), val(7))), &s), 42);
    assert_eq!(eval_expression(&Expr::MuluDp(arith(val(1u64 << 63), val(2))), &s), 0);
}

#[test]
fn load_evaluates_its_address_not_memory() {
    // The bounded vocabulary's known simplification: a Load reduces to the
    // evaluation of its address sub-expression, not to a memory read.
    let s = x64_state();
    let e = Expr::Load(Load { source_mem: Box::new(val(0x1234)) });
    assert_eq!(eval_expression(&e, &s), 0x1234);
}

#[test]
fn unmodeled_nodes_evaluate_to_the_default() {
    let s = x64_state();
    let u = Expr::Undef(Undef { expr: "outside the vocabulary".to_owned() });
    assert_eq!(eval_expression(&u, &s), 1);
    let f = Expr::Flag(ilemu::expression::Flag { name: "zf".to_owned() });
    assert_eq!(eval_expression(&f, &s), 1);
    let d = Expr::DivuDp(ilemu::expression::DivDp {
        high: Box::new(val(1)),
        low: Box::new(val(2)),
        right: Box::new(val(3)),
    });
    assert_eq!(eval_expression(&d, &s), 1);
}

#[test]
fn register_reads_go_through_the_state() {
    let mut s = x64_state();
    s.regs.set("rax".to_owned(), 77, s.arch);
    assert_eq!(eval_expression(&reg("rax"), &s), 77);
    assert_eq!(eval_expression(&Expr::Add(arith(reg("rax"), val(1))), &s), 78);
}
