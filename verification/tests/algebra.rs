use symvalue::ArithmeticError;
use symvalue::Operation;
use symvalue::SymbolicEquation;
use symvalue::Value;
use symvalue::get_concrete;
use symvalue::get_symbolic;

fn concrete_payload(v: &Value<u8>) -> u8 {
    match v {
        Value::Concrete(c) => c.value,
        _ => panic!("expected a concrete value"),
    }
}

#[test]
fn fold_add() {
    let r = get_concrete(7u8).add(get_concrete(3u8)).unwrap();
    assert_eq!(concrete_payload(&r), 10);
}

#[test]
fn fold_sub() {
    let r = get_concrete(50u8).sub(get_concrete(10u8)).unwrap();
    assert_eq!(concrete_payload(&r), 40);
}

#[test]
fn fold_mul() {
    let r = get_concrete(6u8).mul(get_concrete(7u8)).unwrap();
    assert_eq!(concrete_payload(&r), 42);
}

#[test]
fn fold_div() {
    let r = get_concrete(50u8).div(get_concrete(10u8)).unwrap();
    assert_eq!(concrete_payload(&r), 5);
}

#[test]
fn fold_bitand() {
    let r = get_concrete(12u8).bitand(get_concrete(10u8)).unwrap();
    assert_eq!(concrete_payload(&r), 8);
}

#[test]
fn fold_bitor() {
    let r = get_concrete(12u8).bitor(get_concrete(10u8)).unwrap();
    assert_eq!(concrete_payload(&r), 14);
}

#[test]
fn fold_bitxor() {
    let r = get_concrete(7u8).bitxor(get_concrete(3u8)).unwrap();
    assert_eq!(concrete_payload(&r), 4);
}

#[test]
fn fold_u64() {
    let r = get_concrete(1_000_000u64).add(get_concrete(2_000_000u64)).unwrap();
    match r {
        Value::Concrete(c) => assert_eq!(c.value, 3_000_000),
        _ => panic!("expected a concrete value"),
    }
}

#[test]
fn fold_add_overflow() {
    let r = get_concrete(200u8).add(get_concrete(100u8));
    assert_eq!(r.unwrap_err(), ArithmeticError::Overflow);
}

#[test]
fn fold_sub_underflow() {
    let r = get_concrete(3u8).sub(get_concrete(5u8));
    assert_eq!(r.unwrap_err(), ArithmeticError::Overflow);
}

#[test]
fn fold_mul_overflow() {
    let r = get_concrete(200u8).mul(get_concrete(2u8));
    assert_eq!(r.unwrap_err(), ArithmeticError::Overflow);
}

#[test]
fn fold_div_by_zero() {
    let r = get_concrete(5u8).div(get_concrete(0u8));
    assert_eq!(r.unwrap_err(), ArithmeticError::DivisionByZero);
}

#[test]
fn symbolic_div_by_zero_is_deferred() {
    let x: Value<u8> = get_symbolic(String::from("x"));
    let r = x.div(get_concrete(0u8)).unwrap();
    match r {
        Value::Equation(e) => {
            assert_eq!(e.op, Operation::DIV);
            match *e.left {
                Value::Variable(v) => assert_eq!(v.name, "x"),
                _ => panic!("left operand changed variant"),
            }
            match *e.right {
                Value::Concrete(c) => assert_eq!(c.value, 0),
                _ => panic!("right operand changed variant"),
            }
        }
        _ => panic!("expected an equation"),
    }
}

#[test]
fn concrete_variable_builds_equation_in_order() {
    let r = get_concrete(5u8).add(get_symbolic(String::from("x"))).unwrap();
    match r {
        Value::Equation(e) => {
            assert_eq!(e.op, Operation::ADD);
            match *e.left {
                Value::Concrete(c) => assert_eq!(c.value, 5),
                _ => panic!("left operand changed variant"),
            }
            match *e.right {
                Value::Variable(v) => {
                    assert_eq!(v.name, "x");
                    assert_eq!(v.bit_width, 8);
                }
                _ => panic!("right operand changed variant"),
            }
        }
        _ => panic!("expected an equation"),
    }
}

#[test]
fn variable_variable_builds_equation_in_order() {
    let a: Value<u8> = get_symbolic(String::from("a"));
    let b: Value<u8> = get_symbolic(String::from("b"));
    let r = a.sub(b).unwrap();
    match r {
        Value::Equation(e) => {
            assert_eq!(e.op, Operation::SUB);
            match (*e.left, *e.right) {
                (Value::Variable(l), Value::Variable(rr)) => {
                    assert_eq!(l.name, "a");
                    assert_eq!(rr.name, "b");
                }
                _ => panic!("operands changed variant"),
            }
        }
        _ => panic!("expected an equation"),
    }
}

#[test]
fn equation_operands_keep_subtrees() {
    let x: Value<u8> = get_symbolic(String::from("x"));
    let inner = get_concrete(1u8).add(x).unwrap();
    let r = inner.mul(get_concrete(2u8)).unwrap();
    match r {
        Value::Equation(e) => {
            assert_eq!(e.op, Operation::MUL);
            match *e.left {
                Value::Equation(ref inner_eq) => assert_eq!(inner_eq.op, Operation::ADD),
                _ => panic!("left operand changed variant"),
            }
            match *e.right {
                Value::Concrete(c) => assert_eq!(c.value, 2),
                _ => panic!("right operand changed variant"),
            }
        }
        _ => panic!("expected an equation"),
    }
}

#[test]
fn equation_node_is_binary() {
    let x: Value<u8> = get_symbolic(String::from("x"));
    let y: Value<u8> = get_symbolic(String::from("y"));
    let r = SymbolicEquation::new(Operation::XOR, x, y);
    match r {
        Value::Equation(e) => {
            // The operand pair of an equation is exactly two subtrees.
            let _left: Value<u8> = *e.left;
            let _right: Value<u8> = *e.right;
        }
        _ => panic!("expected an equation"),
    }
}

#[test]
fn variable_width_u8() {
    let x: Value<u8> = get_symbolic(String::from("x"));
    match x {
        Value::Variable(v) => assert_eq!(v.bit_width, 8),
        _ => panic!("expected a variable"),
    }
}

#[test]
fn variable_width_u64() {
    let x: Value<u64> = get_symbolic(String::from("x"));
    match x {
        Value::Variable(v) => assert_eq!(v.bit_width, 64),
        _ => panic!("expected a variable"),
    }
}

#[test]
fn clone_preserves_structure() {
    let x: Value<u8> = get_symbolic(String::from("x"));
    let tree = get_concrete(9u8).bitor(x).unwrap();
    let copy = tree.clone();
    assert_eq!(tree.render(), copy.render());
}

#[test]
fn variable_width_u16() {
    let x: Value<u16> = get_symbolic(String::from("x"));
    match x {
        Value::Variable(v) => assert_eq!(v.bit_width, 16),
        _ => panic!("expected a variable"),
    }
}

#[test]
fn variable_width_u32() {
    let x: Value<u32> = get_symbolic(String::from("x"));
    match x {
        Value::Variable(v) => assert_eq!(v.bit_width, 32),
        _ => panic!("expected a variable"),
    }
}

#[test]
fn fold_u16() {
    let r = get_concrete(300u16).mul(get_concrete(100u16)).unwrap();
    match r {
        Value::Concrete(c) => assert_eq!(c.value, 30_000),
        _ => panic!("expected a concrete value"),
    }
}

#[test]
fn fold_u32() {
    let r = get_concrete(1u32 << 20).add(get_concrete(1u32)).unwrap();
    match r {
        Value::Concrete(c) => assert_eq!(c.value, 1_048_577),
        _ => panic!("expected a concrete value"),
    }
}
