use vector_xd::ops::{operations, Operation};

#[test]
fn operations_come_in_the_fixed_order() {
    let ops = operations();
    assert_eq!(
        ops,
        vec![
            Operation::Add,
            Operation::Sub,
            Operation::Mul,
            Operation::Div,
            Operation::AddAssign,
            Operation::SubAssign,
            Operation::MulAssign,
            Operation::DivAssign,
        ]
    );
}

#[test]
fn trait_names() {
    let names: Vec<&str> = operations().iter().map(|op| op.trait_name()).collect();
    assert_eq!(
        names,
        vec!["Add", "Sub", "Mul", "Div", "AddAssign", "SubAssign", "MulAssign", "DivAssign"]
    );
}

#[test]
fn method_names() {
    let names: Vec<String> = operations().iter().map(|op| op.method_name()).collect();
    assert_eq!(
        names,
        vec!["add", "sub", "mul", "div", "add_assign", "sub_assign", "mul_assign", "div_assign"]
    );
}

#[test]
fn exactly_the_assign_kinds_are_in_place() {
    let flags: Vec<bool> = operations().iter().map(|op| op.is_assign()).collect();
    assert_eq!(flags, vec![false, false, false, false, true, true, true, true]);
}
