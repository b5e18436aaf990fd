use vector_xd::naming::to_snake_case;

#[test]
fn method_name_of_add() {
    assert_eq!(to_snake_case("Add"), "add");
}

#[test]
fn method_name_of_sub() {
    assert_eq!(to_snake_case("Sub"), "sub");
}

#[test]
fn method_name_of_mul() {
    assert_eq!(to_snake_case("Mul"), "mul");
}

#[test]
fn method_name_of_div() {
    assert_eq!(to_snake_case("Div"), "div");
}

#[test]
fn method_name_of_add_assign() {
    assert_eq!(to_snake_case("AddAssign"), "add_assign");
}

#[test]
fn method_name_of_sub_assign() {
    assert_eq!(to_snake_case("SubAssign"), "sub_assign");
}

#[test]
fn method_name_of_mul_assign() {
    assert_eq!(to_snake_case("MulAssign"), "mul_assign");
}

#[test]
fn method_name_of_div_assign() {
    assert_eq!(to_snake_case("DivAssign"), "div_assign");
}

#[test]
fn method_name_of_a_single_letter() {
    assert_eq!(to_snake_case("A"), "a");
}

#[test]
fn method_name_of_many_words() {
    assert_eq!(to_snake_case("ShlRoundTrip"), "shl_round_trip");
}
