use vector_xd::ops::{operations, Operation};
use vector_xd::synth::{derive_arith, implement_operation, implement_operations, DeriveError};

#[test]
fn add_pair_is_emitted_exactly() {
    let expected = "impl ::std::ops::Add<Vec3> for Vec3 {
    type Output = Self;

    #[inline]
    fn add(self, rhs: Self) -> Self::Output {
        Self {
            x: self.x.add(rhs.x),
            y: self.y.add(rhs.y),
            z: self.z.add(rhs.z),
        }
    }
}

impl ::std::ops::Add<f32> for Vec3 {
    type Output = Self;

    #[inline]
    fn add(self, rhs: f32) -> Self::Output {
        Self {
            x: self.x.add(rhs),
            y: self.y.add(rhs),
            z: self.z.add(rhs),
        }
    }
}
";
    let got = implement_operation(&Operation::Add, "Vec3", "x", "y", "z");
    assert_eq!(got, expected);
}

#[test]
fn mul_assign_pair_is_emitted_exactly() {
    let expected = "impl ::std::ops::MulAssign<Vec3> for Vec3 {
    #[inline]
    fn mul_assign(&mut self, rhs: Self) {
        self.x.mul_assign(rhs.x);
        self.y.mul_assign(rhs.y);
        self.z.mul_assign(rhs.z);
    }
}

impl ::std::ops::MulAssign<f32> for Vec3 {
    #[inline]
    fn mul_assign(&mut self, rhs: f32) {
        self.x.mul_assign(rhs);
        self.y.mul_assign(rhs);
        self.z.mul_assign(rhs);
    }
}
";
    let got = implement_operation(&Operation::MulAssign, "Vec3", "x", "y", "z");
    assert_eq!(got, expected);
}

#[test]
fn one_pair_per_operation_in_order() {
    let blocks = implement_operations("Vec3", "x", "y", "z");
    let ops = operations();
    assert_eq!(blocks.len(), 8);
    for (block, op) in blocks.iter().zip(ops.iter()) {
        assert_eq!(block, &implement_operation(op, "Vec3", "x", "y", "z"));
        assert!(block.starts_with(&format!("impl ::std::ops::{}<Vec3> for Vec3 {{", op.trait_name())));
        assert!(block.contains(&format!("impl ::std::ops::{}<f32> for Vec3 {{", op.trait_name())));
    }
}

#[test]
fn derive_appends_all_pairs_to_the_unchanged_item() {
    let item = "pub struct Vec3 {
    pub x: f32,
    pub y: f32,
    pub z: f32,
}";
    let mut expected = String::from(item);
    for block in implement_operations("Vec3", "x", "y", "z") {
        expected.push('\n');
        expected.push_str(&block);
    }
    let got = derive_arith(item).unwrap();
    assert_eq!(got, expected);
    assert!(got.starts_with(item));
}

#[test]
fn derive_uses_the_parsed_names() {
    let item = "struct Color { r: f32, g: f32, b: f32 }";
    let got = derive_arith(item).unwrap();
    assert!(got.contains("impl ::std::ops::Add<Color> for Color {"));
    assert!(got.contains("            r: self.r.add(rhs.r),"));
    assert!(got.contains("        self.b.div_assign(rhs);"));
    assert!(!got.contains("Vec3"));
}

#[test]
fn derive_refuses_what_is_not_a_struct() {
    assert_eq!(derive_arith("fn main() {}"), Err(DeriveError::NotAStruct));
    assert_eq!(derive_arith(""), Err(DeriveError::NotAStruct));
    assert_eq!(derive_arith("struct Unit;"), Err(DeriveError::NotAStruct));
    assert_eq!(derive_arith("struct Pair(f32, f32, f32);"), Err(DeriveError::NotAStruct));
    // trailing tokens after the struct item are refused too
    assert_eq!(
        derive_arith("struct A { x: f32, y: f32, z: f32 } fn main() {}"),
        Err(DeriveError::NotAStruct)
    );
}

#[test]
fn derive_refuses_the_wrong_field_count() {
    assert_eq!(
        derive_arith("struct Flat { x: f32, y: f32 }"),
        Err(DeriveError::WrongFieldCount)
    );
    assert_eq!(
        derive_arith("struct Wide { x: f32, y: f32, z: f32, w: f32 }"),
        Err(DeriveError::WrongFieldCount)
    );
    assert_eq!(derive_arith("struct Empty {}"), Err(DeriveError::WrongFieldCount));
}

#[test]
fn error_messages_identify_the_precondition() {
    assert_eq!(
        DeriveError::NotAStruct.message(),
        "the input is not a struct with named fields"
    );
    assert_eq!(
        DeriveError::WrongFieldCount.message(),
        "the struct must have exactly three fields"
    );
}
