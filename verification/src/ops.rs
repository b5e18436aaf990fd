//! The fixed, ordered set of the eight supported operations.

use vstd::prelude::*;
use crate::naming::{is_capitalized_words, snake_of, to_snake_case};

verus! {

/// One of the eight supported arithmetic operations. The first four combine
/// two values into a new one; the four `*Assign` kinds mutate their left
/// operand in place.
#[derive(Clone, Copy, PartialEq, Eq, Structural, Debug)]
pub enum Operation {
    Add,
    Sub,
    Mul,
    Div,
    AddAssign,
    SubAssign,
    MulAssign,
    DivAssign,
}

impl Operation {
    /// The capitalized name of the operation, which is also the name of the
    /// operator trait that the generated implementation targets.
    pub open spec fn spec_trait_name(self) -> Seq<char> {
        match self {
            Operation::Add => "Add"@,
            Operation::Sub => "Sub"@,
            Operation::Mul => "Mul"@,
            Operation::Div => "Div"@,
            Operation::AddAssign => "AddAssign"@,
            Operation::SubAssign => "SubAssign"@,
            Operation::MulAssign => "MulAssign"@,
            Operation::DivAssign => "DivAssign"@,
        }
    }

    /// Whether the operation is one of the four in-place kinds.
    pub open spec fn spec_is_assign(self) -> bool {
        match self {
            Operation::AddAssign => true,
            Operation::SubAssign => true,
            Operation::MulAssign => true,
            Operation::DivAssign => true,
            _ => false,
        }
    }

    /// The method name the generated implementation must define: the
    /// snake_case form of the trait name.
    pub open spec fn spec_method_name(self) -> Seq<char> {
        snake_of(self.spec_trait_name())
    }

    /// Every trait name is a well-formed capitalized-words identifier, so the
    /// naming transform applies to it.
    pub proof fn lemma_trait_name_well_formed(self)
        ensures
            is_capitalized_words(self.spec_trait_name()),
    {
        reveal_strlit("Add");
        reveal_strlit("Sub");
        reveal_strlit("Mul");
        reveal_strlit("Div");
        reveal_strlit("AddAssign");
        reveal_strlit("SubAssign");
        reveal_strlit("MulAssign");
        reveal_strlit("DivAssign");
    }

    /// The capitalized trait name as text.
    pub fn trait_name(&self) -> (r: &'static str)
        ensures
            r@ == self.spec_trait_name(),
    {
        match self {
            Operation::Add => "Add",
            Operation::Sub => "Sub",
            Operation::Mul => "Mul",
            Operation::Div => "Div",
            Operation::AddAssign => "AddAssign",
            Operation::SubAssign => "SubAssign",
            Operation::MulAssign => "MulAssign",
            Operation::DivAssign => "DivAssign",
        }
    }

    /// Whether the operation is one of the four in-place kinds.
    pub fn is_assign(&self) -> (r: bool)
        ensures
            r == self.spec_is_assign(),
    {
        match self {
            Operation::AddAssign => true,
            Operation::SubAssign => true,
            Operation::MulAssign => true,
            Operation::DivAssign => true,
            _ => false,
        }
    }

    /// The snake_case method name as text.
    pub fn method_name(&self) -> (r: String)
        ensures
            r@ == self.spec_method_name(),
    {
        proof {
            self.lemma_trait_name_well_formed();
        }
        to_snake_case(self.trait_name())
    }
}

/// The eight operations in their fixed emission order.
pub open spec fn spec_operations() -> Seq<Operation> {
    seq![
        Operation::Add,
        Operation::Sub,
        Operation::Mul,
        Operation::Div,
        Operation::AddAssign,
        Operation::SubAssign,
        Operation::MulAssign,
        Operation::DivAssign,
    ]
}

/// The eight operations in their fixed emission order.
pub fn operations() -> (r: Vec<Operation>)
    ensures
        r@ == spec_operations(),
{
    let mut r: Vec<Operation> = Vec::new();
    r.push(Operation::Add);
    r.push(Operation::Sub);
    r.push(Operation::Mul);
    r.push(Operation::Div);
    r.push(Operation::AddAssign);
    r.push(Operation::SubAssign);
    r.push(Operation::MulAssign);
    r.push(Operation::DivAssign);
    proof {
        assert(r@ =~= spec_operations());
    }
    r
}

} // verus!
