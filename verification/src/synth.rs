//! Synthesis of the operator implementation blocks.
//!
//! For one struct name and its three field names, each of the eight
//! operations yields a pair of implementation blocks: one against another
//! value of the same struct (fields matched by position) and one against a
//! bare scalar (the same scalar applied to every field). The text of every
//! block is pinned down, character for character, by the spec functions of
//! this module.

use vstd::prelude::*;
use vstd::string::StringExecFns;
use crate::ops::{Operation, spec_operations, operations};

verus! {

/// The operand type named in the implementation header: the scalar type for
/// the broadcast form, the struct itself otherwise.
pub open spec fn rhs_type_text(name: Seq<char>, scalar: bool) -> Seq<char> {
    if scalar {
        "f32"@
    } else {
        name
    }
}

/// The type of the right-hand parameter inside the implementation: the
/// scalar type for the broadcast form, `Self` otherwise.
pub open spec fn rhs_param_text(scalar: bool) -> Seq<char> {
    if scalar {
        "f32"@
    } else {
        "Self"@
    }
}

/// The right-hand expression a field is combined with: the whole scalar
/// operand in the broadcast form, the matching field of `rhs` otherwise.
pub open spec fn rhs_field_text(f: Seq<char>, scalar: bool) -> Seq<char> {
    if scalar {
        "rhs"@
    } else {
        "rhs."@ + f
    }
}

/// One field initializer of a non-assign implementation body: the field is
/// set to the method applied to the matching field of `self` and the
/// right-hand expression.
pub open spec fn field_init_text(f: Seq<char>, m: Seq<char>, rhs: Seq<char>) -> Seq<char> {
    "            "@ + f + ": self."@ + f + "."@ + m + "("@ + rhs + "),\n"@
}

/// One statement of an assign implementation body: the matching field of
/// `self` is mutated in place by the assign method.
pub open spec fn field_stmt_text(f: Seq<char>, m: Seq<char>, rhs: Seq<char>) -> Seq<char> {
    "        self."@ + f + "."@ + m + "("@ + rhs + ");\n"@
}

/// The header shared by every generated block: the operator trait applied to
/// the operand type, implemented for the struct.
pub open spec fn impl_header_text(op: Operation, name: Seq<char>, scalar: bool) -> Seq<char> {
    "impl ::std::ops::"@ + op.spec_trait_name() + "<"@ + rhs_type_text(name, scalar) + "> for "@
        + name + " {\n"@
}

/// A non-assign implementation block: a binary operation that combines each
/// field of `self` with the right-hand operand and returns the new value.
#[verifier::opaque]
pub open spec fn binary_impl_text(
    op: Operation,
    name: Seq<char>,
    f0: Seq<char>,
    f1: Seq<char>,
    f2: Seq<char>,
    scalar: bool,
) -> Seq<char> {
    impl_header_text(op, name, scalar) + "    type Output = Self;\n\n    #[inline]\n    fn "@
        + op.spec_method_name() + "(self, rhs: "@ + rhs_param_text(scalar)
        + ") -> Self::Output {\n        Self {\n"@ + field_init_text(
        f0,
        op.spec_method_name(),
        rhs_field_text(f0, scalar),
    ) + field_init_text(f1, op.spec_method_name(), rhs_field_text(f1, scalar)) + field_init_text(
        f2,
        op.spec_method_name(),
        rhs_field_text(f2, scalar),
    ) + "        }\n    }\n}\n"@
}

/// An assign implementation block: an in-place operation that mutates each
/// field of `self` by the right-hand operand.
#[verifier::opaque]
pub open spec fn assign_impl_text(
    op: Operation,
    name: Seq<char>,
    f0: Seq<char>,
    f1: Seq<char>,
    f2: Seq<char>,
    scalar: bool,
) -> Seq<char> {
    impl_header_text(op, name, scalar) + "    #[inline]\n    fn "@ + op.spec_method_name()
        + "(&mut self, rhs: "@ + rhs_param_text(scalar) + ") {\n"@ + field_stmt_text(
        f0,
        op.spec_method_name(),
        rhs_field_text(f0, scalar),
    ) + field_stmt_text(f1, op.spec_method_name(), rhs_field_text(f1, scalar)) + field_stmt_text(
        f2,
        op.spec_method_name(),
        rhs_field_text(f2, scalar),
    ) + "    }\n}\n"@
}

/// Both implementation blocks emitted for one operation: the same-type form
/// first, then the broadcast form, separated by a blank line.
pub open spec fn impl_pair_text(
    op: Operation,
    name: Seq<char>,
    f0: Seq<char>,
    f1: Seq<char>,
    f2: Seq<char>,
) -> Seq<char> {
    if op.spec_is_assign() {
        assign_impl_text(op, name, f0, f1, f2, false) + "\n"@ + assign_impl_text(
            op,
            name,
            f0,
            f1,
            f2,
            true,
        )
    } else {
        binary_impl_text(op, name, f0, f1, f2, false) + "\n"@ + binary_impl_text(
            op,
            name,
            f0,
            f1,
            f2,
            true,
        )
    }
}

/// Appends one field initializer of a non-assign body.
fn push_field_init(out: &mut String, f: &str, m: &str, scalar: bool)
    ensures
        final(out)@ == old(out)@ + field_init_text(f@, m@, rhs_field_text(f@, scalar)),
{
    out.append("            ");
    out.append(f);
    out.append(": self.");
    out.append(f);
    out.append(".");
    out.append(m);
    out.append("(");
    if scalar {
        out.append("rhs");
    } else {
        out.append("rhs.");
        out.append(f);
    }
    out.append("),\n");
    proof {
        assert(out@ =~= old(out)@ + field_init_text(f@, m@, rhs_field_text(f@, scalar)));
    }
}

/// Appends one statement of an assign body.
fn push_field_stmt(out: &mut String, f: &str, m: &str, scalar: bool)
    ensures
        final(out)@ == old(out)@ + field_stmt_text(f@, m@, rhs_field_text(f@, scalar)),
{
    out.append("        self.");
    out.append(f);
    out.append(".");
    out.append(m);
    out.append("(");
    if scalar {
        out.append("rhs");
    } else {
        out.append("rhs.");
        out.append(f);
    }
    out.append(");\n");
    proof {
        assert(out@ =~= old(out)@ + field_stmt_text(f@, m@, rhs_field_text(f@, scalar)));
    }
}

/// Appends the implementation header for one operation and operand kind.
fn push_impl_header(out: &mut String, op: &Operation, name: &str, scalar: bool)
    ensures
        final(out)@ == old(out)@ + impl_header_text(*op, name@, scalar),
{
    out.append("impl ::std::ops::");
    out.append(op.trait_name());
    out.append("<");
    if scalar {
        out.append("f32");
    } else {
        out.append(name);
    }
    out.append("> for ");
    out.append(name);
    out.append(" {\n");
    proof {
        assert(out@ =~= old(out)@ + impl_header_text(*op, name@, scalar));
    }
}

/// The text of one non-assign implementation block.
fn binary_impl(op: &Operation, name: &str, f0: &str, f1: &str, f2: &str, scalar: bool) -> (r:
    String)
    ensures
        r@ == binary_impl_text(*op, name@, f0@, f1@, f2@, scalar),
{
    let m: String = op.method_name();
    let mut out: String = String::new();
    push_impl_header(&mut out, op, name, scalar);
    out.append("    type Output = Self;\n\n    #[inline]\n    fn ");
    out.append(m.as_str());
    out.append("(self, rhs: ");
    if scalar {
        out.append("f32");
    } else {
        out.append("Self");
    }
    out.append(") -> Self::Output {\n        Self {\n");
    push_field_init(&mut out, f0, m.as_str(), scalar);
    push_field_init(&mut out, f1, m.as_str(), scalar);
    push_field_init(&mut out, f2, m.as_str(), scalar);
    out.append("        }\n    }\n}\n");
    proof {
        reveal(binary_impl_text);
        assert(out@ =~= binary_impl_text(*op, name@, f0@, f1@, f2@, scalar));
    }
    out
}

/// The text of one assign implementation block.
fn assign_impl(op: &Operation, name: &str, f0: &str, f1: &str, f2: &str, scalar: bool) -> (r:
    String)
    ensures
        r@ == assign_impl_text(*op, name@, f0@, f1@, f2@, scalar),
{
    let m: String = op.method_name();
    let mut out: String = String::new();
    push_impl_header(&mut out, op, name, scalar);
    out.append("    #[inline]\n    fn ");
    out.append(m.as_str());
    out.append("(&mut self, rhs: ");
    if scalar {
        out.append("f32");
    } else {
        out.append("Self");
    }
    out.append(") {\n");
    push_field_stmt(&mut out, f0, m.as_str(), scalar);
    push_field_stmt(&mut out, f1, m.as_str(), scalar);
    push_field_stmt(&mut out, f2, m.as_str(), scalar);
    out.append("    }\n}\n");
    proof {
        reveal(assign_impl_text);
        assert(out@ =~= assign_impl_text(*op, name@, f0@, f1@, f2@, scalar));
    }
    out
}

/// The pair of implementation blocks emitted for one operation: the
/// same-type form, then the broadcast form.
pub fn implement_operation(op: &Operation, name: &str, f0: &str, f1: &str, f2: &str) -> (r: String)
    ensures
        r@ == impl_pair_text(*op, name@, f0@, f1@, f2@),
{
    let mut out: String;
    if op.is_assign() {
        out = assign_impl(op, name, f0, f1, f2, false);
        out.append("\n");
        let scalar_block: String = assign_impl(op, name, f0, f1, f2, true);
        out.append(scalar_block.as_str());
    } else {
        out = binary_impl(op, name, f0, f1, f2, false);
        out.append("\n");
        let scalar_block: String = binary_impl(op, name, f0, f1, f2, true);
        out.append(scalar_block.as_str());
    }
    out
}

/// The implementation blocks for all eight operations, in the fixed emission
/// order: one pair of blocks per operation.
pub fn implement_operations(name: &str, f0: &str, f1: &str, f2: &str) -> (r: Vec<String>)
    ensures
        r@.len() == spec_operations().len(),
        forall|i: int|
            0 <= i < r@.len() ==> r@[i]@ == impl_pair_text(
                spec_operations()[i],
                name@,
                f0@,
                f1@,
                f2@,
            ),
{
    let ops: Vec<Operation> = operations();
    let mut r: Vec<String> = Vec::new();
    let mut i: usize = 0;
    while i < ops.len()
        invariant
            ops@ == spec_operations(),
            i <= ops@.len(),
            r@.len() == i,
            forall|j: int|
                0 <= j < i ==> r@[j]@ == impl_pair_text(spec_operations()[j], name@, f0@, f1@, f2@),
        decreases ops@.len() - i,
    {
        let block: String = implement_operation(&ops[i], name, f0, f1, f2);
        r.push(block);
        i = i + 1;
    }
    r
}

/// The name and field names of a struct definition, in declaration order.
pub struct StructDef {
    pub name: String,
    pub fields: Vec<String>,
}

/// What parsing a struct definition from source text yields: the struct's
/// identifier and its field identifiers in declaration order, if the text is
/// one struct item whose fields are named; nothing otherwise.
pub uninterp spec fn parsed_struct_of(src: Seq<char>) -> Option<(Seq<char>, Seq<Seq<char>>)>;

/// Relies on `syn::parse_str::<syn::ItemStruct>`: the text parses, with no
/// tokens left over, exactly when it is one struct item; the parse yields the
/// struct's identifier and its fields, and the fields of a brace-delimited
/// struct each carry their identifier, in declaration order.
#[verifier::external_body]
fn parse_named_struct(src: &str) -> (r: Option<StructDef>)
    ensures
        match r {
            Option::Some(d) => parsed_struct_of(src@) == Option::Some(
                (d.name@, d.fields.deep_view()),
            ),
            Option::None => parsed_struct_of(src@) is None,
        },
{
    match syn::parse_str::<syn::ItemStruct>(src) {
        Ok(item) => match item.fields {
            syn::Fields::Named(fields) => Some(StructDef {
                name: item.ident.to_string(),
                fields: fields.named.iter().map(
                    |f| f.ident.as_ref().map(|id| id.to_string()).unwrap_or_default(),
                ).collect(),
            }),
            syn::Fields::Unnamed(_) => None,
            syn::Fields::Unit => None,
        },
        Err(_) => None,
    }
}

/// Why no code was generated: the input is not a struct with named fields,
/// or the struct does not have exactly three fields.
#[derive(Clone, Copy, PartialEq, Eq, Structural, Debug)]
pub enum DeriveError {
    NotAStruct,
    WrongFieldCount,
}

impl DeriveError {
    /// A diagnostic identifying the violated precondition.
    pub fn message(&self) -> (r: &'static str)
        ensures
            *self is NotAStruct ==> r@ == "the input is not a struct with named fields"@,
            *self is WrongFieldCount ==> r@ == "the struct must have exactly three fields"@,
    {
        match self {
            DeriveError::NotAStruct => "the input is not a struct with named fields",
            DeriveError::WrongFieldCount => "the struct must have exactly three fields",
        }
    }
}

/// The implementation pairs of a prefix of the operation list, each preceded
/// by a blank line, concatenated in order.
pub open spec fn impls_text(
    ops: Seq<Operation>,
    name: Seq<char>,
    f0: Seq<char>,
    f1: Seq<char>,
    f2: Seq<char>,
) -> Seq<char>
    decreases ops.len(),
{
    if ops.len() == 0 {
        Seq::<char>::empty()
    } else {
        impls_text(ops.drop_last(), name, f0, f1, f2) + "\n"@ + impl_pair_text(
            ops.last(),
            name,
            f0,
            f1,
            f2,
        )
    }
}

/// The full generated output for a struct definition: the definition itself,
/// unchanged, followed by the implementation pairs of all eight operations in
/// the fixed emission order, each preceded by a blank line.
pub open spec fn derived_code(
    item: Seq<char>,
    name: Seq<char>,
    f0: Seq<char>,
    f1: Seq<char>,
    f2: Seq<char>,
) -> Seq<char> {
    item + impls_text(spec_operations(), name, f0, f1, f2)
}

/// The generator's invocation surface: parses one struct definition and
/// returns it with the sixteen generated implementation blocks appended.
/// Text that is not one struct item with named fields, or a struct without
/// exactly three fields, is refused and no code is emitted.
pub fn derive_arith(item: &str) -> (r: Result<String, DeriveError>)
    ensures
        match parsed_struct_of(item@) {
            Option::Some(d) => {
                if d.1.len() == 3 {
                    r matches Ok(out) && out@ == derived_code(item@, d.0, d.1[0], d.1[1], d.1[2])
                } else {
                    r matches Err(e) && e == DeriveError::WrongFieldCount
                }
            },
            Option::None => r matches Err(e) && e == DeriveError::NotAStruct,
        },
{
    match parse_named_struct(item) {
        Option::None => Err(DeriveError::NotAStruct),
        Option::Some(d) => {
            if d.fields.len() != 3 {
                Err(DeriveError::WrongFieldCount)
            } else {
                let blocks: Vec<String> = implement_operations(
                    d.name.as_str(),
                    d.fields[0].as_str(),
                    d.fields[1].as_str(),
                    d.fields[2].as_str(),
                );
                let ghost spec_fields = d.fields.deep_view();
                let mut out: String = String::from_str(item);
                let mut i: usize = 0;
                while i < blocks.len()
                    invariant
                        blocks@.len() == spec_operations().len(),
                        forall|j: int|
                            0 <= j < blocks@.len() ==> blocks@[j]@ == impl_pair_text(
                                spec_operations()[j],
                                d.name@,
                                spec_fields[0],
                                spec_fields[1],
                                spec_fields[2],
                            ),
                        spec_fields.len() == 3,
                        spec_fields[0] == d.fields@[0]@,
                        spec_fields[1] == d.fields@[1]@,
                        spec_fields[2] == d.fields@[2]@,
                        i <= blocks@.len(),
                        out@ == item@ + impls_text(
                            spec_operations().take(i as int),
                            d.name@,
                            spec_fields[0],
                            spec_fields[1],
                            spec_fields[2],
                        ),
                    decreases blocks@.len() - i,
                {
                    out.append("\n");
                    out.append(blocks[i].as_str());
                    proof {
                        let ops = spec_operations();
                        assert(ops.take(i + 1).drop_last() =~= ops.take(i as int));
                        assert(ops.take(i + 1).last() == ops[i as int]);
                    }
                    i = i + 1;
                }
                proof {
                    assert(spec_operations().take(spec_operations().len() as int)
                        =~= spec_operations());
                }
                Ok(out)
            }
        },
    }
}

} // verus!
