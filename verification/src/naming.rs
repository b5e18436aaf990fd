//! Derivation of snake_case method names from capitalized operation names.
//!
//! The operator-overload protocol of the target language names each operator
//! trait in capitalized-words form (`"AddAssign"`) and the method it demands
//! in lowercase, underscore-separated form (`"add_assign"`). [`to_snake_case`]
//! performs that conversion: before every uppercase letter except the first
//! character a separator is inserted, and every letter is lowercased.

use vstd::prelude::*;
use vstd::string::StrSliceExecFns;

verus! {

/// An ASCII uppercase letter.
pub open spec fn is_ascii_upper(c: char) -> bool {
    'A' <= c && c <= 'Z'
}

/// An ASCII lowercase letter.
pub open spec fn is_ascii_lower(c: char) -> bool {
    'a' <= c && c <= 'z'
}

/// An ASCII letter of either case.
pub open spec fn is_ascii_letter(c: char) -> bool {
    is_ascii_upper(c) || is_ascii_lower(c)
}

/// A well-formed operation name: one or more capitalized words written
/// without separators, so the text is non-empty, consists of ASCII letters
/// only, and starts with an uppercase letter.
pub open spec fn is_capitalized_words(s: Seq<char>) -> bool {
    &&& s.len() > 0
    &&& forall|i: int| 0 <= i < s.len() ==> is_ascii_letter(#[trigger] s[i])
    &&& is_ascii_upper(s[0])
}

/// The lowercase form of an ASCII letter; any other character is unchanged.
pub open spec fn lower_char(c: char) -> char {
    if is_ascii_upper(c) {
        ((c as int) + 32) as char
    } else {
        c
    }
}

/// What one character contributes to the snake_case form: an uppercase
/// letter anywhere but at the start contributes a separator and its
/// lowercase form; every other character contributes its lowercase form.
pub open spec fn snake_char(c: char, first: bool) -> Seq<char> {
    if is_ascii_upper(c) && !first {
        seq!['_', lower_char(c)]
    } else {
        seq![lower_char(c)]
    }
}

/// The snake_case form of a name: each character's contribution under
/// [`snake_char`], concatenated left to right.
pub open spec fn snake_of(s: Seq<char>) -> Seq<char>
    decreases s.len(),
{
    if s.len() == 0 {
        Seq::<char>::empty()
    } else {
        snake_of(s.drop_last()) + snake_char(s.last(), s.len() == 1)
    }
}

/// Relies on `String::from_utf8`: a vector of ASCII bytes is valid UTF-8 and
/// decodes to the sequence of characters with the same code points.
#[verifier::external_body]
fn ascii_bytes_to_string(bytes: Vec<u8>) -> (r: String)
    requires
        forall|i: int| 0 <= i < bytes@.len() ==> bytes@[i] < 128,
    ensures
        r@ == bytes@.map_values(|b: u8| b as char),
{
    String::from_utf8(bytes).unwrap_or_default()
}

/// Converts an operation name in capitalized-words form to the snake_case
/// method name the operator-overload protocol expects: `"AddAssign"` becomes
/// `"add_assign"`, `"Add"` becomes `"add"`.
pub fn to_snake_case(s: &str) -> (r: String)
    requires
        is_capitalized_words(s@),
    ensures
        r@ == snake_of(s@),
{
    proof {
        assert forall|i: int| 0 <= i < s@.len() implies '\0' <= #[trigger] s@[i] <= '\u{7f}' by {
            assert(is_ascii_letter(s@[i]));
        }
        assert(s.is_ascii());
    }
    let n: usize = s.unicode_len();
    let mut out: Vec<u8> = Vec::new();
    let mut i: usize = 0;
    while i < n
        invariant
            is_capitalized_words(s@),
            vstd::string::is_ascii(s),
            n == s@.len(),
            i <= n,
            out@.map_values(|b: u8| b as char) == snake_of(s@.take(i as int)),
            forall|j: int| 0 <= j < out@.len() ==> out@[j] < 128,
        decreases n - i,
    {
        let ghost prefix = s@.take(i as int);
        let ghost c = s@[i as int];
        let b: u8 = s.get_ascii(i);
        proof {
            assert(is_ascii_letter(c));
            assert(c as u8 == b);
        }
        if 65 <= b && b <= 90 {
            if i > 0 {
                out.push(95);
            }
            out.push(b + 32);
        } else {
            out.push(b);
        }
        proof {
            assert(s@.take(i + 1).drop_last() =~= prefix);
            assert(s@.take(i + 1).last() == c);
            assert(snake_of(s@.take(i + 1)) == snake_of(prefix) + snake_char(c, i == 0));
            if is_ascii_upper(c) {
                assert(lower_char(c) == ((b + 32) as char));
            } else {
                assert(lower_char(c) == (b as char));
            }
            assert('_' == (95u8 as char));
            assert(out@.map_values(|x: u8| x as char) =~= snake_of(prefix) + snake_char(
                c,
                i == 0,
            ));
        }
        i = i + 1;
    }
    proof {
        assert(s@.take(n as int) =~= s@);
    }
    ascii_bytes_to_string(out)
}

} // verus!
