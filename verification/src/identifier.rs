//! Names of synthetic bindings: turning any text into a legal identifier.
use vstd::prelude::*;

verus! {

/// Whether a character beyond ASCII may start an identifier. Stands for what
/// the Unicode tables behind `oxc::syntax::identifier::is_identifier_start`
/// answer.
pub uninterp spec fn unicode_identifier_start(c: char) -> bool;

/// Whether a character beyond ASCII may continue an identifier. Stands for what
/// the Unicode tables behind `oxc::syntax::identifier::is_identifier_part`
/// answer.
pub uninterp spec fn unicode_identifier_part(c: char) -> bool;

pub open spec fn is_ascii_letter(c: char) -> bool {
    ('a' <= c && c <= 'z') || ('A' <= c && c <= 'Z')
}

pub open spec fn is_ascii_digit(c: char) -> bool {
    '0' <= c && c <= '9'
}

/// A character that may stand first in an identifier.
pub open spec fn identifier_start(c: char) -> bool {
    if (c as u32) < 128 {
        is_ascii_letter(c) || c == '$' || c == '_'
    } else {
        unicode_identifier_start(c)
    }
}

/// A character that may stand after the first in an identifier.
pub open spec fn identifier_part(c: char) -> bool {
    if (c as u32) < 128 {
        is_ascii_letter(c) || is_ascii_digit(c) || c == '$' || c == '_'
    } else {
        unicode_identifier_part(c)
    }
}

/// A legal identifier: not empty, a start character, then part characters.
pub open spec fn is_identifier(s: Seq<char>) -> bool {
    &&& s.len() > 0
    &&& identifier_start(s[0])
    &&& forall|i: int| 1 <= i < s.len() ==> identifier_part(#[trigger] s[i])
}

/// The character that `legitimized` puts at place `i` of `name`.
pub open spec fn legitimized_char(name: Seq<char>, i: int) -> char {
    let c = name[i];
    if i == 0 {
        if identifier_start(c) { c } else { '_' }
    } else {
        if identifier_part(c) { c } else { '_' }
    }
}

/// `name` with every character that is illegal at its place replaced by `_`;
/// the empty name becomes `_`.
pub open spec fn legitimized(name: Seq<char>) -> Seq<char> {
    if name.len() == 0 {
        seq!['_']
    } else {
        Seq::new(name.len(), |i: int| legitimized_char(name, i))
    }
}

/// Calls `oxc::syntax::identifier::is_identifier_start`. For ASCII the claim
/// is the letters, `$` and `_` of its table; beyond ASCII it is whatever the
/// Unicode tables answer.
#[verifier::external_body]
fn is_identifier_start(c: char) -> (r: bool)
    ensures
        (c as u32) < 128 ==> r == (is_ascii_letter(c) || c == '$' || c == '_'),
        (c as u32) >= 128 ==> r == unicode_identifier_start(c),
{
    oxc::syntax::identifier::is_identifier_start(c)
}

/// Calls `oxc::syntax::identifier::is_identifier_part`. For ASCII the claim
/// is the letters, digits, `$` and `_` of its table; beyond ASCII it is
/// whatever the Unicode tables answer.
#[verifier::external_body]
fn is_identifier_part(c: char) -> (r: bool)
    ensures
        (c as u32) < 128 ==> r == (is_ascii_letter(c) || is_ascii_digit(c) || c == '$' || c == '_'),
        (c as u32) >= 128 ==> r == unicode_identifier_part(c),
{
    oxc::syntax::identifier::is_identifier_part(c)
}

/// Appends one character (`String::push`).
pub assume_specification[ String::push ](s: &mut String, c: char)
    ensures
        final(s)@ == old(s)@.push(c),
;

/// What `legitimized` yields is always a legal identifier.
pub proof fn lemma_legitimized_is_identifier(name: Seq<char>)
    ensures
        is_identifier(legitimized(name)),
        name.len() > 0 ==> legitimized(name).len() == name.len(),
        is_identifier(name) ==> legitimized(name) == name,
{
    if is_identifier(name) {
        assert(legitimized(name) =~= name);
    }
}

/// Makes a legal identifier of `name`: a character that may not stand at its
/// place becomes `_`, and the empty name becomes `_`.
pub fn legitimize_identifier_name(name: &str) -> (r: String)
    ensures
        r@ == legitimized(name@),
        is_identifier(r@),
{
    let n: usize = name.unicode_len();
    let mut out = String::new();
    if n == 0 {
        out.push('_');
        assert(out@ =~= legitimized(name@));
    } else {
        let mut i: usize = 0;
        while i < n
            invariant
                n == name@.len(),
                i <= n,
                out@.len() == i,
                forall|j: int| 0 <= j < i ==> out@[j] == legitimized_char(name@, j),
            decreases n - i,
        {
            let c = name.get_char(i);
            let legal = if i == 0 {
                is_identifier_start(c)
            } else {
                is_identifier_part(c)
            };
            if legal {
                out.push(c);
            } else {
                out.push('_');
            }
            i += 1;
        }
        assert(out@ =~= legitimized(name@));
    }
    proof {
        lemma_legitimized_is_identifier(name@);
    }
    out
}

} // verus!
