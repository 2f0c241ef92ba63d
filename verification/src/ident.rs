//! Identifiers: 26-character, time-ordered, Crockford base 32.

use ulid::Ulid;
use vstd::prelude::*;

verus! {

/// Whether `c` is a digit of the identifier alphabet: `0`-`9` and the
/// capital letters without `I`, `L`, `O` and `U`.
pub open spec fn is_id_char(c: char) -> bool {
    ||| '0' <= c <= '9'
    ||| 'A' <= c <= 'H'
    ||| c == 'J'
    ||| c == 'K'
    ||| c == 'M'
    ||| c == 'N'
    ||| 'P' <= c <= 'T'
    ||| 'V' <= c <= 'Z'
}

/// Whether `s` has the form of an identifier.
pub open spec fn is_id_text(s: Seq<char>) -> bool {
    &&& s.len() == 26
    &&& forall|i: int| 0 <= i < s.len() ==> is_id_char(#[trigger] s[i])
}

/// Whether `c` is a digit of the identifier alphabet.
pub fn id_char(c: char) -> (r: bool)
    ensures
        r == is_id_char(c),
{
    ('0' <= c && c <= '9') || ('A' <= c && c <= 'H') || c == 'J' || c == 'K' || c == 'M' || c == 'N'
        || ('P' <= c && c <= 'T') || ('V' <= c && c <= 'Z')
}

/// `Ulid::generate` followed by `Ulid::to_string`: a new identifier made
/// from the clock and a random number. Which one comes back is open; it
/// always has 26 characters, each of them from the identifier alphabet.
#[verifier::external_body]
pub(crate) fn fresh_id() -> (r: String)
    ensures
        is_id_text(r@),
{
    Ulid::generate().to_string()
}

/// The author of every system message: the identifier made of zeros.
pub open spec fn system_author() -> Seq<char> {
    Seq::new(26, |i: int| '0')
}

/// The author of every system message: the identifier made of zeros.
pub fn system_author_id() -> (r: String)
    ensures
        r@ == system_author(),
{
    proof {
        reveal_strlit("00000000000000000000000000");
    }
    let r = "00000000000000000000000000".to_owned();
    assert(r@ =~= system_author());
    r
}

} // verus!
