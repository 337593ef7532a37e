//! Paste identifiers: short random tokens of letters and digits.

use rand::distributions::Alphanumeric;
use rand::Rng;
use vstd::prelude::*;
use vstd::string::*;

use crate::key::SEPARATOR;

verus! {

/// The number of characters in an identifier.
pub const ID_LENGTH: usize = 7;

/// `c` is an ASCII letter or digit.
pub open spec fn is_alphanumeric(c: char) -> bool {
    ||| '0' <= c <= '9'
    ||| 'A' <= c <= 'Z'
    ||| 'a' <= c <= 'z'
}

/// `id` has the shape of an identifier: `ID_LENGTH` letters and digits.
pub open spec fn is_identifier(id: Seq<char>) -> bool {
    &&& id.len() == ID_LENGTH
    &&& forall|i: int| 0 <= i < id.len() ==> is_alphanumeric(#[trigger] id[i])
}

/// No identifier holds the key separator.
pub proof fn lemma_identifier_has_no_separator(id: Seq<char>)
    requires
        is_identifier(id),
    ensures
        !id.contains(SEPARATOR),
{
    if id.contains(SEPARATOR) {
        let i = choose|i: int| 0 <= i < id.len() && id[i] == SEPARATOR;
        assert(is_alphanumeric(id[i]));
    }
}

/// One draw from `rand`'s `Alphanumeric` distribution with the thread's
/// generator. Every outcome is the ASCII code of a letter or a digit; which
/// one is left open, and two draws may differ.
#[verifier::external_body]
fn sample_alphanumeric() -> (byte: u8)
    ensures
        is_alphanumeric(byte as char),
{
    rand::thread_rng().sample(Alphanumeric)
}

/// Whether `c` is an ASCII letter or digit.
pub fn alphanumeric(c: char) -> (yes: bool)
    ensures
        yes == is_alphanumeric(c),
{
    ('0' <= c && c <= '9') || ('A' <= c && c <= 'Z') || ('a' <= c && c <= 'z')
}

/// Whether `id` has the shape of an identifier.
pub fn valid_identifier(id: &str) -> (yes: bool)
    ensures
        yes == is_identifier(id@),
{
    let mut count: usize = 0;
    let mut clean = true;
    let len = id.unicode_len();
    for c in chars: id.chars()
        invariant
            chars.seq() == id@,
            len == id@.len(),
            count == chars.index(),
            clean == forall|i: int| 0 <= i < count ==> is_alphanumeric(#[trigger] id@[i]),
    {
        if !alphanumeric(c) {
            clean = false;
        }
        count = count + 1;
    }
    clean && count == ID_LENGTH
}

/// A fresh identifier: `ID_LENGTH` characters, each drawn at random from the
/// letters and digits. Always succeeds. Nothing is promised about which
/// identifier comes out, nor that two calls differ.
pub fn new_id() -> (id: String)
    ensures
        is_identifier(id@),
{
    let mut id = String::new();
    let mut drawn: usize = 0;
    while drawn < ID_LENGTH
        invariant
            drawn <= ID_LENGTH,
            id@.len() == drawn,
            forall|i: int| 0 <= i < id@.len() ==> is_alphanumeric(#[trigger] id@[i]),
        decreases ID_LENGTH - drawn,
    {
        let byte = sample_alphanumeric();
        id.push(byte as char);
        drawn = drawn + 1;
    }
    id
}

} // verus!
