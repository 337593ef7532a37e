//! Storage keys: an identifier and a language tag joined by one separator.

use vstd::prelude::*;
use vstd::string::*;

verus! {

/// The character that stands between the identifier and the language tag.
pub const SEPARATOR: char = '.';

/// The storage key of a paste: identifier, separator, language tag.
pub open spec fn encode_key(id: Seq<char>, language: Seq<char>) -> Seq<char> {
    id + seq![SEPARATOR] + language
}

/// `at` is the position of the first separator of `key`.
pub open spec fn is_first_separator(key: Seq<char>, at: int) -> bool {
    &&& 0 <= at < key.len()
    &&& key[at] == SEPARATOR
    &&& forall|j: int| 0 <= j < at ==> key[j] != SEPARATOR
}

/// The identifier and the language tag of a key: what stands before its first
/// separator and what stands after it. A key without a separator is all
/// identifier and has the empty tag.
pub open spec fn decode_key(key: Seq<char>) -> (Seq<char>, Seq<char>) {
    if exists|at: int| is_first_separator(key, at) {
        let at = choose|at: int| is_first_separator(key, at);
        (key.take(at), key.skip(at + 1))
    } else {
        (key, Seq::empty())
    }
}

/// The language tag that a key carries.
pub open spec fn key_language(key: Seq<char>) -> Seq<char> {
    decode_key(key).1
}

/// A key has at most one first separator.
pub proof fn lemma_first_separator_unique(key: Seq<char>, a: int, b: int)
    requires
        is_first_separator(key, a),
        is_first_separator(key, b),
    ensures
        a == b,
{
    if a < b {
        assert(key[a] != SEPARATOR);
    } else if b < a {
        assert(key[b] != SEPARATOR);
    }
}

/// Decoding undoes encoding for every identifier that holds no separator,
/// whatever the language tag holds.
pub proof fn lemma_decode_encode(id: Seq<char>, language: Seq<char>)
    requires
        !id.contains(SEPARATOR),
    ensures
        decode_key(encode_key(id, language)) == (id, language),
{
    let key = encode_key(id, language);
    let at = id.len() as int;
    assert(is_first_separator(key, at)) by {
        assert forall|j: int| 0 <= j < at implies key[j] != SEPARATOR by {
            assert(key[j] == id[j]);
            assert(id.contains(id[j]));
        }
    }
    let chosen = choose|c: int| is_first_separator(key, c);
    lemma_first_separator_unique(key, at, chosen);
    assert(key.take(at) =~= id);
    assert(key.skip(at + 1) =~= language);
}

/// Encoding what a key decodes to gives the key back, provided the key has a
/// separator.
pub proof fn lemma_encode_decode(key: Seq<char>)
    requires
        key.contains(SEPARATOR),
    ensures
        encode_key(decode_key(key).0, decode_key(key).1) == key,
        !decode_key(key).0.contains(SEPARATOR),
{
    lemma_has_first_separator(key);
    let at = choose|at: int| is_first_separator(key, at);
    let id = key.take(at);
    assert(encode_key(id, key.skip(at + 1)) =~= key);
    if id.contains(SEPARATOR) {
        let j = choose|j: int| 0 <= j < id.len() && id[j] == SEPARATOR;
        assert(key[j] == SEPARATOR);
    }
}

/// A key that holds a separator has a first one.
pub proof fn lemma_has_first_separator(key: Seq<char>)
    requires
        key.contains(SEPARATOR),
    ensures
        exists|at: int| is_first_separator(key, at),
    decreases key.len(),
{
    let i = choose|i: int| 0 <= i < key.len() && key[i] == SEPARATOR;
    if exists|j: int| 0 <= j < i && key[j] == SEPARATOR {
        let j = choose|j: int| 0 <= j < i && key[j] == SEPARATOR;
        let head = key.take(i);
        assert(head[j] == SEPARATOR);
        lemma_has_first_separator(head);
        let at = choose|at: int| is_first_separator(head, at);
        assert(is_first_separator(key, at)) by {
            assert(key[at] == head[at]);
            assert forall|k: int| 0 <= k < at implies key[k] != SEPARATOR by {
                assert(key[k] == head[k]);
            }
        }
    } else {
        assert(is_first_separator(key, i));
    }
}

/// Joins an identifier and a language tag into the key under which the paste
/// is stored. The tag is taken as it is; it only has to be there.
pub fn encode(id: &str, language: &str) -> (key: String)
    requires
        language@.len() > 0,
    ensures
        key@ == encode_key(id@, language@),
{
    let mut key = String::from_str(id);
    key.append(".");
    key.append(language);
    proof {
        reveal_strlit(".");
        assert("."@ =~= seq![SEPARATOR]);
    }
    key
}

/// Splits a key at its first separator into identifier and language tag.
/// Never fails: a key without a separator is all identifier, with the empty
/// tag.
pub fn decode(key: &str) -> (parts: (String, String))
    ensures
        (parts.0@, parts.1@) == decode_key(key@),
{
    let len = key.unicode_len();
    let mut at: usize = 0;
    let mut found = false;
    for c in chars: key.chars()
        invariant
            chars.seq() == key@,
            len == key@.len(),
            at <= chars.index(),
            found ==> is_first_separator(key@, at as int),
            !found ==> at == chars.index(),
            !found ==> forall|j: int| 0 <= j < at ==> key@[j] != SEPARATOR,
    {
        if !found {
            if c == SEPARATOR {
                found = true;
            } else {
                at = at + 1;
            }
        }
    }
    if found {
        proof {
            let chosen = choose|c: int| is_first_separator(key@, c);
            lemma_first_separator_unique(key@, at as int, chosen);
        }
        let id = String::from_str(key.substring_char(0, at));
        let language = String::from_str(key.substring_char(at + 1, len));
        (id, language)
    } else {
        (String::from_str(key), String::new())
    }
}

} // verus!
