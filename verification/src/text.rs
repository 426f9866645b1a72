//! Names as sequences of characters: reading a string, writing one, and
//! the uppercase form that device names are compared in.

use vstd::prelude::*;
use vstd::seq_lib::lemma_flatten_concat;

verus! {

/// The uppercase form of one character, as `char::to_uppercase` of the
/// standard library gives it: mostly one character, for a few characters
/// two or three (`ß` becomes `SS`).
pub uninterp spec fn char_uppercase(c: char) -> Seq<char>;

/// The uppercase form of a name: the uppercase forms of its characters, one
/// behind the other.
pub open spec fn uppercase(name: Seq<char>) -> Seq<char> {
    name.flat_map(|c: char| char_uppercase(c))
}

/// Calls `char::to_uppercase` and collects the characters that it yields.
/// Nothing is proved of them: they are what `char_uppercase` names.
#[verifier::external_body]
fn uppercase_of_char(c: char) -> (upper: Vec<char>)
    ensures
        upper@ == char_uppercase(c),
{
    c.to_uppercase().collect()
}

/// Calls `String::from_iter` on the characters of `chars`: the string of
/// these characters, in their order.
#[verifier::external_body]
pub(crate) fn string_of(chars: &Vec<char>) -> (name: String)
    ensures
        name@ == chars@,
{
    String::from_iter(chars.iter())
}

/// The characters of `name`.
pub fn chars_of(name: &str) -> (chars: Vec<char>)
    ensures
        chars@ == name@,
{
    let mut chars: Vec<char> = Vec::new();
    for c in iter: name.chars()
        invariant
            chars@ == iter.seq().take(iter.index() as int),
    {
        chars.push(c);
    }
    chars
}

/// The uppercase form of `name`.
pub fn to_uppercase(name: &Vec<char>) -> (upper: Vec<char>)
    ensures
        upper@ == uppercase(name@),
{
    let mut upper: Vec<char> = Vec::new();
    let mut i: usize = 0;
    while i < name.len()
        invariant
            i <= name.len(),
            upper@ == uppercase(name@.take(i as int)),
        decreases name.len() - i,
    {
        let mut one = uppercase_of_char(name[i]);
        upper.append(&mut one);
        proof {
            name@.lemma_flat_map_take_append(|c: char| char_uppercase(c), i as int);
        }
        i = i + 1;
    }
    proof {
        assert(name@.take(i as int) == name@);
    }
    upper
}

/// The uppercase form of two names in a row is the uppercase form of the
/// first with that of the second behind it.
pub proof fn lemma_uppercase_concat(front: Seq<char>, back: Seq<char>)
    ensures
        uppercase(front + back) == uppercase(front) + uppercase(back),
{
    let f = |c: char| char_uppercase(c);
    assert((front + back).map_values(f) == front.map_values(f) + back.map_values(f));
    lemma_flatten_concat(front.map_values(f), back.map_values(f));
}

/// The uppercase form of a name of one character is the uppercase form of
/// the character.
pub proof fn lemma_uppercase_one(c: char)
    ensures
        uppercase(seq![c]) == char_uppercase(c),
{
    seq![c].lemma_flat_map_singleton(|c: char| char_uppercase(c));
}

} // verus!
