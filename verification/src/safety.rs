//! The safety predicate: can a name be used as it is?

use crate::reserved::{is_name_reserved, lemma_strict_check_reserves_more, name_is_reserved};
use crate::rules::{has_not_allowed_char, lemma_not_allowed_chars_table, NOT_ALLOWED_CHARS};
use crate::text::{chars_of, uppercase};
use vstd::prelude::*;

verus! {

/// Windows neither refuses `name` nor changes it in silence, where
/// `reserved` says whether the name is reserved.
///
/// It refuses a name that holds a character that is not allowed, and a
/// name that is reserved. It changes a name that ends in a dot or in a
/// space, and so does a strict system with a name that begins with a
/// space; an empty name is no name. With `only_check_creatable` only what
/// Windows refuses counts.
pub open spec fn is_safe_unless_reserved(
    name: Seq<char>,
    reserved: bool,
    only_check_creatable: bool,
    strict_check: bool,
) -> bool {
    &&& !has_not_allowed_char(name)
    &&& !reserved
    &&& only_check_creatable || {
        &&& name.len() > 0
        &&& name.last() != '.'
        &&& name.last() != ' '
        &&& !(strict_check && name.first() == ' ')
    }
}

/// Windows neither refuses `name` nor changes it in silence.
pub open spec fn name_is_safe(name: Seq<char>, only_check_creatable: bool, strict_check: bool) -> bool {
    is_safe_unless_reserved(
        name,
        name_is_reserved(name, strict_check),
        only_check_creatable,
        strict_check,
    )
}

/// Some character of `name` is not allowed.
fn holds_not_allowed_char(name: &Vec<char>) -> (found: bool)
    ensures
        found == has_not_allowed_char(name@),
{
    proof {
        lemma_not_allowed_chars_table();
    }
    let mut i: usize = 0;
    while i < 41
        invariant
            i <= 41,
            forall|k: int, j: int|
                0 <= k < i && 0 <= j < name@.len() ==> NOT_ALLOWED_CHARS@[k] != name@[j],
        decreases 41 - i,
    {
        let not_allowed_char = NOT_ALLOWED_CHARS[i];
        let mut j: usize = 0;
        while j < name.len()
            invariant
                j <= name.len(),
                i < 41,
                not_allowed_char == NOT_ALLOWED_CHARS@[i as int],
                forall|k: int| 0 <= k < j ==> not_allowed_char != name@[k],
            decreases name.len() - j,
        {
            if not_allowed_char == name[j] {
                proof {
                    lemma_not_allowed_chars_table();
                    assert(NOT_ALLOWED_CHARS@[i as int] == name@[j as int]);
                }
                return true;
            }
            j = j + 1;
        }
        i = i + 1;
    }
    proof {
        assert forall|j: int| 0 <= j < name@.len() implies !NOT_ALLOWED_CHARS@.contains(
            #[trigger] name@[j],
        ) by {
            if NOT_ALLOWED_CHARS@.contains(name@[j]) {
                let k = choose|k: int|
                    0 <= k < NOT_ALLOWED_CHARS@.len() && NOT_ALLOWED_CHARS@[k] == name@[j];
                assert(NOT_ALLOWED_CHARS@[k] != name@[j]);
            }
        }
    }
    false
}

/// Can a name of the characters `name_chars` be used as it is, where
/// `reserved` says whether Windows reserves it?
///
/// The checks are made in this order: a character that is not allowed;
/// `reserved`; then, unless `only_check_creatable`, a dot at the end (or no
/// character at all), a space at the end and, with `strict_check`, a space
/// at the beginning.
pub fn is_safe_unless_name_reserved(
    name_chars: &Vec<char>,
    reserved: bool,
    only_check_creatable: bool,
    strict_check: bool,
) -> (safe: bool)
    ensures
        safe == is_safe_unless_reserved(name_chars@, reserved, only_check_creatable, strict_check),
{
    if holds_not_allowed_char(name_chars) {
        return false;
    }
    if reserved {
        return false;
    }
    if only_check_creatable {
        return true;
    }
    if name_chars.len() == 0 || name_chars[name_chars.len() - 1] == '.' {
        return false;
    }
    if name_chars[name_chars.len() - 1] == ' ' {
        return false;
    }
    if strict_check && name_chars[0] == ' ' {
        return false;
    }
    true
}

/// Can `name` be used as it is?
///
/// Windows does one of three things with a name: it refuses to create the
/// file, it creates the file under another name without a word, or it
/// creates the file under this name. With `only_check_creatable` the
/// answer is `false` in the first case alone, without it in the first two.
///
/// `strict_check` is that of `is_name_reserved`; without
/// `only_check_creatable` it also has a name that begins with a space
/// refused.
pub fn is_safe_name(name: &String, only_check_creatable: bool, strict_check: bool) -> (safe: bool)
    ensures
        safe == name_is_safe(name@, only_check_creatable, strict_check),
{
    let name_chars = chars_of(name.as_str());
    let reserved = is_name_reserved(name, strict_check);
    is_safe_unless_name_reserved(&name_chars, reserved, only_check_creatable, strict_check)
}

/// A name that is safe with `strict_check` and without
/// `only_check_creatable` is safe whatever the two are.
pub proof fn lemma_safe_at_the_strictest(
    name: Seq<char>,
    only_check_creatable: bool,
    strict_check: bool,
)
    requires
        name_is_safe(name, false, true),
    ensures
        name_is_safe(name, only_check_creatable, strict_check),
{
    if name_is_reserved(name, false) {
        lemma_strict_check_reserves_more(uppercase(name));
    }
}

} // verus!
