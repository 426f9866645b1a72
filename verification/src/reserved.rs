//! The detector of reserved names: does Windows take a name for a device?

use crate::rules::{
    is_device_name, is_plain_device_name, is_port_name, lemma_reserved_names_are_device_names,
    reserved_names, NOT_ALLOWED_NAMES, NOT_ALLOWED_NAMES_WIN11,
};
use crate::text::{chars_of, to_uppercase, uppercase};
use vstd::prelude::*;
use vstd::string::StrSliceExecFns;

verus! {

/// A name in uppercase is reserved where it is a device name. With
/// `strict_check` it is also reserved where it begins with a device name
/// and a dot: to Windows 10, `NUL.txt` is the device `NUL`.
pub open spec fn is_reserved_uppercase(upper: Seq<char>, strict_check: bool) -> bool {
    ||| reserved_names(strict_check).contains(upper)
    ||| strict_check && upper.len() > 3 && upper[3] == '.' && reserved_names(true).contains(
        upper.take(3),
    )
    ||| strict_check && upper.len() > 4 && upper[4] == '.' && reserved_names(true).contains(
        upper.take(4),
    )
}

/// A name is reserved where its uppercase form is.
pub open spec fn name_is_reserved(name: Seq<char>, strict_check: bool) -> bool {
    is_reserved_uppercase(uppercase(name), strict_check)
}

/// The first `len` characters of `chars` are the string `entry`.
fn starts_with_entry(chars: &Vec<char>, len: usize, entry: &str) -> (equal: bool)
    requires
        len <= chars.len(),
    ensures
        equal == (chars@.take(len as int) == entry@),
{
    if entry.unicode_len() != len {
        return false;
    }
    let mut i: usize = 0;
    while i < len
        invariant
            i <= len,
            len <= chars.len(),
            entry@.len() == len,
            forall|k: int| 0 <= k < i ==> chars@[k] == entry@[k],
        decreases len - i,
    {
        if entry.get_char(i) != chars[i] {
            assert(chars@.take(len as int)[i as int] != entry@[i as int]);
            return false;
        }
        i = i + 1;
    }
    assert(chars@.take(len as int) =~= entry@);
    true
}

/// The first `len` characters of `upper` are an entry of the table of
/// reserved names.
fn starts_with_reserved_name(upper: &Vec<char>, len: usize, strict_check: bool) -> (listed: bool)
    requires
        len <= upper.len(),
    ensures
        listed == reserved_names(strict_check).contains(upper@.take(len as int)),
{
    let count: usize = if strict_check { 30 } else { 28 };
    let mut i: usize = 0;
    while i < count
        invariant
            i <= count,
            count == reserved_names(strict_check).len(),
            len <= upper.len(),
            forall|k: int| 0 <= k < i ==> reserved_names(strict_check)[k] != upper@.take(len as int),
        decreases count - i,
    {
        let entry: &str = if strict_check {
            NOT_ALLOWED_NAMES[i]
        } else {
            NOT_ALLOWED_NAMES_WIN11[i]
        };
        if starts_with_entry(upper, len, entry) {
            assert(reserved_names(strict_check)[i as int] == upper@.take(len as int));
            return true;
        }
        i = i + 1;
    }
    false
}

/// Is a name whose uppercase form is `upper` reserved?
pub fn is_uppercased_name_reserved(upper: &Vec<char>, strict_check: bool) -> (reserved: bool)
    ensures
        reserved == is_reserved_uppercase(upper@, strict_check),
{
    proof {
        assert(upper@.take(upper@.len() as int) == upper@);
    }
    if starts_with_reserved_name(upper, upper.len(), strict_check) {
        return true;
    }
    if !strict_check {
        return false;
    }
    proof {
        lemma_reserved_names_are_device_names(upper@.take(3), true);
        lemma_reserved_names_are_device_names(upper@.take(4), true);
        if upper@.len() == 3 {
            assert(upper@.take(3) == upper@);
        }
        if upper@.len() == 4 {
            assert(upper@.take(4) == upper@);
        }
    }
    if upper.len() >= 3 && starts_with_reserved_name(upper, 3, true) {
        return upper[3] == '.';
    }
    if upper.len() >= 4 && starts_with_reserved_name(upper, 4, true) {
        return upper[4] == '.';
    }
    false
}

/// Is `name` reserved by Windows?
///
/// Windows 10 reserves more than Windows 11 does. With `strict_check` a
/// name is reserved where either of them reserves it, without it where
/// Windows 11 does.
pub fn is_name_reserved(name: &String, strict_check: bool) -> (reserved: bool)
    ensures
        reserved == name_is_reserved(name@, strict_check),
{
    let chars = chars_of(name.as_str());
    let upper = to_uppercase(&chars);
    is_uppercased_name_reserved(&upper, strict_check)
}

/// The detector, letter for letter: a name in uppercase is reserved where
/// it is a device name and, with `strict_check`, where a device name is
/// its beginning and a dot comes next.
pub proof fn lemma_reserved_uppercase_by_letters(upper: Seq<char>, strict_check: bool)
    ensures
        is_reserved_uppercase(upper, strict_check) <==> {
            ||| is_device_name(upper, strict_check)
            ||| strict_check && upper.len() > 3 && upper[3] == '.' && is_plain_device_name(
                upper.take(3),
            )
            ||| strict_check && upper.len() > 4 && upper[4] == '.' && is_port_name(
                upper.take(4),
                true,
            )
        },
{
    lemma_reserved_names_are_device_names(upper, strict_check);
    lemma_reserved_names_are_device_names(upper.take(3), true);
    lemma_reserved_names_are_device_names(upper.take(4), true);
}

/// Small and capital letters make no difference: two names with the same
/// uppercase form are reserved alike.
pub proof fn lemma_reserved_whatever_the_case(name: Seq<char>, other: Seq<char>, strict_check: bool)
    requires
        uppercase(name) == uppercase(other),
    ensures
        name_is_reserved(name, strict_check) == name_is_reserved(other, strict_check),
{
}

/// What is reserved without `strict_check` is reserved with it.
pub proof fn lemma_strict_check_reserves_more(upper: Seq<char>)
    requires
        is_reserved_uppercase(upper, false),
    ensures
        is_reserved_uppercase(upper, true),
{
    lemma_reserved_names_are_device_names(upper, false);
    lemma_reserved_names_are_device_names(upper, true);
}

} // verus!
