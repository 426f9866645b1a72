//! The sanitizer: a name is rewritten, step by step, into one that is safe.
//!
//! The characters that are not allowed are replaced or dropped, the spaces
//! at both ends are cut off, the dots at the end are dealt with as the
//! caller chose, and a name that Windows would take for a device gets a
//! glyph in front.

use crate::laws::{
    corrects_well, guard_fits, lemma_safe_name_is_safe, lemma_simple_choices_correct_well,
};
use crate::policy::{DotHandlingPolicy, ReplaceChar, ReplaceMethod, ReplaceMethodTableConstructor};
use crate::reserved::{is_uppercased_name_reserved, name_is_reserved};
use crate::safety::name_is_safe;
use crate::text::{string_of, to_uppercase};
use std::collections::HashMap;
use vstd::prelude::*;

verus! {

broadcast use vstd::std_specs::hash::group_hash_axioms;

/// What `table` makes of `c`: the entry under the code of `c`, or `c`
/// itself where there is none.
pub open spec fn substituted_char(table: Map<u32, char>, c: char) -> char {
    if table.contains_key(c as u32) {
        table[c as u32]
    } else {
        c
    }
}

/// `name` with each character replaced as `table` says, and without the
/// characters that have become NUL.
pub open spec fn substitute(name: Seq<char>, table: Map<u32, char>) -> Seq<char> {
    name.map_values(|c: char| substituted_char(table, c)).filter(|c: char| c != '\0')
}

/// `name` without the run of `c` at its beginning.
pub open spec fn strip_leading(name: Seq<char>, c: char) -> Seq<char>
    decreases name.len(),
{
    if name.len() > 0 && name.first() == c {
        strip_leading(name.drop_first(), c)
    } else {
        name
    }
}

/// `name` without the run of `c` at its end.
pub open spec fn strip_trailing(name: Seq<char>, c: char) -> Seq<char>
    decreases name.len(),
{
    if name.len() > 0 && name.last() == c {
        strip_trailing(name.drop_last(), c)
    } else {
        name
    }
}

/// `name` without the spaces at its beginning and at its end.
pub open spec fn trim_spaces(name: Seq<char>) -> Seq<char> {
    strip_trailing(strip_leading(name, ' '), ' ')
}

/// Stripping the run of `c` at the beginning of `name` leaves what follows
/// the first `run` characters, where these are `c` and the next is not.
pub proof fn lemma_strip_leading_skips(name: Seq<char>, c: char, run: int)
    requires
        0 <= run <= name.len(),
        forall|i: int| 0 <= i < run ==> name[i] == c,
        run < name.len() ==> name[run] != c,
    ensures
        strip_leading(name, c) == name.skip(run),
    decreases run,
{
    if run == 0 {
        assert(name.skip(0) == name);
    } else {
        lemma_strip_leading_skips(name.drop_first(), c, run - 1);
        assert(name.drop_first().skip(run - 1) == name.skip(run));
    }
}

/// Stripping the run of `c` at the end of `name` leaves the first `kept`
/// characters, where all behind them are `c` and the last of them is not.
pub proof fn lemma_strip_trailing_takes(name: Seq<char>, c: char, kept: int)
    requires
        0 <= kept <= name.len(),
        forall|i: int| kept <= i < name.len() ==> name[i] == c,
        kept > 0 ==> name[kept - 1] != c,
    ensures
        strip_trailing(name, c) == name.take(kept),
    decreases name.len() - kept,
{
    if kept == name.len() {
        assert(name.take(kept) == name);
    } else {
        lemma_strip_trailing_takes(name.drop_last(), c, kept);
        assert(name.drop_last().take(kept) == name.take(kept));
    }
}

/// The characters of `name` as `table` replaces them.
fn substitute_chars(name: &str, table: &HashMap<u32, char>) -> (chars: Vec<char>)
    ensures
        chars@ == substitute(name@, table@),
{
    let mut chars: Vec<char> = Vec::new();
    for chr in iter: name.chars()
        invariant
            chars@ == substitute(iter.seq().take(iter.index() as int), table@),
    {
        let code: u32 = chr as u32;
        let replaced = match table.get(&code) {
            Some(replaced) => *replaced,
            None => chr,
        };
        proof {
            let read = iter.seq().take(iter.index() as int);
            let substituted = |c: char| substituted_char(table@, c);
            assert(iter.seq().take(iter.index() + 1) == read.push(chr));
            assert(read.push(chr).map_values(substituted) == read.map_values(substituted).push(
                replaced,
            ));
            read.map_values(substituted).lemma_filter_push(replaced, |c: char| c != '\0');
        }
        if replaced != '\0' {
            chars.push(replaced);
        }
    }
    proof {
        assert(name@.take(name@.len() as int) == name@);
    }
    chars
}

/// `chars` without the spaces at its beginning and at its end.
fn trim(chars: &Vec<char>) -> (trimmed: Vec<char>)
    ensures
        trimmed@ == trim_spaces(chars@),
{
    let mut start: usize = 0;
    while start < chars.len() && chars[start] == ' '
        invariant
            start <= chars.len(),
            forall|i: int| 0 <= i < start ==> chars@[i] == ' ',
        decreases chars.len() - start,
    {
        start = start + 1;
    }
    let mut end: usize = chars.len();
    while end > start && chars[end - 1] == ' '
        invariant
            start <= end <= chars.len(),
            forall|i: int| end <= i < chars.len() ==> chars@[i] == ' ',
        decreases end,
    {
        end = end - 1;
    }
    let mut trimmed: Vec<char> = Vec::new();
    let mut i: usize = start;
    while i < end
        invariant
            start <= i <= end <= chars.len(),
            trimmed@ == chars@.subrange(start as int, i as int),
        decreases end - i,
    {
        trimmed.push(chars[i]);
        i = i + 1;
    }
    proof {
        let front = chars@.skip(start as int);
        lemma_strip_leading_skips(chars@, ' ', start as int);
        lemma_strip_trailing_takes(front, ' ', end - start);
        assert(front.take(end - start) == chars@.subrange(start as int, end as int));
    }
    trimmed
}

/// `name`, which ends in a dot, with `glyph` written over that dot. Where
/// `table` has an entry for the glyph, which is then one of the characters
/// that the table is there to replace, the dots at the end are stripped
/// instead.
pub open spec fn replace_trailing_dot(name: Seq<char>, table: Map<u32, char>, glyph: char) -> Seq<
    char,
> {
    if table.contains_key(glyph as u32) {
        strip_trailing(name, '.')
    } else {
        name.drop_last().push(glyph)
    }
}

/// The glyph that `policy` writes over the dot at the end of a name, if it
/// writes one: its own, or with `ReplaceWithReplaceMethod` that of
/// `method`, which is the fullwidth dot for `Fullwidth`. Without a glyph
/// the dots are stripped, as they are for the space among the glyphs of a
/// method.
pub open spec fn dot_glyph(method: ReplaceMethod, policy: DotHandlingPolicy) -> Option<char> {
    match policy {
        DotHandlingPolicy::Remove | DotHandlingPolicy::NotCorrect => None,
        DotHandlingPolicy::Replace(replace_char) => Some(replace_char.glyph()),
        DotHandlingPolicy::ReplaceWithReplaceMethod => match method {
            ReplaceMethod::Fullwidth(_) => Some('．'),
            ReplaceMethod::Replace(ReplaceChar::Space) => None,
            ReplaceMethod::Replace(replace_char) => Some(replace_char.glyph()),
            ReplaceMethod::Remove => None,
        },
    }
}

/// `name` with the dots at its end dealt with as `policy` says. A name that
/// does not end in a dot is left as it is, and so is every name under
/// `NotCorrect`.
pub open spec fn resolve_trailing_dots(
    name: Seq<char>,
    table: Map<u32, char>,
    method: ReplaceMethod,
    policy: DotHandlingPolicy,
) -> Seq<char> {
    if name.len() > 0 && name.last() == '.' && !(policy is NotCorrect) {
        match dot_glyph(method, policy) {
            Some(glyph) => replace_trailing_dot(name, table, glyph),
            None => strip_trailing(name, '.'),
        }
    } else {
        name
    }
}

/// `name` after the first three steps: the substitution, the cut of the
/// spaces at both ends, and the dots at the end.
pub open spec fn corrected_name(
    name: Seq<char>,
    table: Map<u32, char>,
    method: ReplaceMethod,
    policy: DotHandlingPolicy,
) -> Seq<char> {
    resolve_trailing_dots(trim_spaces(substitute(name, table)), table, method, policy)
}

/// The glyph that guards a name: the glyph of the method, an underscore
/// where the method has none, and an underscore in place of a dot.
pub open spec fn guard_glyph(method: ReplaceMethod) -> char {
    let glyph = match method {
        ReplaceMethod::Fullwidth(replace_char) => replace_char.glyph(),
        ReplaceMethod::Remove => '_',
        ReplaceMethod::Replace(replace_char) => replace_char.glyph(),
    };
    if glyph == '.' {
        '_'
    } else {
        glyph
    }
}

/// `name` with `guard` in front where it is reserved; an empty name becomes
/// the guard alone.
pub open spec fn guarded_name(name: Seq<char>, reserved: bool, guard: char) -> Seq<char> {
    if reserved {
        seq![guard] + name
    } else if name.len() == 0 {
        seq![guard]
    } else {
        name
    }
}

/// The safe name that is made of `name`.
pub open spec fn safe_name(
    name: Seq<char>,
    table: Map<u32, char>,
    method: ReplaceMethod,
    policy: DotHandlingPolicy,
) -> Seq<char> {
    let corrected = corrected_name(name, table, method, policy);
    guarded_name(corrected, name_is_reserved(corrected, true), guard_glyph(method))
}

/// Strips the dots at the end of `name_chars`.
fn remove(name_chars: &mut Vec<char>)
    ensures
        final(name_chars)@ == strip_trailing(old(name_chars)@, '.'),
{
    while name_chars.len() > 0 && name_chars[name_chars.len() - 1] == '.'
        invariant
            strip_trailing(name_chars@, '.') == strip_trailing(old(name_chars)@, '.'),
        decreases name_chars.len(),
    {
        name_chars.pop();
    }
}

/// Writes the glyph of `replace_char` over the dot at the end of
/// `name_chars`, or strips the dots where `table` would replace the glyph.
fn replace(replace_char: &ReplaceChar, name_chars: &mut Vec<char>, table: &HashMap<u32, char>)
    requires
        old(name_chars)@.len() > 0,
    ensures
        final(name_chars)@ == replace_trailing_dot(old(name_chars)@, table@, replace_char.glyph()),
{
    let chr = replace_char.get_char();
    let code: u32 = chr as u32;
    if table.get(&code).is_some() {
        remove(name_chars);
    } else {
        let last = name_chars.len() - 1;
        name_chars.set(last, chr);
        assert(name_chars@ == old(name_chars)@.drop_last().push(chr));
    }
}

/// The first three steps on `name`: each character is replaced as the
/// table says, or dropped where the table gives NUL; the spaces at both
/// ends are cut off; and the dots at the end are dealt with as
/// `dot_handling_policy` says.
pub fn correct_name(
    name: &str,
    replace_method_table: &ReplaceMethodTableConstructor,
    dot_handling_policy: &DotHandlingPolicy,
) -> (name_chars: Vec<char>)
    requires
        *dot_handling_policy != DotHandlingPolicy::Replace(ReplaceChar::Space),
    ensures
        name_chars@ == corrected_name(
            name@,
            replace_method_table.table@,
            replace_method_table.replace_method,
            *dot_handling_policy,
        ),
{
    let table = &replace_method_table.table;
    let substituted = substitute_chars(name, table);
    let mut name_chars = trim(&substituted);
    if name_chars.len() > 0 && name_chars[name_chars.len() - 1] == '.' {
        match dot_handling_policy {
            DotHandlingPolicy::NotCorrect => {},
            DotHandlingPolicy::Replace(replace_char) => replace(
                replace_char,
                &mut name_chars,
                table,
            ),
            DotHandlingPolicy::Remove => remove(&mut name_chars),
            DotHandlingPolicy::ReplaceWithReplaceMethod => match &replace_method_table.replace_method {
                ReplaceMethod::Fullwidth(_) => replace(
                    &ReplaceChar::Charactor('．'),
                    &mut name_chars,
                    table,
                ),
                ReplaceMethod::Replace(replace_char) => match replace_char {
                    // To replace with a space is a sound choice of method, so
                    // it is no fault here: the dots are stripped.
                    ReplaceChar::Space => remove(&mut name_chars),
                    _ => replace(replace_char, &mut name_chars, table),
                },
                ReplaceMethod::Remove => remove(&mut name_chars),
            },
        }
    }
    name_chars
}

/// The last two steps: `name_chars`, of which `reserved` says whether
/// Windows reserves it, gets the glyph of `replace_method` in front where
/// it is reserved, and becomes that glyph where it is empty.
pub fn guard_name(name_chars: Vec<char>, reserved: bool, replace_method: &ReplaceMethod) -> (guarded:
    Vec<char>)
    ensures
        guarded@ == guarded_name(name_chars@, reserved, guard_glyph(*replace_method)),
{
    let ghost given = name_chars@;
    let mut name_chars = name_chars;
    let mut replace_char = match replace_method {
        ReplaceMethod::Fullwidth(replace_char) => replace_char.get_char(),
        ReplaceMethod::Remove => '_',
        ReplaceMethod::Replace(replace_char) => replace_char.get_char(),
    };
    if replace_char == '.' {
        replace_char = '_';
    }
    if reserved {
        name_chars.insert(0, replace_char);
        assert(name_chars@ == seq![replace_char] + given);
    }
    if name_chars.len() == 0 {
        name_chars.push(replace_char);
        assert(name_chars@ == seq![replace_char]);
    }
    name_chars
}

/// The safe name that is made of `name`, as characters.
fn sanitize(
    name: &str,
    replace_method_table: &ReplaceMethodTableConstructor,
    dot_handling_policy: &DotHandlingPolicy,
) -> (name_chars: Vec<char>)
    requires
        *dot_handling_policy != DotHandlingPolicy::Replace(ReplaceChar::Space),
    ensures
        name_chars@ == safe_name(
            name@,
            replace_method_table.table@,
            replace_method_table.replace_method,
            *dot_handling_policy,
        ),
{
    let name_chars = correct_name(name, replace_method_table, dot_handling_policy);
    let upper = to_uppercase(&name_chars);
    let reserved = is_uppercased_name_reserved(&upper, true);
    guard_name(name_chars, reserved, &replace_method_table.replace_method)
}

/// Makes a safe name of `name`.
///
/// `replace_method_table` says what takes the place of the characters that
/// are not allowed, `dot_handling_policy` what becomes of the dots at the
/// end. The policy may not be `DotHandlingPolicy::Replace` with
/// `ReplaceChar::Space`: a space cannot stand at the end of a name, so use
/// `DotHandlingPolicy::Remove`.
pub fn to_safe_name(
    name: &String,
    replace_method_table: ReplaceMethodTableConstructor,
    dot_handling_policy: DotHandlingPolicy,
) -> (safe: String)
    requires
        dot_handling_policy != DotHandlingPolicy::Replace(ReplaceChar::Space),
    ensures
        safe@ == safe_name(
            name@,
            replace_method_table.table@,
            replace_method_table.replace_method,
            dot_handling_policy,
        ),
        replace_method_table.is_compiled() && corrects_well(
            name@,
            replace_method_table.replace_method,
            dot_handling_policy,
        ) ==> name_is_safe(safe@, false, true),
{
    proof {
        if replace_method_table.is_compiled() && corrects_well(
            name@,
            replace_method_table.replace_method,
            dot_handling_policy,
        ) {
            lemma_safe_name_is_safe(
                name@,
                replace_method_table.replace_method,
                dot_handling_policy,
            );
        }
    }
    let name_chars = sanitize(name.as_str(), &replace_method_table, &dot_handling_policy);
    string_of(&name_chars)
}

/// Makes a safe name of `name` with the usual choices.
///
/// With `fullwidth` a punctuation character that is not allowed becomes
/// its fullwidth look-alike; without it, an underscore. A control
/// character becomes an underscore either way, and the last dot at the end
/// of the name the glyph that the method writes.
pub fn simply_to_safe_name(name: &str, fullwidth: bool) -> (safe: String)
    ensures
        safe@ == safe_name(
            name@,
            simple_method(fullwidth).table(),
            simple_method(fullwidth),
            DotHandlingPolicy::ReplaceWithReplaceMethod,
        ),
        guard_fits('_') ==> name_is_safe(safe@, false, true),
{
    proof {
        if guard_fits('_') {
            lemma_simple_choices_correct_well(name@, fullwidth);
            lemma_safe_name_is_safe(
                name@,
                simple_method(fullwidth),
                DotHandlingPolicy::ReplaceWithReplaceMethod,
            );
        }
    }
    let replace_method_table = if fullwidth {
        ReplaceMethod::Fullwidth(ReplaceChar::Underscore).compile()
    } else {
        ReplaceMethod::Replace(ReplaceChar::Underscore).compile()
    };
    let name_chars = sanitize(
        name,
        &replace_method_table,
        &DotHandlingPolicy::ReplaceWithReplaceMethod,
    );
    string_of(&name_chars)
}

/// The method of `simply_to_safe_name`.
pub open spec fn simple_method(fullwidth: bool) -> ReplaceMethod {
    if fullwidth {
        ReplaceMethod::Fullwidth(ReplaceChar::Underscore)
    } else {
        ReplaceMethod::Replace(ReplaceChar::Underscore)
    }
}

} // verus!
