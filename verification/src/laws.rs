//! What holds of the sanitizer and the safety predicate together: the name
//! that `to_safe_name` makes is one that `is_safe_name` accepts.

use crate::policy::{lemma_table_is_total, DotHandlingPolicy, ReplaceChar, ReplaceMethod};
use crate::reserved::{is_reserved_uppercase, name_is_reserved};
use crate::rules::{
    has_not_allowed_char, is_not_allowed_char, lemma_reserved_names_are_device_names,
};
use crate::safety::name_is_safe;
use crate::sanitize::{
    corrected_name, dot_glyph, guard_glyph, guarded_name, resolve_trailing_dots, safe_name,
    simple_method,
    strip_leading, strip_trailing, substitute, substituted_char, trim_spaces,
};
use crate::text::{char_uppercase, lemma_uppercase_concat, lemma_uppercase_one, uppercase};
use vstd::prelude::*;

verus! {

/// What is left when the run of `c` at the beginning of `name` is stripped
/// is the end of `name`, and does not begin with `c`; what is stripped is
/// `c` throughout.
pub proof fn lemma_strip_leading(name: Seq<char>, c: char)
    ensures
        strip_leading(name, c).len() <= name.len(),
        strip_leading(name, c) == name.skip(name.len() - strip_leading(name, c).len()),
        strip_leading(name, c).len() > 0 ==> strip_leading(name, c).first() != c,
        forall|i: int| 0 <= i < name.len() - strip_leading(name, c).len() ==> name[i] == c,
    decreases name.len(),
{
    if name.len() > 0 && name.first() == c {
        let rest = name.drop_first();
        lemma_strip_leading(rest, c);
        let left = strip_leading(rest, c);
        assert(rest.skip(rest.len() - left.len()) == name.skip(name.len() - left.len()));
        assert forall|i: int| 0 <= i < name.len() - left.len() implies name[i] == c by {
            if i > 0 {
                assert(name[i] == rest[i - 1]);
            }
        }
    } else {
        assert(name.skip(0) == name);
    }
}

/// What is left when the run of `c` at the end of `name` is stripped is the
/// beginning of `name`, and does not end in `c`; what is stripped is `c`
/// throughout.
pub proof fn lemma_strip_trailing(name: Seq<char>, c: char)
    ensures
        strip_trailing(name, c).len() <= name.len(),
        strip_trailing(name, c) == name.take(strip_trailing(name, c).len() as int),
        strip_trailing(name, c).len() > 0 ==> strip_trailing(name, c).last() != c,
        forall|i: int| strip_trailing(name, c).len() <= i < name.len() ==> name[i] == c,
    decreases name.len(),
{
    if name.len() > 0 && name.last() == c {
        let rest = name.drop_last();
        lemma_strip_trailing(rest, c);
        let left = strip_trailing(rest, c);
        assert(rest.take(left.len() as int) == name.take(left.len() as int));
        assert forall|i: int| left.len() <= i < name.len() implies name[i] == c by {
            if i < name.len() - 1 {
                assert(name[i] == rest[i]);
            }
        }
    } else {
        assert(name.take(name.len() as int) == name);
    }
}

/// `trimmed` is the stretch of `name` from `from` to `to`, and `name` holds
/// nothing but spaces outside it.
pub open spec fn is_trimmed_stretch(name: Seq<char>, trimmed: Seq<char>, from: int, to: int) -> bool {
    &&& 0 <= from <= to <= name.len()
    &&& trimmed == name.subrange(from, to)
    &&& forall|i: int| 0 <= i < from ==> name[i] == ' '
    &&& forall|i: int| to <= i < name.len() ==> name[i] == ' '
}

/// A name whose spaces are cut off at both ends is a stretch of the name it
/// was, with nothing but spaces cut off, and neither begins nor ends with a
/// space.
pub proof fn lemma_trim_spaces(name: Seq<char>) -> (stretch: (int, int))
    ensures
        is_trimmed_stretch(name, trim_spaces(name), stretch.0, stretch.1),
        trim_spaces(name).len() > 0 ==> trim_spaces(name).first() != ' ' && trim_spaces(
            name,
        ).last() != ' ',
{
    let front = strip_leading(name, ' ');
    let trimmed = strip_trailing(front, ' ');
    lemma_strip_leading(name, ' ');
    lemma_strip_trailing(front, ' ');
    let from = name.len() - front.len();
    let to = from + trimmed.len();
    assert(trimmed == name.subrange(from, to));
    if trimmed.len() > 0 {
        assert(trimmed.first() == front.first());
    }
    assert forall|i: int| to <= i < name.len() implies name[i] == ' ' by {
        assert(name[i] == front[i - from]);
    }
    (from, to)
}

/// Each not-allowed character of `name` has, under `method`, a replacement
/// that is allowed, or is dropped.
pub open spec fn replaces_cleanly(name: Seq<char>, method: ReplaceMethod) -> bool {
    forall|i: int|
        0 <= i < name.len() && is_not_allowed_char(#[trigger] name[i]) ==> {
            ||| method.replacement(name[i]) == '\0'
            ||| !is_not_allowed_char(method.replacement(name[i]))
        }
}

/// Where each not-allowed character of `name` is replaced by an allowed
/// one or dropped, the substitution leaves no character that is not
/// allowed.
pub proof fn lemma_substitute_cleans(name: Seq<char>, method: ReplaceMethod)
    requires
        replaces_cleanly(name, method),
    ensures
        !has_not_allowed_char(substitute(name, method.table())),
{
    let table = method.table();
    let replaced = name.map_values(|c: char| substituted_char(table, c));
    let kept = |c: char| c != '\0';
    let substituted = replaced.filter(kept);
    assert forall|k: int| 0 <= k < substituted.len() implies !is_not_allowed_char(
        #[trigger] substituted[k],
    ) by {
        replaced.lemma_filter_pred(kept, k);
        assert(substituted.contains(substituted[k]));
        replaced.lemma_filter_contains_rev(kept, substituted[k]);
        let i = choose|i: int| 0 <= i < replaced.len() && replaced[i] == substituted[k];
        assert(replaced[i] == substituted_char(table, name[i]));
        lemma_table_is_total(method, name[i]);
    }
}

/// A reserved name in uppercase begins with three letters of a device
/// name: neither a dot nor a port number is among its first three
/// characters.
pub proof fn lemma_reserved_begins_with_letters(upper: Seq<char>)
    requires
        is_reserved_uppercase(upper, true),
    ensures
        upper.len() >= 3,
        is_device_letter(upper[0]) && is_device_letter(upper[1]) && is_device_letter(upper[2]),
{
    lemma_reserved_names_are_device_names(upper, true);
    lemma_reserved_names_are_device_names(upper.take(3), true);
    lemma_reserved_names_are_device_names(upper.take(4), true);
    if upper.len() > 3 {
        assert(upper.take(3)[0] == upper[0] && upper.take(3)[1] == upper[1] && upper.take(3)[2]
            == upper[2]);
    }
    if upper.len() > 4 {
        assert(upper.take(4)[0] == upper[0] && upper.take(4)[1] == upper[1] && upper.take(4)[2]
            == upper[2]);
    }
}

/// `c` is one of the letters that device names are written with.
pub open spec fn is_device_letter(c: char) -> bool {
    c == 'A' || c == 'C' || c == 'L' || c == 'M' || c == 'N' || c == 'O' || c == 'P' || c == 'R'
        || c == 'T' || c == 'U' || c == 'X'
}

/// A reserved name with something in front is reserved no more: the
/// detector looks for a device name at the beginning only. This holds of
/// names in uppercase, where what is put in front has one to three
/// characters and is not reserved itself.
pub proof fn lemma_prefix_breaks_reserved(front: Seq<char>, upper: Seq<char>)
    requires
        1 <= front.len() <= 3,
        !is_reserved_uppercase(front, true),
        is_reserved_uppercase(upper, true),
    ensures
        !is_reserved_uppercase(front + upper, true),
{
    let whole = front + upper;
    lemma_reserved_begins_with_letters(upper);
    lemma_reserved_names_are_device_names(whole, true);
    lemma_reserved_names_are_device_names(whole.take(3), true);
    lemma_reserved_names_are_device_names(whole.take(4), true);
    lemma_reserved_names_are_device_names(front, true);
    lemma_reserved_names_are_device_names(upper, true);
    assert(whole.len() == front.len() + upper.len());
    assert(whole.take(4)[3] == whole[3]);
    assert(whole[3] == upper[3 - front.len()]);
    if front.len() == 3 {
        assert(whole.take(3) == front);
    } else if whole.len() > 4 {
        assert(whole[4] == upper[4 - front.len()]);
    } else {
        assert(whole.take(4) == whole);
    }
}

/// `name` does not end in a dot or in a space.
pub open spec fn ends_well(name: Seq<char>) -> bool {
    name.len() > 0 ==> name.last() != '.' && name.last() != ' '
}

/// `guard` can stand in front of a name: it is allowed, it is no space,
/// and its uppercase form, of one to three characters, is not reserved.
pub open spec fn guard_fits(guard: char) -> bool {
    &&& !is_not_allowed_char(guard)
    &&& guard != ' '
    &&& 1 <= char_uppercase(guard).len() <= 3
    &&& !is_reserved_uppercase(char_uppercase(guard), true)
}

/// The choices `method` and `policy` do for `name` what they are there
/// for:
/// - the policy does not ask for `ReplaceChar::Space` in place of a dot;
/// - what the method writes for a not-allowed character of `name` is itself
///   allowed;
/// - where the name ends in a dot once its spaces are cut off, what the
///   policy makes of it ends neither in a dot nor in a space (which
///   `DotHandlingPolicy::NotCorrect` never achieves);
/// - where the name that comes of this is empty or reserved, the glyph of
///   the method can stand in front of a name.
pub open spec fn corrects_well(name: Seq<char>, method: ReplaceMethod, policy: DotHandlingPolicy) -> bool {
    let trimmed = trim_spaces(substitute(name, method.table()));
    let corrected = corrected_name(name, method.table(), method, policy);
    &&& policy != DotHandlingPolicy::Replace(ReplaceChar::Space)
    &&& replaces_cleanly(name, method)
    &&& trimmed.len() > 0 && trimmed.last() == '.' ==> ends_well(corrected)
    &&& corrected.len() == 0 || name_is_reserved(corrected, true) ==> guard_fits(
        guard_glyph(method),
    )
}

/// What becomes of a trimmed name when the dots at its end are dealt with:
/// it still holds no character that is not allowed, it still does not begin
/// with a space, and it ends neither in a dot nor in a space.
proof fn lemma_resolved_dots(trimmed: Seq<char>, method: ReplaceMethod, policy: DotHandlingPolicy)
    requires
        !has_not_allowed_char(trimmed),
        trimmed.len() > 0 ==> trimmed.first() != ' ' && trimmed.last() != ' ',
        trimmed.len() > 0 && trimmed.last() == '.' ==> ends_well(
            resolve_trailing_dots(trimmed, method.table(), method, policy),
        ),
    ensures
        !has_not_allowed_char(resolve_trailing_dots(trimmed, method.table(), method, policy)),
        ends_well(resolve_trailing_dots(trimmed, method.table(), method, policy)),
        resolve_trailing_dots(trimmed, method.table(), method, policy).len() > 0
            ==> resolve_trailing_dots(trimmed, method.table(), method, policy).first() != ' ',
{
    let table = method.table();
    let resolved = resolve_trailing_dots(trimmed, table, method, policy);
    if trimmed.len() > 0 && trimmed.last() == '.' && resolved != trimmed {
        let stripped = strip_trailing(trimmed, '.');
        lemma_strip_trailing(trimmed, '.');
        if resolved == stripped {
            assert forall|k: int| 0 <= k < resolved.len() implies !is_not_allowed_char(
                #[trigger] resolved[k],
            ) by {
                assert(resolved[k] == trimmed[k]);
            }
        } else {
            let glyph = resolved.last();
            assert(resolved == trimmed.drop_last().push(glyph));
            assert(!table.contains_key(glyph as u32));
            lemma_table_is_total(method, glyph);
            assert forall|k: int| 0 <= k < resolved.len() implies !is_not_allowed_char(
                #[trigger] resolved[k],
            ) by {
                if k < resolved.len() - 1 {
                    assert(resolved[k] == trimmed[k]);
                }
            }
        }
    }
}

/// The name that `to_safe_name` makes is safe: `is_safe_name` accepts it
/// with `strict_check` and without `only_check_creatable`, whenever the
/// choices correct the name well.
///
/// Each condition of `corrects_well` leaves out names that do not come out
/// safe. With `Replace(Charactor('*'))` for a method, `a?` becomes `a*`.
/// With `DotHandlingPolicy::Remove`, `a .` becomes `a` and a space, and
/// with `DotHandlingPolicy::Replace(Charactor('.'))`, `a.` stays `a.`.
/// With `Replace(Space)` for a method, the empty name becomes a space.
pub proof fn lemma_safe_name_is_safe(name: Seq<char>, method: ReplaceMethod, policy: DotHandlingPolicy)
    requires
        corrects_well(name, method, policy),
    ensures
        name_is_safe(safe_name(name, method.table(), method, policy), false, true),
{
    let table = method.table();
    let substituted = substitute(name, table);
    let trimmed = trim_spaces(substituted);
    let corrected = corrected_name(name, table, method, policy);
    let guard = guard_glyph(method);
    let reserved = name_is_reserved(corrected, true);
    let safe = guarded_name(corrected, reserved, guard);

    lemma_substitute_cleans(name, method);
    let (from, to) = lemma_trim_spaces(substituted);
    assert forall|k: int| 0 <= k < trimmed.len() implies !is_not_allowed_char(
        #[trigger] trimmed[k],
    ) by {
        assert(trimmed[k] == substituted[from + k]);
    }
    lemma_resolved_dots(trimmed, method, policy);

    if reserved {
        let front = seq![guard];
        lemma_uppercase_concat(front, corrected);
        lemma_uppercase_one(guard);
        lemma_prefix_breaks_reserved(char_uppercase(guard), uppercase(corrected));
        lemma_reserved_begins_with_letters(uppercase(corrected));
        if corrected.len() == 0 {
            assert(corrected.map_values(|c: char| char_uppercase(c)).len() == 0);
        }
        assert forall|k: int| 0 <= k < safe.len() implies !is_not_allowed_char(#[trigger] safe[k]) by {
            if k > 0 {
                assert(safe[k] == corrected[k - 1]);
            }
        }
        assert(safe.last() == corrected.last());
    } else if corrected.len() == 0 {
        lemma_uppercase_one(guard);
    }
}

/// A not-allowed character that the method writes stays in the name to
/// the end: no later step takes it out.
proof fn lemma_not_allowed_char_stays(
    name: Seq<char>,
    method: ReplaceMethod,
    policy: DotHandlingPolicy,
    i: int,
)
    requires
        0 <= i < name.len(),
        is_not_allowed_char(name[i]),
        method.replacement(name[i]) != '\0',
        is_not_allowed_char(method.replacement(name[i])),
    ensures
        has_not_allowed_char(safe_name(name, method.table(), method, policy)),
{
    let table = method.table();
    let written = method.replacement(name[i]);
    let replaced = name.map_values(|c: char| substituted_char(table, c));
    let substituted = substitute(name, table);
    let trimmed = trim_spaces(substituted);
    let corrected = corrected_name(name, table, method, policy);
    let safe = safe_name(name, table, method, policy);

    lemma_table_is_total(method, name[i]);
    assert(replaced[i] == written);
    replaced.lemma_filter_contains(|c: char| c != '\0', i);
    let j = choose|j: int| 0 <= j < substituted.len() && substituted[j] == written;
    let (from, to) = lemma_trim_spaces(substituted);
    let at = j - from;
    assert(trimmed[at] == written);
    lemma_strip_trailing(trimmed, '.');
    assert(at < corrected.len() && corrected[at] == written);
    if safe == corrected {
        assert(is_not_allowed_char(safe[at]));
    } else {
        assert(is_not_allowed_char(safe[at + 1]));
    }
}

/// Only a name that is corrected well comes out safe: where the name that
/// `to_safe_name` makes is safe, the method has replaced each not-allowed
/// character of `name` by an allowed one or dropped it, the policy has
/// left neither a dot nor a space at the end, and the guard, where one was
/// needed, is an allowed character and no space.
pub proof fn lemma_safe_only_if_corrected_well(
    name: Seq<char>,
    method: ReplaceMethod,
    policy: DotHandlingPolicy,
)
    requires
        name_is_safe(safe_name(name, method.table(), method, policy), false, true),
    ensures
        replaces_cleanly(name, method),
        ends_well(corrected_name(name, method.table(), method, policy)),
        corrected_name(name, method.table(), method, policy).len() == 0 || name_is_reserved(
            corrected_name(name, method.table(), method, policy),
            true,
        ) ==> !is_not_allowed_char(guard_glyph(method)) && guard_glyph(method) != ' ',
{
    let corrected = corrected_name(name, method.table(), method, policy);
    let safe = safe_name(name, method.table(), method, policy);
    assert forall|i: int| 0 <= i < name.len() && is_not_allowed_char(#[trigger] name[i]) implies {
        ||| method.replacement(name[i]) == '\0'
        ||| !is_not_allowed_char(method.replacement(name[i]))
    } by {
        if method.replacement(name[i]) != '\0' && is_not_allowed_char(method.replacement(name[i])) {
            lemma_not_allowed_char_stays(name, method, policy, i);
        }
    }
    if corrected.len() > 0 {
        assert(safe.last() == corrected.last());
    }
    if safe != corrected {
        assert(safe[0] == guard_glyph(method));
    }
}

/// The substitution leaves a name alone that holds no character that is
/// not allowed.
pub proof fn lemma_substitute_keeps_allowed(name: Seq<char>, method: ReplaceMethod)
    requires
        !has_not_allowed_char(name),
    ensures
        substitute(name, method.table()) == name,
    decreases name.len(),
{
    let table = method.table();
    let replaced = |c: char| substituted_char(table, c);
    let kept = |c: char| c != '\0';
    if name.len() == 0 {
        assert(name.map_values(replaced) == name);
        reveal(Seq::filter);
    } else {
        let front = name.drop_last();
        let last = name.last();
        assert forall|i: int| 0 <= i < front.len() implies !is_not_allowed_char(
            #[trigger] front[i],
        ) by {
            assert(front[i] == name[i]);
        }
        lemma_substitute_keeps_allowed(front, method);
        lemma_table_is_total(method, last);
        assert(!is_not_allowed_char(name[name.len() - 1]));
        assert(name.map_values(replaced) == front.map_values(replaced).push(last));
        front.map_values(replaced).lemma_filter_push(last, kept);
        assert(front.push(last) == name);
    }
}

/// A safe name is kept as it is: whatever the choices, `to_safe_name`
/// makes of a name that `is_safe_name` accepts, with `strict_check` and
/// without `only_check_creatable`, that same name.
pub proof fn lemma_safe_name_is_kept(name: Seq<char>, method: ReplaceMethod, policy: DotHandlingPolicy)
    requires
        name_is_safe(name, false, true),
    ensures
        safe_name(name, method.table(), method, policy) == name,
{
    lemma_substitute_keeps_allowed(name, method);
    assert(strip_leading(name, ' ') == name);
    assert(strip_trailing(name, ' ') == name);
}

/// To sanitize a second time changes nothing, where the choices correct
/// the name well.
pub proof fn lemma_sanitizing_again_changes_nothing(
    name: Seq<char>,
    method: ReplaceMethod,
    policy: DotHandlingPolicy,
)
    requires
        corrects_well(name, method, policy),
    ensures
        safe_name(safe_name(name, method.table(), method, policy), method.table(), method, policy)
            == safe_name(name, method.table(), method, policy),
{
    lemma_safe_name_is_safe(name, method, policy);
    lemma_safe_name_is_kept(safe_name(name, method.table(), method, policy), method, policy);
}

impl ReplaceMethod {
    /// The glyph of the method is allowed, or is NUL, which stands for no
    /// character at all.
    pub open spec fn writes_allowed_glyph(self) -> bool {
        match self {
            ReplaceMethod::Fullwidth(replace_char) | ReplaceMethod::Replace(replace_char) => {
                ||| replace_char.glyph() == '\0'
                ||| !is_not_allowed_char(replace_char.glyph())
            },
            ReplaceMethod::Remove => true,
        }
    }
}

/// A method whose glyph is allowed replaces every not-allowed character of
/// every name by an allowed one, or drops it.
pub proof fn lemma_allowed_glyph_replaces_cleanly(name: Seq<char>, method: ReplaceMethod)
    requires
        method.writes_allowed_glyph(),
    ensures
        replaces_cleanly(name, method),
{
}

/// The choices fit every name:
/// - the glyph of the method is allowed, or NUL;
/// - the policy strips the dots at the end, or writes over the last of them
///   a glyph that is allowed and is neither a dot nor a space, and the name
///   that comes of this does not end in a space;
/// - the glyph of the method can stand in front of a name.
///
/// The second is more than a choice where the dots are stripped: then it
/// leaves out the names in which a space stands before the dots.
pub open spec fn choices_fit(name: Seq<char>, method: ReplaceMethod, policy: DotHandlingPolicy) -> bool {
    &&& policy != DotHandlingPolicy::Replace(ReplaceChar::Space)
    &&& !(policy is NotCorrect)
    &&& method.writes_allowed_glyph()
    &&& match dot_glyph(method, policy) {
        Some(glyph) => !is_not_allowed_char(glyph) && glyph != '.' && glyph != ' ',
        None => {
            let stripped = strip_trailing(trim_spaces(substitute(name, method.table())), '.');
            stripped.len() > 0 ==> stripped.last() != ' '
        },
    }
    &&& guard_fits(guard_glyph(method))
}

/// Choices that fit correct the name well, so that the name that is made
/// of it is safe.
pub proof fn lemma_fit_choices_correct_well(name: Seq<char>, method: ReplaceMethod, policy: DotHandlingPolicy)
    requires
        choices_fit(name, method, policy),
    ensures
        corrects_well(name, method, policy),
        name_is_safe(safe_name(name, method.table(), method, policy), false, true),
{
    lemma_allowed_glyph_replaces_cleanly(name, method);
    let trimmed = trim_spaces(substitute(name, method.table()));
    lemma_strip_trailing(trimmed, '.');
    if let Some(glyph) = dot_glyph(method, policy) {
        lemma_table_is_total(method, glyph);
    }
    lemma_safe_name_is_safe(name, method, policy);
}

/// With the choices of `simply_to_safe_name` every name is corrected well,
/// if only the underscore can stand in front of a name.
pub proof fn lemma_simple_choices_correct_well(name: Seq<char>, fullwidth: bool)
    requires
        guard_fits('_'),
    ensures
        corrects_well(name, simple_method(fullwidth), DotHandlingPolicy::ReplaceWithReplaceMethod),
{
    lemma_fit_choices_correct_well(
        name,
        simple_method(fullwidth),
        DotHandlingPolicy::ReplaceWithReplaceMethod,
    );
}

} // verus!
