//! The choices a caller makes: what takes the place of a character that is
//! not allowed, and what becomes of the dots at the end of a name.

use crate::rules::{is_control_char, is_not_allowed_char};
use std::collections::HashMap;
use vstd::prelude::*;

verus! {

broadcast use vstd::std_specs::hash::group_hash_axioms;

/// A glyph to write in place of something else: one of five that are often
/// used, or any character.
#[derive(Debug)]
pub enum ReplaceChar {
    /// `' '`
    Space,
    /// `'⁇'`
    DubleQuestionMark,
    /// `'❔'`
    WhiteQuestionMark,
    /// `'❓'`
    RedQuestionMark,
    /// `'_'`
    Underscore,
    /// The character given.
    Charactor(char),
}

impl ReplaceChar {
    /// The character that this choice stands for.
    pub open spec fn glyph(self) -> char {
        match self {
            ReplaceChar::Space => ' ',
            ReplaceChar::DubleQuestionMark => '⁇',
            ReplaceChar::WhiteQuestionMark => '❔',
            ReplaceChar::RedQuestionMark => '❓',
            ReplaceChar::Underscore => '_',
            ReplaceChar::Charactor(charactor) => charactor,
        }
    }

    /// The character that this choice stands for.
    pub fn get_char(&self) -> (c: char)
        ensures
            c == self.glyph(),
    {
        match self {
            ReplaceChar::Space => ' ',
            ReplaceChar::DubleQuestionMark => '⁇',
            ReplaceChar::WhiteQuestionMark => '❔',
            ReplaceChar::RedQuestionMark => '❓',
            ReplaceChar::Underscore => '_',
            ReplaceChar::Charactor(charactor) => *charactor,
        }
    }
}

/// What takes the place of a character that is not allowed.
///
/// `Fullwidth` writes the fullwidth look-alike of a punctuation character
/// (`？` for `?`) and the given glyph for a control character. `Replace`
/// writes the given glyph for every such character. `Remove` drops them.
#[derive(Debug)]
pub enum ReplaceMethod {
    Fullwidth(ReplaceChar),
    Replace(ReplaceChar),
    Remove,
}

/// What becomes of the dots at the end of a name.
///
/// `Remove` strips them all. `Replace` writes a glyph over the last one;
/// the glyph may not be `ReplaceChar::Space`. `ReplaceWithReplaceMethod`
/// does as the `ReplaceMethod` in use does. `NotCorrect` leaves the name as
/// it is.
pub enum DotHandlingPolicy {
    Remove,
    Replace(ReplaceChar),
    ReplaceWithReplaceMethod,
    NotCorrect,
}

/// The fullwidth look-alike of a punctuation character of Windows paths;
/// any other character is its own.
pub open spec fn fullwidth_of(c: char) -> char {
    if c == '\\' {
        '⧵'
    } else if c == '/' {
        '／'
    } else if c == ':' {
        '：'
    } else if c == '*' {
        '＊'
    } else if c == '?' {
        '？'
    } else if c == '"' {
        '＂'
    } else if c == '<' {
        '＜'
    } else if c == '>' {
        '＞'
    } else if c == '|' {
        '∣'
    } else {
        c
    }
}

impl ReplaceMethod {
    /// What the method writes for `c`, a character that is not allowed. The
    /// NUL character says that `c` is dropped.
    pub open spec fn replacement(self, c: char) -> char {
        match self {
            ReplaceMethod::Fullwidth(replace_char) => if is_control_char(c) {
                replace_char.glyph()
            } else {
                fullwidth_of(c)
            },
            ReplaceMethod::Replace(replace_char) => replace_char.glyph(),
            ReplaceMethod::Remove => '\0',
        }
    }

    /// The substitution table of the method. Its keys are the codes of the
    /// characters that are not allowed, of all of them and of no other.
    pub open spec fn table(self) -> Map<u32, char> {
        Map::new(
            |code: u32| code < 128 && is_not_allowed_char(code as char),
            |code: u32| self.replacement(code as char),
        )
    }

    /// The method with its substitution table.
    pub fn compile(self) -> (compiled: ReplaceMethodTableConstructor)
        ensures
            compiled.replace_method == self,
            compiled.is_compiled(),
            forall|c: char| is_not_allowed_char(c) ==> compiled.table@.contains_key(c as u32),
    {
        ReplaceMethodTableConstructor::new(self)
    }
}

/// A `ReplaceMethod` and its substitution table, which is keyed by the
/// codes of the characters. `ReplaceMethod::compile` makes one.
pub struct ReplaceMethodTableConstructor {
    pub replace_method: ReplaceMethod,
    pub table: HashMap<u32, char>,
}

impl ReplaceMethodTableConstructor {
    /// The table is the one that belongs to the method.
    pub open spec fn is_compiled(&self) -> bool {
        self.table@ == self.replace_method.table()
    }

    /// The method with its substitution table.
    pub fn new(replace_method: ReplaceMethod) -> (compiled: Self)
        ensures
            compiled.replace_method == replace_method,
            compiled.is_compiled(),
            forall|c: char| is_not_allowed_char(c) ==> compiled.table@.contains_key(c as u32),
    {
        let construct_table = Self::construct_table(&replace_method);
        Self { replace_method, table: construct_table }
    }

    /// The substitution table of `replace_method`: the replacement of each
    /// character that is not allowed, under the character's code.
    pub fn construct_table(replace_method: &ReplaceMethod) -> (table: HashMap<u32, char>)
        ensures
            table@ == replace_method.table(),
            forall|c: char| is_not_allowed_char(c) ==> table@.contains_key(c as u32),
    {
        let table = match replace_method {
            ReplaceMethod::Fullwidth(replace_char) => {
                let mut table = control_char_table(replace_char.get_char());
                table.insert('\\' as u32, '⧵');
                table.insert('/' as u32, '／');
                table.insert(':' as u32, '：');
                table.insert('*' as u32, '＊');
                table.insert('?' as u32, '？');
                table.insert('"' as u32, '＂');
                table.insert('<' as u32, '＜');
                table.insert('>' as u32, '＞');
                table.insert('|' as u32, '∣');
                table
            },
            ReplaceMethod::Replace(replace_char) => one_glyph_table(replace_char.get_char()),
            ReplaceMethod::Remove => one_glyph_table('\0'),
        };
        assert(table@ =~= replace_method.table());
        assert forall|c: char| is_not_allowed_char(c) implies table@.contains_key(c as u32) by {
            lemma_table_is_total(*replace_method, c);
        }
        table
    }
}

/// A table that maps each control character to `glyph`.
fn control_char_table(glyph: char) -> (table: HashMap<u32, char>)
    ensures
        table@ =~= Map::new(|code: u32| code < 32, |code: u32| glyph),
{
    let mut table: HashMap<u32, char> = HashMap::new();
    let mut i: u32 = 0;
    while i < 32
        invariant
            i <= 32,
            table@ =~= Map::new(|code: u32| code < i, |code: u32| glyph),
        decreases 32 - i,
    {
        table.insert(i, glyph);
        i = i + 1;
    }
    table
}

/// A table that maps each character that is not allowed to `glyph`.
fn one_glyph_table(glyph: char) -> (table: HashMap<u32, char>)
    ensures
        table@ =~= Map::new(
            |code: u32| code < 128 && is_not_allowed_char(code as char),
            |code: u32| glyph,
        ),
{
    let mut table = control_char_table(glyph);
    table.insert('\\' as u32, glyph);
    table.insert('/' as u32, glyph);
    table.insert(':' as u32, glyph);
    table.insert('*' as u32, glyph);
    table.insert('?' as u32, glyph);
    table.insert('"' as u32, glyph);
    table.insert('<' as u32, glyph);
    table.insert('>' as u32, glyph);
    table.insert('|' as u32, glyph);
    table
}

/// Whatever the method, its table has an entry for each character that is
/// not allowed, which is the replacement of that character, and for no
/// other character.
pub proof fn lemma_table_is_total(method: ReplaceMethod, c: char)
    ensures
        method.table().contains_key(c as u32) <==> is_not_allowed_char(c),
        is_not_allowed_char(c) ==> method.table()[c as u32] == method.replacement(c),
{
    lemma_char_code(c);
}

/// A character is found again from its code.
pub proof fn lemma_char_code(c: char)
    ensures
        (c as u32) as char == c,
        is_not_allowed_char(c) ==> (c as u32) < 128,
{
}

} // verus!
