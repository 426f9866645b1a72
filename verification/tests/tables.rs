use rsfilename::{ReplaceChar, ReplaceMethod, ReplaceMethodTableConstructor};
use std::collections::HashMap;

/// A table as `construct_table` gives it: the entries under the codes of
/// their characters.
fn table_of(entries: &[(char, char)]) -> HashMap<u32, char> {
    entries.iter().map(|(key, value)| (*key as u32, *value)).collect()
}

#[test]
fn test_construct_table1() {
    let result = table_of(&[
        ('\u{7}', '!'),
        ('\u{c}', '!'),
        ('\u{10}', '!'),
        ('\u{1a}', '!'),
        ('\n', '!'),
        ('\u{1d}', '!'),
        ('\u{4}', '!'),
        ('\u{12}', '!'),
        ('|', '!'),
        ('\u{2}', '!'),
        ('\u{1f}', '!'),
        ('?', '!'),
        ('<', '!'),
        ('\u{3}', '!'),
        ('\u{15}', '!'),
        ('\r', '!'),
        ('\u{14}', '!'),
        ('\u{1c}', '!'),
        ('/', '!'),
        ('\u{1e}', '!'),
        ('\\', '!'),
        ('"', '!'),
        ('\u{b}', '!'),
        ('\u{f}', '!'),
        (':', '!'),
        ('>', '!'),
        ('\u{16}', '!'),
        ('\u{17}', '!'),
        ('*', '!'),
        ('\u{8}', '!'),
        ('\u{6}', '!'),
        ('\u{18}', '!'),
        ('\u{13}', '!'),
        ('\u{e}', '!'),
        ('\0', '!'),
        ('\u{1}', '!'),
        ('\u{1b}', '!'),
        ('\t', '!'),
        ('\u{11}', '!'),
        ('\u{5}', '!'),
        ('\u{19}', '!'),
    ]);

    let replace_method = ReplaceMethod::Replace(ReplaceChar::Charactor('!'));
    assert_eq!(result, ReplaceMethodTableConstructor::construct_table(&replace_method));
}

#[test]
fn test_construct_table2() {
    let result = table_of(&[
        ('\u{1f}', '!'),
        ('>', '＞'),
        ('\u{17}', '!'),
        ('\u{2}', '!'),
        ('\u{1d}', '!'),
        ('\0', '!'),
        ('<', '＜'),
        ('\u{14}', '!'),
        ('\u{15}', '!'),
        ('\u{1e}', '!'),
        ('\u{6}', '!'),
        ('\u{12}', '!'),
        ('\t', '!'),
        ('/', '／'),
        ('\u{1}', '!'),
        ('?', '？'),
        ('\u{7}', '!'),
        ('\u{c}', '!'),
        ('\u{f}', '!'),
        ('\u{1a}', '!'),
        ('"', '＂'),
        ('\n', '!'),
        ('\u{8}', '!'),
        ('\u{4}', '!'),
        ('*', '＊'),
        (':', '：'),
        ('\u{18}', '!'),
        ('\u{b}', '!'),
        ('\u{13}', '!'),
        ('\\', '⧵'),
        ('\u{1c}', '!'),
        ('\u{5}', '!'),
        ('\r', '!'),
        ('\u{19}', '!'),
        ('\u{1b}', '!'),
        ('\u{3}', '!'),
        ('\u{11}', '!'),
        ('\u{e}', '!'),
        ('\u{10}', '!'),
        ('\u{16}', '!'),
        ('|', '∣'),
    ]);

    let replace_method = ReplaceMethod::Fullwidth(ReplaceChar::Charactor('!'));
    assert_eq!(result, ReplaceMethodTableConstructor::construct_table(&replace_method));
}

#[test]
fn test_construct_table3() {
    let result = table_of(&[
        ('\u{11}', '\0'),
        ('\u{2}', '\0'),
        ('\u{8}', '\0'),
        ('\u{15}', '\0'),
        ('\u{17}', '\0'),
        ('\u{18}', '\0'),
        ('\u{19}', '\0'),
        ('\u{c}', '\0'),
        ('\u{7}', '\0'),
        ('\u{1c}', '\0'),
        (':', '\0'),
        ('\n', '\0'),
        ('\u{10}', '\0'),
        ('\u{1d}', '\0'),
        ('*', '\0'),
        ('\u{1b}', '\0'),
        ('\\', '\0'),
        ('\u{4}', '\0'),
        ('"', '\0'),
        ('\r', '\0'),
        ('<', '\0'),
        ('\u{1a}', '\0'),
        ('/', '\0'),
        ('>', '\0'),
        ('\t', '\0'),
        ('\u{b}', '\0'),
        ('\u{e}', '\0'),
        ('\u{3}', '\0'),
        ('\u{14}', '\0'),
        ('?', '\0'),
        ('\u{5}', '\0'),
        ('\u{13}', '\0'),
        ('|', '\0'),
        ('\u{f}', '\0'),
        ('\u{12}', '\0'),
        ('\u{1e}', '\0'),
        ('\u{1}', '\0'),
        ('\0', '\0'),
        ('\u{6}', '\0'),
        ('\u{16}', '\0'),
        ('\u{1f}', '\0'),
    ]);

    let replace_method = ReplaceMethod::Remove;
    assert_eq!(result, ReplaceMethodTableConstructor::construct_table(&replace_method));
}

#[test]
fn compile_keeps_the_method_and_builds_its_table() {
    let compiled = ReplaceMethod::Fullwidth(ReplaceChar::Underscore).compile();
    assert!(matches!(compiled.replace_method, ReplaceMethod::Fullwidth(ReplaceChar::Underscore)));
    assert_eq!(
        compiled.table,
        ReplaceMethodTableConstructor::construct_table(&ReplaceMethod::Fullwidth(
            ReplaceChar::Underscore
        ))
    );
    let made = ReplaceMethodTableConstructor::new(ReplaceMethod::Remove);
    assert!(matches!(made.replace_method, ReplaceMethod::Remove));
    assert_eq!(made.table, ReplaceMethodTableConstructor::construct_table(&ReplaceMethod::Remove));
}

#[test]
fn every_table_has_an_entry_for_each_not_allowed_char() {
    let methods = vec![
        ReplaceMethod::Fullwidth(ReplaceChar::Charactor('!')),
        ReplaceMethod::Fullwidth(ReplaceChar::Space),
        ReplaceMethod::Replace(ReplaceChar::Underscore),
        ReplaceMethod::Replace(ReplaceChar::Charactor('\0')),
        ReplaceMethod::Remove,
    ];
    for method in methods {
        let table = method.compile().table;
        assert_eq!(table.len(), 41);
        for c in rsfilename::NOT_ALLOWED_CHARS {
            assert!(table.contains_key(&(c as u32)), "{:?}", c);
        }
    }
}

#[test]
fn fullwidth_table_maps_punctuation_to_its_look_alike() {
    let table = ReplaceMethod::Fullwidth(ReplaceChar::Underscore).compile().table;
    let pairs = [
        ('\\', '\u{29f5}'),
        ('/', '\u{ff0f}'),
        (':', '\u{ff1a}'),
        ('*', '\u{ff0a}'),
        ('?', '\u{ff1f}'),
        ('"', '\u{ff02}'),
        ('<', '\u{ff1c}'),
        ('>', '\u{ff1e}'),
        ('|', '\u{2223}'),
    ];
    for (plain, wide) in pairs {
        assert_eq!(table.get(&(plain as u32)), Some(&wide));
    }
    for code in 0..32u32 {
        assert_eq!(table.get(&code), Some(&'_'));
    }
    assert_eq!(table.get(&('a' as u32)), None);
    assert_eq!(table.get(&('.' as u32)), None);
    assert_eq!(table.get(&(' ' as u32)), None);
}

#[test]
fn remove_table_maps_everything_to_nul() {
    let table = ReplaceMethod::Remove.compile().table;
    assert_eq!(table.len(), 41);
    assert!(table.values().all(|value| *value == '\0'));
}

#[test]
fn get_char_gives_the_glyph_of_each_choice() {
    assert_eq!(ReplaceChar::Space.get_char(), ' ');
    assert_eq!(ReplaceChar::DubleQuestionMark.get_char(), '\u{2047}');
    assert_eq!(ReplaceChar::WhiteQuestionMark.get_char(), '\u{2754}');
    assert_eq!(ReplaceChar::RedQuestionMark.get_char(), '\u{2753}');
    assert_eq!(ReplaceChar::Underscore.get_char(), '_');
    assert_eq!(ReplaceChar::Charactor('x').get_char(), 'x');
    assert_eq!(ReplaceChar::Charactor('\0').get_char(), '\0');
}

#[test]
fn rule_tables_have_their_sizes() {
    assert_eq!(rsfilename::NOT_ALLOWED_CHARS.len(), 41);
    assert_eq!(rsfilename::NOT_ALLOWED_NAMES_WIN11.len(), 28);
    assert_eq!(rsfilename::NOT_ALLOWED_NAMES.len(), 30);
    for name in rsfilename::NOT_ALLOWED_NAMES_WIN11 {
        assert!(rsfilename::NOT_ALLOWED_NAMES.contains(&name));
    }
    assert!(rsfilename::NOT_ALLOWED_NAMES.contains(&"COM0"));
    assert!(rsfilename::NOT_ALLOWED_NAMES.contains(&"LPT0"));
    assert!(!rsfilename::NOT_ALLOWED_NAMES_WIN11.contains(&"COM0"));
    assert!(rsfilename::NOT_ALLOWED_NAMES.contains(&"COM\u{b9}"));
    assert!(rsfilename::NOT_ALLOWED_NAMES.contains(&"LPT\u{b3}"));
}
